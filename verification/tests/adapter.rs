use usb::adapter::handlers::{
    query_config, query_status, set_status, update_config, AccountBase, USB_ID, USB_NAME,
    USB_NAMESPACE,
};
use usb::adapter::msg::{ConfigResponse, StatusResponse, UsbAdapterExecuteMsg};
use usb::response::{response, Attribute};
use usb::UsbError;

fn account(manager: &str, proxy: &str) -> AccountBase {
    AccountBase { manager: manager.to_string(), proxy: proxy.to_string() }
}

#[test]
fn namespace_owner_may_update_the_configuration() {
    let outcome = update_config(&Some(account("m", "p")), &Some(account("m", "p")));
    assert_eq!(outcome.unwrap(), response("update_config"));
}

#[test]
fn anyone_else_is_unauthorized() {
    for target in [account("m", "q"), account("n", "p"), account("p", "m")] {
        let outcome = update_config(&Some(account("m", "p")), &Some(target));
        assert!(matches!(outcome, Err(UsbError::Unauthorized)));
    }
}

#[test]
fn unclaimed_namespace_and_missing_target_are_unauthorized() {
    let owner = Some(account("m", "p"));
    assert!(matches!(update_config(&None, &owner), Err(UsbError::Unauthorized)));
    assert!(matches!(update_config(&owner, &None), Err(UsbError::Unauthorized)));
    assert!(matches!(update_config(&None, &None), Err(UsbError::Unauthorized)));
}

#[test]
fn status_change_shows_status_and_account() {
    let answer = set_status("busy", "local-7");
    assert_eq!(answer.action, "set_status");
    assert!(answer.messages.is_empty());
    assert_eq!(
        answer.attributes,
        vec![
            Attribute { key: "new_status".to_string(), value: "busy".to_string() },
            Attribute { key: "account_id".to_string(), value: "local-7".to_string() },
        ]
    );
}

#[test]
fn status_query_tells_unset_from_set() {
    assert_eq!(query_status(None), StatusResponse { status: None });
    assert_eq!(
        query_status(Some("busy".to_string())),
        StatusResponse { status: Some("busy".to_string()) }
    );
    assert_eq!(query_config(), ConfigResponse {});
}

#[test]
fn adapter_id_is_namespace_and_name() {
    assert_eq!(USB_ID, format!("{}:{}", USB_NAMESPACE, USB_NAME));
    let msg = UsbAdapterExecuteMsg::SetStatus { status: "busy".to_string() };
    assert_ne!(msg, UsbAdapterExecuteMsg::UpdateConfig {});
}
