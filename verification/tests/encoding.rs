use usb::encoder::{
    encode_batch, encode_msg, ADD_VIEWERS_TYPE_URL, BUY_STORAGE_TYPE_URL,
    CANCEL_CONTRACT_TYPE_URL, DELETE_VIEWERS_TYPE_URL, MAKE_ROOT_TYPE_URL, POST_FILE_TYPE_URL,
    POST_KEY_TYPE_URL, SIGN_CONTRACT_TYPE_URL, UPGRADE_STORAGE_TYPE_URL,
};
use usb::helpers::{hash_and_hex, hex_encode, merkle_helper, merkle_path};
use usb::types::filetree::{MsgAddViewers, MsgDeleteViewers, MsgMakeRootV2, MsgPostFile, MsgPostKey};
use usb::types::storage::{MsgBuyStorage, MsgCancelContract, MsgSignContract, MsgUpgradeStorage};
use usb::wire::{put_string, put_uint64};
use usb::{JackalMsg, UsbError};

fn s(text: &str) -> String {
    text.to_string()
}

fn one_of_each() -> Vec<JackalMsg> {
    vec![
        JackalMsg::MakeRoot { editors: s("e"), viewers: s("v"), tracking_number: s("t") },
        JackalMsg::PostFile {
            hash_parent: s("p"),
            hash_child: s("c"),
            contents: s("C"),
            viewers: s("v"),
            editors: s("e"),
            tracking_number: s("t"),
        },
        JackalMsg::AddViewers {
            viewer_ids: s("i"),
            viewer_keys: s("k"),
            address: s("a"),
            owner: s("o"),
        },
        JackalMsg::DeleteViewers { viewer_ids: s("i"), address: s("a"), owner: s("o") },
        JackalMsg::SignContract { cid: s("cid1") },
        JackalMsg::CancelContract { cid: s("cid1") },
        JackalMsg::BuyStorage {
            for_address: s("b"),
            duration_days: 30,
            bytes: 1000000,
            payment_denom: s("ujkl"),
        },
        JackalMsg::UpgradeStorage {
            for_address: s("b"),
            duration_days: 30,
            bytes: 1000000,
            payment_denom: s("ujkl"),
        },
        JackalMsg::PostKey { key: s("key") },
    ]
}

#[test]
fn varint_field_of_a_small_number_takes_two_bytes() {
    let mut buf = Vec::new();
    put_uint64(3, 30, &mut buf);
    assert_eq!(buf, vec![24, 30]);
}

#[test]
fn varint_field_splits_large_numbers_into_groups_of_seven_bits() {
    let mut buf = Vec::new();
    put_uint64(3, 300, &mut buf);
    assert_eq!(buf, vec![24, 172, 2]);
    let mut buf = Vec::new();
    put_uint64(1, u64::MAX, &mut buf);
    assert_eq!(buf, vec![8, 255, 255, 255, 255, 255, 255, 255, 255, 255, 1]);
}

#[test]
fn zero_and_the_empty_string_are_left_out() {
    let mut buf = vec![7u8];
    put_uint64(3, 0, &mut buf);
    put_string(4, &String::new(), &mut buf);
    assert_eq!(buf, vec![7]);
}

#[test]
fn string_field_is_length_prefixed_utf8() {
    let mut buf = vec![9u8];
    put_string(2, &s("h\u{e9}"), &mut buf);
    assert_eq!(buf, vec![9, 18, 3, 104, 195, 169]);
}

#[test]
fn string_field_of_two_hundred_bytes_has_a_two_byte_length() {
    let mut buf = Vec::new();
    put_string(1, &"a".repeat(200), &mut buf);
    assert_eq!(buf.len(), 203);
    assert_eq!(&buf[..4], &[10, 200, 1, 97]);
}

#[test]
fn field_number_sixteen_needs_a_two_byte_key() {
    let mut buf = Vec::new();
    put_string(16, &s("a"), &mut buf);
    assert_eq!(buf, vec![130, 1, 1, 97]);
}

#[test]
fn hex_encode_writes_two_lower_case_digits_per_byte() {
    assert_eq!(hex_encode(&[0x00, 0x0f, 0xa0, 0xff, 0x9b]), "000fa0ff9b");
    assert_eq!(hex_encode(&[]), "");
}

#[test]
fn hash_and_hex_is_the_sha256_of_the_bytes() {
    assert_eq!(
        hash_and_hex(""),
        "e3b0c44298fc1c149afbf4c8996fb92427ae41e4649b934ca495991b7852b855"
    );
    assert_eq!(
        hash_and_hex("X"),
        "4b68ab3847feda7d6c62c1fbcbeebfa35eab7351ed5e78f4ddadea5df64b8015"
    );
}

#[test]
fn hash_and_hex_is_deterministic_and_of_fixed_length() {
    let first = hash_and_hex("jkl1tyl97ac3s7sec4jwznk0s7n3tlwf3math03qj4");
    let second = hash_and_hex("jkl1tyl97ac3s7sec4jwznk0s7n3tlwf3math03qj4");
    assert_eq!(first, second);
    assert_eq!(first.len(), 64);
    assert_ne!(first, hash_and_hex("jkl1tyl97ac3s7sec4jwznk0s7n3tlwf3math03qj5"));
}

#[test]
fn buy_storage_layout() {
    let msg = MsgBuyStorage {
        creator: s("a"),
        for_address: s("b"),
        duration_days: 30,
        bytes: 1000000,
        payment_denom: s("ujkl"),
    };
    let expected = vec![10, 1, 97, 18, 1, 98, 24, 30, 32, 192, 132, 61, 42, 4, 117, 106, 107, 108];
    assert_eq!(msg.encode_to_vec(), expected);
    let upgrade = MsgUpgradeStorage {
        creator: s("a"),
        for_address: s("b"),
        duration_days: 30,
        bytes: 1000000,
        payment_denom: s("ujkl"),
    };
    assert_eq!(upgrade.encode_to_vec(), expected);
}

#[test]
fn contract_messages_layout() {
    let sign = MsgSignContract { creator: s("a"), cid: s("cid1") };
    assert_eq!(sign.encode_to_vec(), vec![10, 1, 97, 18, 4, 99, 105, 100, 49]);
    let cancel = MsgCancelContract { creator: s("a"), cid: s("cid1") };
    assert_eq!(cancel.encode_to_vec(), vec![10, 1, 97, 18, 4, 99, 105, 100, 49]);
}

#[test]
fn filetree_messages_layout() {
    let root = MsgMakeRootV2 {
        creator: s("a"),
        editors: s("e"),
        viewers: s("v"),
        tracking_number: s("t"),
    };
    assert_eq!(root.encode_to_vec(), vec![10, 1, 97, 18, 1, 101, 26, 1, 118, 34, 1, 116]);
    let add = MsgAddViewers {
        creator: s("a"),
        viewer_ids: s("i"),
        viewer_keys: s("k"),
        address: s("d"),
        owner: s("o"),
    };
    assert_eq!(
        add.encode_to_vec(),
        vec![10, 1, 97, 18, 1, 105, 26, 1, 107, 34, 1, 100, 42, 1, 111]
    );
    let delete =
        MsgDeleteViewers { creator: s("a"), viewer_ids: s("i"), address: s("d"), owner: s("o") };
    assert_eq!(delete.encode_to_vec(), vec![10, 1, 97, 18, 1, 105, 26, 1, 100, 34, 1, 111]);
    let key = MsgPostKey { creator: s("a"), key: s("k") };
    assert_eq!(key.encode_to_vec(), vec![10, 1, 97, 18, 1, 107]);
    let file = MsgPostFile {
        creator: s("a"),
        account: s("b"),
        hash_parent: s("c"),
        hash_child: s("d"),
        contents: s("e"),
        viewers: s("f"),
        editors: s("g"),
        tracking_number: s("h"),
    };
    assert_eq!(
        file.encode_to_vec(),
        vec![
            10, 1, 97, 18, 1, 98, 26, 1, 99, 34, 1, 100, 42, 1, 101, 50, 1, 102, 58, 1, 103, 66,
            1, 104
        ]
    );
}

#[test]
fn message_with_only_default_fields_is_empty() {
    let msg = MsgBuyStorage {
        creator: String::new(),
        for_address: String::new(),
        duration_days: 0,
        bytes: 0,
        payment_denom: String::new(),
    };
    assert_eq!(msg.encode_to_vec(), Vec::<u8>::new());
}

#[test]
fn make_root_is_encoded_for_its_sender() {
    let msg =
        JackalMsg::MakeRoot { editors: s("test"), viewers: s("test"), tracking_number: s("test") };
    let encoded = encode_msg("juno1fxccvvhhy43tvet2ah7jqwq4cwl9k3dx2kyce9", &msg).unwrap();
    assert_eq!(encoded.type_url, "/canine_chain.filetree.MsgMakeRootV2");
    assert_eq!(
        encoded.value,
        vec![
            10, 43, 106, 117, 110, 111, 49, 102, 120, 99, 99, 118, 118, 104, 104, 121, 52, 51,
            116, 118, 101, 116, 50, 97, 104, 55, 106, 113, 119, 113, 52, 99, 119, 108, 57, 107,
            51, 100, 120, 50, 107, 121, 99, 101, 57, 18, 4, 116, 101, 115, 116, 26, 4, 116, 101,
            115, 116, 34, 4, 116, 101, 115, 116
        ]
    );
}

#[test]
fn post_file_derives_the_account_from_the_sender() {
    let msg = JackalMsg::PostFile {
        hash_parent: s("p"),
        hash_child: s("c"),
        contents: s("C"),
        viewers: s("v"),
        editors: s("e"),
        tracking_number: s("t"),
    };
    let encoded = encode_msg("X", &msg).unwrap();
    assert_eq!(encoded.type_url, "/canine_chain.filetree.MsgPostFile");
    let expected = MsgPostFile {
        creator: s("X"),
        account: hash_and_hex("X"),
        hash_parent: s("p"),
        hash_child: s("c"),
        contents: s("C"),
        viewers: s("v"),
        editors: s("e"),
        tracking_number: s("t"),
    };
    assert_eq!(encoded.value, expected.encode_to_vec());
    assert_eq!(
        encoded.value,
        vec![
            10, 1, 88, 18, 64, 52, 98, 54, 56, 97, 98, 51, 56, 52, 55, 102, 101, 100, 97, 55,
            100, 54, 99, 54, 50, 99, 49, 102, 98, 99, 98, 101, 101, 98, 102, 97, 51, 53, 101, 97,
            98, 55, 51, 53, 49, 101, 100, 53, 101, 55, 56, 102, 52, 100, 100, 97, 100, 101, 97,
            53, 100, 102, 54, 52, 98, 56, 48, 49, 53, 26, 1, 112, 34, 1, 99, 42, 1, 67, 50, 1,
            118, 58, 1, 101, 66, 1, 116
        ]
    );
}

#[test]
fn every_supported_operation_has_its_own_type_url() {
    let urls: Vec<String> = one_of_each()
        .iter()
        .map(|msg| encode_msg("a", msg).unwrap().type_url)
        .collect();
    assert_eq!(
        urls,
        vec![
            "/canine_chain.filetree.MsgMakeRootV2",
            "/canine_chain.filetree.MsgPostFile",
            "/canine_chain.filetree.MsgAddViewers",
            "/canine_chain.filetree.MsgRemoveViewers",
            "/canine_chain.storage.MsgSignContract",
            "/canine_chain.storage.MsgCancelContract",
            "/canine_chain.storage.MsgBuyStorage",
            "/canine_chain.storage.MsgUpgradeStorage",
            "/canine_chain.storage.MsgPostKey",
        ]
    );
    for (i, first) in urls.iter().enumerate() {
        for second in urls.iter().skip(i + 1) {
            assert_ne!(first, second);
        }
    }
    assert_eq!(MAKE_ROOT_TYPE_URL, urls[0]);
    assert_eq!(POST_FILE_TYPE_URL, urls[1]);
    assert_eq!(ADD_VIEWERS_TYPE_URL, urls[2]);
    assert_eq!(DELETE_VIEWERS_TYPE_URL, urls[3]);
    assert_eq!(SIGN_CONTRACT_TYPE_URL, urls[4]);
    assert_eq!(CANCEL_CONTRACT_TYPE_URL, urls[5]);
    assert_eq!(BUY_STORAGE_TYPE_URL, urls[6]);
    assert_eq!(UPGRADE_STORAGE_TYPE_URL, urls[7]);
    assert_eq!(POST_KEY_TYPE_URL, urls[8]);
}

#[test]
fn encoding_twice_gives_the_same_bytes() {
    for msg in one_of_each() {
        let first = encode_msg("sender", &msg).unwrap();
        let second = encode_msg("sender", &msg).unwrap();
        assert_eq!(first, second);
    }
}

#[test]
fn delete_is_not_implemented() {
    let outcome = encode_msg("a", &JackalMsg::Delete {});
    assert!(matches!(outcome, Err(UsbError::NotImplemented)));
    assert!(!JackalMsg::Delete {}.supported());
    assert!(JackalMsg::PostKey { key: s("k") }.supported());
}

#[test]
fn batch_keeps_the_order_of_its_operations() {
    let msgs = one_of_each();
    let encoded = encode_batch("a", &msgs).unwrap();
    assert_eq!(encoded.len(), msgs.len());
    for (msg, message) in msgs.iter().zip(encoded.iter()) {
        assert_eq!(&encode_msg("a", msg).unwrap(), message);
    }
}

#[test]
fn empty_batch_encodes_to_nothing() {
    assert_eq!(encode_batch("a", &Vec::new()).unwrap(), Vec::new());
}

#[test]
fn batch_with_an_unsupported_operation_fails_wherever_it_stands() {
    for position in 0..4 {
        let mut msgs = vec![
            JackalMsg::SignContract { cid: s("1") },
            JackalMsg::SignContract { cid: s("2") },
            JackalMsg::SignContract { cid: s("3") },
        ];
        msgs.insert(position, JackalMsg::Delete {});
        assert!(matches!(encode_batch("a", &msgs), Err(UsbError::NotImplemented)));
    }
}

#[test]
fn merkle_path_folds_the_folders_from_the_left() {
    assert_eq!(
        merkle_path("s"),
        "49393f93b5fe69febf59ca052588a63bb4ac6d933462d390026ba1c9a7bb8e44"
    );
    assert_eq!(
        merkle_path("s/home"),
        "44dd8e232b2c5d253c41748e71d4fb243e2ce36fa18f2f59701cd37d1d08ca3c"
    );
    assert_eq!(
        merkle_path("s/home/file.txt"),
        "fdb2a358fa7d9aa7a4511ca4eb04fa9b1de4a6ce8c44f6f1eab49c7c1d4fbfb0"
    );
    assert_eq!(
        merkle_path("a//b"),
        "75d93de022d06bbceb2ee13d5900ae0997ebd3fab0b14d02f5c0966761b44f88"
    );
}

#[test]
fn merkle_path_does_not_count_one_slash_at_the_end() {
    assert_eq!(merkle_path("s/home/"), merkle_path("s/home"));
    assert_eq!(merkle_path("/"), merkle_path(""));
    assert_eq!(
        merkle_path(""),
        "cd372fb85148700fa88095e3492d3f9f5beb43e555e5ff26d95f5a6adc36f8e6"
    );
    assert_eq!(
        merkle_path("s/home//"),
        "b78006aab7b2b0b69bc5a5bc8d4c89c2729982eff5c0114680ebb8a2ae059123"
    );
}

#[test]
fn merkle_helper_splits_parent_and_child() {
    let (parent, child) = merkle_helper("s/home/file.txt");
    assert_eq!(parent, merkle_path("s/home"));
    assert_eq!(parent, "44dd8e232b2c5d253c41748e71d4fb243e2ce36fa18f2f59701cd37d1d08ca3c");
    assert_eq!(child, hash_and_hex("file.txt"));
    assert_eq!(child, "aadf327c8267c09d6fffd87a1a80ad3c798469ff332b7a57b9e8c045d46b2af7");
    assert_eq!(merkle_helper("s/home/"), merkle_helper("s/home"));
}

#[test]
fn merkle_helper_of_a_single_folder_has_the_empty_parent() {
    let (parent, child) = merkle_helper("s");
    assert_eq!(parent, merkle_path(""));
    assert_eq!(child, "043a718774c572bd8a25adbeb1bfcd5c0256ae11cecf9f9c3f925d0e52beaf89");
    let (parent, child) = merkle_helper("");
    assert_eq!(parent, merkle_path(""));
    assert_eq!(child, hash_and_hex(""));
    let (parent, child) = merkle_helper("a//b");
    assert_eq!(parent, "da3811154d59c4267077ddd8bb768fa9b06399c486e1fc00485116b57c9872f5");
    assert_eq!(child, "3e23e8160039594a33894f6564e1b1348bbd7a0088d42c4acb73eeaed59c009d");
}
