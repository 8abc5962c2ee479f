[package]
name = "usb"
version = "0.1.0"
edition = "2021"
publish = false

[dependencies]
prost = "=0.12.6"
cosmwasm-std = "=1.5.11"
cosmwasm-schema = "=1.5.11"
cw-storage-plus = "=1.2.0"
abstract-std = "=0.22.2"
abstract-app = "=0.22.3"
abstract-adapter = "=0.22.4"
cw-orch = "=0.22.2"
# Named only to pin the derive of cw-orch to the release that cw-orch 0.22.2
# is written against; no file of this crate uses it directly.
cw-orch-contract-derive = "=0.21.0"
sha2 = "=0.10.9"
const_format = "=0.2.37"
thiserror = "=1.0.69"
