use manta_signer::message::{
    AssetMessage, MintMessage, PrivateTransferMessage, ReclaimMessage, RecoverAccountMessage,
    ShieldedAddressMessage, VERSION,
};

#[test]
fn shielded_address_message() {
    let message = ShieldedAddressMessage::new(vec![1, 2, 3]);
    assert_eq!(message.address, [1, 2, 3]);
    assert_eq!(message.version, "0.0.0");
}

#[test]
fn recover_account_message() {
    let message = RecoverAccountMessage::new(vec![4]);
    assert_eq!(message.recovered_account, [4]);
    assert_eq!(message.version, VERSION);
}

#[test]
fn asset_message() {
    let message = AssetMessage::new(vec![5, 6]);
    assert_eq!(message.asset, [5, 6]);
    assert_eq!(message.version, VERSION);
}

#[test]
fn mint_message() {
    let message = MintMessage::new(vec![]);
    assert!(message.mint_data.is_empty());
    assert_eq!(message.version, VERSION);
}

#[test]
fn private_transfer_message() {
    let message = PrivateTransferMessage::new(vec![7, 8]);
    assert_eq!(message.private_transfer_data, [7, 8]);
    assert_eq!(message.version, VERSION);
}

#[test]
fn reclaim_message() {
    let message = ReclaimMessage::new(vec![9]);
    assert_eq!(message.reclaim_data, [9]);
    assert_eq!(message.version, VERSION);
}

#[test]
fn version_of_the_package() {
    assert_eq!(VERSION, "0.1.0");
}
