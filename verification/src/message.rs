//! The messages that answer the requests of the wallet.

use vstd::prelude::*;

verus! {

/// Manta Signer Server Version
pub const VERSION: &'static str = "0.1.0";

/// Shielded Address Message
#[derive(Clone, Debug)]
pub struct ShieldedAddressMessage {
    /// Address
    pub address: Vec<u8>,
    /// Version
    pub version: String,
}

impl ShieldedAddressMessage {
    /// Builds a new [`ShieldedAddressMessage`].
    pub fn new(address: Vec<u8>) -> (message: Self)
        ensures
            message.address == address,
            message.version@ == "0.0.0"@,
    {
        Self { address, version: "0.0.0".to_owned() }
    }
}

/// Recover Account Message
#[derive(Clone, Debug)]
pub struct RecoverAccountMessage {
    /// Recovered Account
    pub recovered_account: Vec<u8>,
    /// Version
    pub version: &'static str,
}

impl RecoverAccountMessage {
    /// Builds a new [`RecoverAccountMessage`].
    pub fn new(recovered_account: Vec<u8>) -> (message: Self)
        ensures
            message.recovered_account == recovered_account,
            message.version@ == VERSION@,
    {
        Self { recovered_account, version: VERSION }
    }
}

/// Asset Message
#[derive(Clone, Debug)]
pub struct AssetMessage {
    /// Asset
    pub asset: Vec<u8>,
    /// Version
    pub version: &'static str,
}

impl AssetMessage {
    /// Builds a new [`AssetMessage`].
    pub fn new(asset: Vec<u8>) -> (message: Self)
        ensures
            message.asset == asset,
            message.version@ == VERSION@,
    {
        Self { asset, version: VERSION }
    }
}

/// Mint Message
#[derive(Clone, Debug)]
pub struct MintMessage {
    /// Mint Data
    pub mint_data: Vec<u8>,
    /// Version
    pub version: &'static str,
}

impl MintMessage {
    /// Builds a new [`MintMessage`].
    pub fn new(mint_data: Vec<u8>) -> (message: Self)
        ensures
            message.mint_data == mint_data,
            message.version@ == VERSION@,
    {
        Self { mint_data, version: VERSION }
    }
}

/// Private Transfer Message
#[derive(Clone, Debug)]
pub struct PrivateTransferMessage {
    /// Private Transfer Data
    pub private_transfer_data: Vec<u8>,
    /// Version
    pub version: &'static str,
}

impl PrivateTransferMessage {
    /// Builds a new [`PrivateTransferMessage`].
    pub fn new(private_transfer_data: Vec<u8>) -> (message: Self)
        ensures
            message.private_transfer_data == private_transfer_data,
            message.version@ == VERSION@,
    {
        Self { private_transfer_data, version: VERSION }
    }
}

/// Reclaim Message
#[derive(Clone, Debug)]
pub struct ReclaimMessage {
    /// Reclaim Data
    pub reclaim_data: Vec<u8>,
    /// Version
    pub version: &'static str,
}

impl ReclaimMessage {
    /// Builds a new [`ReclaimMessage`].
    pub fn new(reclaim_data: Vec<u8>) -> (message: Self)
        ensures
            message.reclaim_data == reclaim_data,
            message.version@ == VERSION@,
    {
        Self { reclaim_data, version: VERSION }
    }
}

/// A message of any kind
pub enum Message {
    /// Answers the derivation of a shielded address
    ShieldedAddress(ShieldedAddressMessage),
    /// Answers the recovery of an account
    RecoverAccount(RecoverAccountMessage),
    /// Answers the generation of an asset
    Asset(AssetMessage),
    /// Answers the generation of mint data
    Mint(MintMessage),
    /// Answers the generation of private transfer data
    PrivateTransfer(PrivateTransferMessage),
    /// Answers the generation of reclaim data
    Reclaim(ReclaimMessage),
}

/// What a [`Message`] says.
pub enum MessageView {
    ShieldedAddress { address: Seq<u8>, version: Seq<char> },
    RecoverAccount { recovered_account: Seq<u8>, version: Seq<char> },
    Asset { asset: Seq<u8>, version: Seq<char> },
    Mint { mint_data: Seq<u8>, version: Seq<char> },
    PrivateTransfer { private_transfer_data: Seq<u8>, version: Seq<char> },
    Reclaim { reclaim_data: Seq<u8>, version: Seq<char> },
}

impl View for Message {
    type V = MessageView;

    open spec fn view(&self) -> MessageView {
        match self {
            Message::ShieldedAddress(m) => MessageView::ShieldedAddress {
                address: m.address@,
                version: m.version@,
            },
            Message::RecoverAccount(m) => MessageView::RecoverAccount {
                recovered_account: m.recovered_account@,
                version: m.version@,
            },
            Message::Asset(m) => MessageView::Asset { asset: m.asset@, version: m.version@ },
            Message::Mint(m) => MessageView::Mint { mint_data: m.mint_data@, version: m.version@ },
            Message::PrivateTransfer(m) => MessageView::PrivateTransfer {
                private_transfer_data: m.private_transfer_data@,
                version: m.version@,
            },
            Message::Reclaim(m) => MessageView::Reclaim {
                reclaim_data: m.reclaim_data@,
                version: m.version@,
            },
        }
    }
}

} // verus!
