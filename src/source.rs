//! The protocol library's event values, as plain data.
//!
//! Each type holds exactly what the conversion reads from its counterpart in
//! the protocol library (`ibc::ics02_client` and `ibc::events`).

use vstd::prelude::*;

verus! {

/// A chain height: a revision number and a height within that revision.
#[derive(Clone, Copy, Debug, PartialEq, Eq, Structural)]
pub struct IbcHeight {
    pub revision_number: u64,
    pub revision_height: u64,
}

/// The consensus algorithm that a light client tracks.
#[derive(Clone, Copy, Debug, PartialEq, Eq, Structural)]
pub enum IbcClientType {
    Tendermint,
    Mock,
}

/// The identifier under which a client is registered.
#[derive(Clone, Debug)]
pub struct IbcClientId(pub String);

impl View for IbcClientId {
    type V = Seq<char>;

    open spec fn view(&self) -> Seq<char> {
        self.0@
    }
}

/// The payload of a "client created" event.
#[derive(Clone, Debug)]
pub struct IbcAttributes {
    pub height: IbcHeight,
    pub client_id: IbcClientId,
    pub client_type: IbcClientType,
    pub consensus_height: IbcHeight,
}

/// The "client created" event: a single attributes bundle.
#[derive(Clone, Debug)]
pub struct IbcCreateClient(pub IbcAttributes);

/// The protocol library's events. Of each kind but "client created", the
/// conversion reads the kind alone, so those variants hold nothing more.
#[derive(Clone, Debug)]
pub enum IbcEvent {
    NewBlock,
    CreateClient(IbcCreateClient),
    UpdateClient,
    UpgradeClient,
    ClientMisbehaviour,
    OpenInitConnection,
    OpenTryConnection,
    OpenAckConnection,
    OpenConfirmConnection,
    OpenInitChannel,
    OpenTryChannel,
    OpenAckChannel,
    OpenConfirmChannel,
    CloseInitChannel,
    CloseConfirmChannel,
    SendPacket,
    ReceivePacket,
    WriteAcknowledgement,
    AcknowledgePacket,
    TimeoutPacket,
    TimeoutOnClosePacket,
    Empty,
    ChainError,
}

} // verus!
