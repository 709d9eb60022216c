//! The values that cross the bridge: outbound commands and inbound events.
use vstd::prelude::*;

verus! {

/// Makes the JSON value type of serde_json known to the verifier, as an opaque
/// value that is carried through unchanged.
#[verifier::external_type_specification]
#[verifier::external_body]
pub struct ExJsonValue(serde_json::Value);

/// Completion status of a player, as reported to the server.
#[derive(Clone, Copy, Debug, PartialEq, Eq, Structural)]
pub enum ClientStatus {
    Unknown,
    Connected,
    Ready,
    Playing,
    Goal,
}

/// Protocol version announced when connecting.
#[derive(Clone, Debug)]
pub struct NetworkVersion {
    pub major: u32,
    pub minor: u32,
    pub build: u32,
    pub class: String,
}

/// One data-storage operation of a `Set` command: the operation's name and
/// its operand.
#[derive(Debug)]
pub struct DataStorageOperation {
    pub replace: String,
    pub value: serde_json::Value,
}

/// Every operation that the host can ask of the server.
#[allow(inconsistent_fields)]
#[derive(Debug)]
pub enum OutboundCommand {
    Connect {
        game: String,
        name: String,
        password: Option<String>,
        items_handling: Option<i32>,
        tags: Vec<String>,
        uuid: String,
        version: NetworkVersion,
    },
    Say { text: String },
    Sync,
    LocationChecks { locations: Vec<i32> },
    LocationScouts { locations: Vec<i32>, create_as_hint: i32 },
    StatusUpdate { status: ClientStatus },
    Bounce {
        games: Option<Vec<String>>,
        slots: Option<Vec<String>>,
        tags: Option<Vec<String>>,
        data: serde_json::Value,
    },
    Get { keys: Vec<String> },
    SetValue {
        key: String,
        default: serde_json::Value,
        want_reply: bool,
        operations: Vec<DataStorageOperation>,
    },
}

/// Every event that the server side can deliver to the host. The payload of
/// each is the message body as the protocol layer decoded it.
#[derive(Debug)]
pub enum InboundEvent {
    RoomInfo(serde_json::Value),
    Connected(serde_json::Value),
    ConnectionRefused(serde_json::Value),
    ReceivedItems(serde_json::Value),
    LocationInfo(serde_json::Value),
    RoomUpdate(serde_json::Value),
    Print(serde_json::Value),
    PrintJson(serde_json::Value),
    DataPackage(serde_json::Value),
    Bounced(serde_json::Value),
    Retrieved(serde_json::Value),
    SetReply(serde_json::Value),
    InvalidPacket(serde_json::Value),
}

} // verus!
