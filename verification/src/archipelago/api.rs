use vstd::prelude::*;

verus! {

/// What can go wrong between the engine and the coordination server.
#[derive(Clone, Copy, Debug, PartialEq, Eq, Structural)]
pub enum APError {
    NoConnection,
    TlsConnectorFailure,
    ServerConnectionFailure,
    WebsocketConnectionFailure,
    PayloadSerializationFailure,
    PayloadWriteFailure,
    PayloadReadFailure,
    BinaryData,
    PingPong,
    ResponseParseFailure,
    ResponseFormatFailure,
    ProtocolViolation,
}

impl APError {
    /// The text that describes the error to a person.
    pub fn message(&self) -> (text: &'static str)
        ensures
            text@ == match *self {
                APError::NoConnection => "not connected"@,
                APError::TlsConnectorFailure => "tls connector failed to build"@,
                APError::ServerConnectionFailure => "unable to connect to server"@,
                APError::WebsocketConnectionFailure => "unable to establish websocket connection"@,
                APError::PayloadSerializationFailure => "unable to serialize payload"@,
                APError::PayloadWriteFailure => "failed to write payload"@,
                APError::PayloadReadFailure => "failed to read payload"@,
                APError::BinaryData => "binary data from server"@,
                APError::PingPong => "ping/pong from server"@,
                APError::ResponseParseFailure => "failed to parse response from server"@,
                APError::ResponseFormatFailure => "unable to convert response to string"@,
                APError::ProtocolViolation => "unexpected message from server"@,
            },
    {
        match self {
            APError::NoConnection => "not connected",
            APError::TlsConnectorFailure => "tls connector failed to build",
            APError::ServerConnectionFailure => "unable to connect to server",
            APError::WebsocketConnectionFailure => "unable to establish websocket connection",
            APError::PayloadSerializationFailure => "unable to serialize payload",
            APError::PayloadWriteFailure => "failed to write payload",
            APError::PayloadReadFailure => "failed to read payload",
            APError::BinaryData => "binary data from server",
            APError::PingPong => "ping/pong from server",
            APError::ResponseParseFailure => "failed to parse response from server",
            APError::ResponseFormatFailure => "unable to convert response to string",
            APError::ProtocolViolation => "unexpected message from server",
        }
    }
}

// Client -> Server Payloads

/// What the client sends to the server.
#[derive(Clone, Debug)]
pub enum ClientPayload {
    Connect(Connect),
    ConnectUpdate(ConnectUpdate),
    Sync(Sync),
    LocationChecks(LocationChecks),
    LocationScouts(LocationScouts),
    CreateHints(CreateHints),
    UpdateHint(UpdateHint),
    StatusUpdate(StatusUpdate),
    Say(Say),
    GetDataPackage(GetDataPackage),
    Bounce(Bounce),
    Get(Get),
    SetData(SetData),
    SetNotify(SetNotify),
}

/// The credentials of a slot, sent in answer to the server's greeting.
#[derive(Clone, Debug)]
pub struct Connect {
    pub password: String,
    pub game: String,
    pub name: String,
    pub uuid: i64,
    pub version: NetworkVersion,
    pub items_handling: ItemHandling,
    pub tags: Vec<String>,
    pub slot_data: bool,
}

/// The name of the game on the wire.
pub const GAME_NAME: &'static str = "La-Mulana";

impl Connect {
    /// Whether the credentials are those of the slot of `name`: the parts
    /// named, the version that the client speaks, and nothing else asked
    /// for.
    pub open spec fn presents(
        self,
        password: Seq<char>,
        game: Seq<char>,
        name: Seq<char>,
        uuid: i64,
        items_handling: ItemHandling,
        slot_data: bool,
    ) -> bool {
        &&& self.password@ == password
        &&& self.game@ == game
        &&& self.name@ == name
        &&& self.uuid == uuid
        &&& self.version.class@ == "Version"@
        &&& self.version.build == 0
        &&& self.version.major == 6
        &&& self.version.minor == 4
        &&& self.items_handling == items_handling
        &&& self.slot_data == slot_data
    }

    /// The credentials of a slot.
    pub fn for_slot(
        password: &str,
        game: &str,
        name: &str,
        uuid: i64,
        items_handling: ItemHandling,
        tags: Vec<String>,
        slot_data: bool,
    ) -> (credentials: Connect)
        ensures
            credentials.presents(password@, game@, name@, uuid, items_handling, slot_data),
            credentials.tags == tags,
    {
        Connect {
            password: String::from_str(password),
            game: String::from_str(game),
            name: String::from_str(name),
            uuid,
            version: NetworkVersion { class: String::from_str("Version"), build: 0, major: 6, minor: 4 },
            items_handling,
            tags,
            slot_data,
        }
    }
}

/// A change of what the server sends to this client.
#[derive(Clone, Debug)]
pub struct ConnectUpdate {
    pub items_handling: ItemHandling,
    pub tags: Vec<String>,
}

/// The request for all items received so far.
#[derive(Clone, Copy, Debug, PartialEq, Eq, Structural)]
pub struct Sync {
}

/// The report that locations have been checked.
#[derive(Clone, Debug)]
pub struct LocationChecks {
    pub locations: Vec<i64>,
}

/// The question what lies at some locations.
#[derive(Clone, Debug)]
pub struct LocationScouts {
    pub locations: Vec<i64>,
    pub create_as_hint: i64,
}

/// The request to create hints for locations of a player.
#[derive(Clone, Debug)]
pub struct CreateHints {
    pub locations: Vec<i64>,
    pub player: i64,
    pub status: HintStatus,
}

/// A change of the status of a hint.
#[derive(Clone, Copy, Debug, PartialEq, Eq, Structural)]
pub struct UpdateHint {
    pub player: i64,
    pub location: i64,
    pub status: HintStatus,
}

/// How far the player is.
#[derive(Clone, Copy, Debug, PartialEq, Eq, Structural)]
pub struct StatusUpdate {
    pub status: ClientStatus,
}

/// A line of chat.
#[derive(Clone, Debug)]
pub struct Say {
    pub text: String,
}

/// The request for the names of the items and locations of some games.
#[derive(Clone, Debug)]
pub struct GetDataPackage {
    pub games: Vec<String>,
}

/// A packet that the server passes on to other clients.
#[derive(Clone, Debug)]
pub struct Bounce {
    pub games: Vec<String>,
    pub slots: Vec<i64>,
    pub tags: Vec<String>,
    pub data: Vec<(String, String)>,
}

/// The request for the values stored under some keys.
#[derive(Clone, Debug)]
pub struct Get {
    pub keys: Vec<String>,
}

/// A change of the value stored under a key.
#[derive(Clone, Debug)]
pub struct SetData {
    pub key: String,
    pub default: String,
    pub want_reply: bool,
    pub operations: Vec<DataStorageOperation>,
}

/// The request to be told of changes under some keys.
#[derive(Clone, Debug)]
pub struct SetNotify {
    pub keys: Vec<String>,
}

// Server -> Client Payloads

/// What the server sends to the client.
#[derive(Clone, Debug)]
pub enum ServerPayload {
    RoomInfo(RoomInfo),
    ConnectionRefused(ConnectionRefused),
    Connected(Connected),
    ReceivedItems(ReceivedItems),
    LocationInfo(LocationInfo),
    RoomUpdate(RoomUpdate),
    PrintJSON(PrintJSON),
    DataPackage(DataPackage),
    Bounced(Bounced),
    InvalidPacket(InvalidPacket),
    Retrieved(Retrieved),
    SetReply(SetReply),
}

/// The server's greeting.
#[derive(Clone, Debug)]
pub struct RoomInfo {
    pub version: NetworkVersion,
    pub generator_version: NetworkVersion,
    pub tags: Vec<String>,
    pub password: bool,
    pub permissions: Vec<(String, Permission)>,
    pub hint_cost: i64,
    pub location_check_points: i64,
    pub games: Vec<String>,
    pub datapackage_checksums: Vec<(String, String)>,
    pub seed_name: String,
    pub time: Timestamp,
}

/// The server's refusal of the credentials, with its reasons.
#[derive(Clone, Debug)]
pub struct ConnectionRefused {
    pub errors: Vec<String>,
}

/// The server's admission of the client to its slot.
#[derive(Clone, Debug)]
pub struct Connected {
    pub team: i64,
    pub slot: i64,
    pub players: Vec<NetworkPlayer>,
    pub missing_locations: Vec<i64>,
    pub checked_locations: Vec<i64>,
    pub slot_data: Option<Vec<(String, String)>>,
    pub slot_info: Vec<(String, NetworkSlot)>,
    pub hint_points: i64,
}

/// Items that the server grants to the local player.
#[derive(Clone, Debug)]
pub struct ReceivedItems {
    pub index: u16,
    pub items: Vec<NetworkItem>,
}

/// What lies at the locations that were scouted.
#[derive(Clone, Debug)]
pub struct LocationInfo {
    pub location: Vec<NetworkItem>,
}

/// A change of the room.
#[derive(Clone, Debug)]
pub struct RoomUpdate {
    pub version: Option<NetworkVersion>,
    pub generator_version: Option<NetworkVersion>,
    pub tags: Option<Vec<String>>,
    pub password: Option<bool>,
    pub permissions: Option<Vec<(String, Permission)>>,
    pub hint_cost: Option<i64>,
    pub location_check_points: Option<i64>,
    pub games: Option<Vec<String>>,
    pub datapackage_checksums: Option<Vec<(String, String)>>,
    pub seed_name: Option<String>,
    pub time: Option<Timestamp>,
    pub team: Option<i64>,
    pub slot: Option<i64>,
    pub players: Option<Vec<NetworkPlayer>>,
    pub missing_locations: Option<Vec<i64>>,
    pub checked_locations: Option<Vec<i64>>,
    pub slot_data: Option<Vec<(String, String)>>,
    pub slot_info: Option<Vec<(String, NetworkSlot)>>,
    pub hint_points: Option<i64>,
}

/// A message for the player, in parts.
#[derive(Clone, Debug)]
pub struct PrintJSON {
    pub data: Vec<JSONMessagePart>,
    pub kind: String,
    pub receiving: Option<i64>,
    pub item: Option<NetworkItem>,
    pub found: Option<bool>,
    pub team: Option<i64>,
    pub slot: Option<i64>,
    pub message: Option<String>,
    pub tags: Option<Vec<String>>,
    pub countdown: Option<i64>,
}

/// The names of the items and locations of the games.
#[derive(Clone, Debug)]
pub struct DataPackage {
    pub data: DataPackageObject,
}

/// A packet of another client, passed on by the server.
#[derive(Clone, Debug)]
pub struct Bounced {
    pub games: Vec<String>,
    pub slots: Vec<i64>,
    pub tags: Vec<String>,
    pub data: Vec<(String, String)>,
}

/// The server's complaint about a packet that it could not read.
#[derive(Clone, Debug)]
pub struct InvalidPacket {
    pub kind: String,
    pub original_cmd: String,
    pub text: String,
}

/// The values stored under the keys that were asked for.
#[derive(Clone, Debug)]
pub struct Retrieved {
    pub keys: Vec<(String, String)>,
}

/// The server's report of a change under a key.
#[derive(Clone, Debug)]
pub struct SetReply {
    pub key: String,
    pub value: String,
    pub original_value: String,
    pub slot: i64,
}

// Structures and enumerations that the payloads share

/// A reading of the server's clock, in seconds: a whole number, or a number
/// with a fraction, kept as the text that stands for it on the wire.
#[derive(Clone, Debug)]
pub enum Timestamp {
    Whole(i64),
    Fraction(String),
}

/// A version of the protocol or of the server.
#[derive(Clone, Debug)]
pub struct NetworkVersion {
    pub class: String,
    pub build: i64,
    pub major: i64,
    pub minor: i64,
}

/// A player of the room.
#[derive(Clone, Debug)]
pub struct NetworkPlayer {
    pub team: i64,
    pub slot: i64,
    pub alias: String,
    pub name: String,
}

/// A slot of the room.
#[derive(Clone, Debug)]
pub struct NetworkSlot {
    pub name: String,
    pub game: String,
    pub kind: SlotType,
    pub group_members: Vec<i64>,
}

/// One item that the server grants: which item, the location it was found
/// at, the player that found it, and its classification bits.
#[derive(Clone, Copy, Debug, PartialEq, Eq, Structural)]
pub struct NetworkItem {
    pub item: i64,
    pub location: i64,
    pub player: i64,
    pub flags: i64,
}

/// One part of a message for the player.
#[derive(Clone, Debug)]
pub struct JSONMessagePart {
    pub kind: Option<String>,
    pub text: Option<String>,
    pub color: Option<String>,
    pub flags: Option<i64>,
    pub player: Option<i64>,
    pub hint_status: Option<HintStatus>,
}

/// The data packages of the games, by name.
#[derive(Clone, Debug)]
pub struct DataPackageObject {
    pub games: Vec<(String, GameData)>,
}

/// The names of the items and locations of one game.
#[derive(Clone, Debug)]
pub struct GameData {
    pub item_name_to_id: Vec<(String, i64)>,
    pub location_name_to_id: Vec<(String, i64)>,
    pub checksum: String,
}

/// Which items the client wants the server to send it.
#[derive(Clone, Copy, Debug, PartialEq, Eq, Structural)]
pub enum ItemHandling {
    NeverReceiveItems,
    OtherWorldsOnly,
    OtherWorldsAndSelf,
    OtherWorldsAndStartingInventory,
    OtherWorldsSelfAndStartingInventory,
}

impl ItemHandling {
    /// The number that stands for the policy on the wire.
    pub open spec fn code_of(self) -> u8 {
        match self {
            ItemHandling::NeverReceiveItems => 0,
            ItemHandling::OtherWorldsOnly => 1,
            ItemHandling::OtherWorldsAndSelf => 3,
            ItemHandling::OtherWorldsAndStartingInventory => 5,
            ItemHandling::OtherWorldsSelfAndStartingInventory => 6,
        }
    }

    /// The number that stands for the value on the wire.
    pub fn code(&self) -> (code: u8)
        ensures
            code == self.code_of(),
    {
        match self {
            ItemHandling::NeverReceiveItems => 0,
            ItemHandling::OtherWorldsOnly => 1,
            ItemHandling::OtherWorldsAndSelf => 3,
            ItemHandling::OtherWorldsAndStartingInventory => 5,
            ItemHandling::OtherWorldsSelfAndStartingInventory => 6,
        }
    }

    /// The policy that `code` stands for, if any.
    pub fn from_code(code: u8) -> (policy: Option<ItemHandling>)
        ensures
            policy matches Some(p) ==> p.code_of() == code,
            policy is None ==> forall|p: ItemHandling| p.code_of() != code,
    {
        match code {
            0 => Some(ItemHandling::NeverReceiveItems),
            1 => Some(ItemHandling::OtherWorldsOnly),
            3 => Some(ItemHandling::OtherWorldsAndSelf),
            5 => Some(ItemHandling::OtherWorldsAndStartingInventory),
            6 => Some(ItemHandling::OtherWorldsSelfAndStartingInventory),
            _ => None,
        }
    }

    /// Whether an item that `sender` found is taken in by `local_player`
    /// under this policy: never under `NeverReceiveItems`; only from other
    /// players under the policies that do not name the player's own world;
    /// from every player under those that do.
    pub open spec fn admits(self, sender: i64, local_player: i64) -> bool {
        match self {
            ItemHandling::NeverReceiveItems => false,
            ItemHandling::OtherWorldsOnly => sender != local_player,
            ItemHandling::OtherWorldsAndStartingInventory => sender != local_player,
            ItemHandling::OtherWorldsAndSelf => true,
            ItemHandling::OtherWorldsSelfAndStartingInventory => true,
        }
    }

    /// Whether an item that `sender` found is taken in by `local_player`
    /// under this policy.
    pub fn accepts(&self, sender: i64, local_player: i64) -> (taken: bool)
        ensures
            taken == self.admits(sender, local_player),
    {
        match self {
            ItemHandling::NeverReceiveItems => false,
            ItemHandling::OtherWorldsOnly => sender != local_player,
            ItemHandling::OtherWorldsAndStartingInventory => sender != local_player,
            ItemHandling::OtherWorldsAndSelf => true,
            ItemHandling::OtherWorldsSelfAndStartingInventory => true,
        }
    }
}

/// How much a hint matters.
#[derive(Clone, Copy, Debug, PartialEq, Eq, Structural)]
pub enum HintStatus {
    HintUnspecified,
    HintNoPriority,
    HintAvoid,
    HintPriority,
    HintFound,
}

impl HintStatus {
    /// The number that stands for the status on the wire.
    pub open spec fn code_of(self) -> u16 {
        match self {
            HintStatus::HintUnspecified => 0,
            HintStatus::HintNoPriority => 10,
            HintStatus::HintAvoid => 20,
            HintStatus::HintPriority => 30,
            HintStatus::HintFound => 40,
        }
    }

    /// The number that stands for the value on the wire.
    pub fn code(&self) -> (code: u16)
        ensures
            code == self.code_of(),
    {
        match self {
            HintStatus::HintUnspecified => 0,
            HintStatus::HintNoPriority => 10,
            HintStatus::HintAvoid => 20,
            HintStatus::HintPriority => 30,
            HintStatus::HintFound => 40,
        }
    }

    /// The value that `code` stands for, if any.
    pub fn from_code(code: u16) -> (status: Option<HintStatus>)
        ensures
            status matches Some(s) ==> s.code_of() == code,
            status is None ==> forall|s: HintStatus| s.code_of() != code,
    {
        match code {
            0 => Some(HintStatus::HintUnspecified),
            10 => Some(HintStatus::HintNoPriority),
            20 => Some(HintStatus::HintAvoid),
            30 => Some(HintStatus::HintPriority),
            40 => Some(HintStatus::HintFound),
            _ => None,
        }
    }
}

/// How far a client is.
#[derive(Clone, Copy, Debug, PartialEq, Eq, Structural)]
pub enum ClientStatus {
    ClientUnknown,
    ClientConnected,
    ClientReady,
    ClientPlaying,
    ClientGoal,
}

impl ClientStatus {
    /// The number that stands for the status on the wire.
    pub open spec fn code_of(self) -> u16 {
        match self {
            ClientStatus::ClientUnknown => 0,
            ClientStatus::ClientConnected => 5,
            ClientStatus::ClientReady => 10,
            ClientStatus::ClientPlaying => 20,
            ClientStatus::ClientGoal => 30,
        }
    }

    /// The number that stands for the value on the wire.
    pub fn code(&self) -> (code: u16)
        ensures
            code == self.code_of(),
    {
        match self {
            ClientStatus::ClientUnknown => 0,
            ClientStatus::ClientConnected => 5,
            ClientStatus::ClientReady => 10,
            ClientStatus::ClientPlaying => 20,
            ClientStatus::ClientGoal => 30,
        }
    }

    /// The value that `code` stands for, if any.
    pub fn from_code(code: u16) -> (status: Option<ClientStatus>)
        ensures
            status matches Some(s) ==> s.code_of() == code,
            status is None ==> forall|s: ClientStatus| s.code_of() != code,
    {
        match code {
            0 => Some(ClientStatus::ClientUnknown),
            5 => Some(ClientStatus::ClientConnected),
            10 => Some(ClientStatus::ClientReady),
            20 => Some(ClientStatus::ClientPlaying),
            30 => Some(ClientStatus::ClientGoal),
            _ => None,
        }
    }
}

/// One step of a change of a stored value.
#[derive(Clone, Debug)]
pub struct DataStorageOperation {
    pub operation: Operation,
    pub value: String,
}

/// What a step of a change does to a stored value.
#[derive(Clone, Copy, Debug, PartialEq, Eq, Structural)]
pub enum Operation {
    Replace,
    Default,
    Add,
    Mul,
    Pow,
    Mod,
    Floor,
    Ceil,
    Max,
    Min,
    And,
    Or,
    Xor,
    LeftShift,
    RightShift,
    Remove,
    Pop,
    Update,
}

impl Operation {
    /// The name of the operation on the wire.
    pub open spec fn name_of(self) -> Seq<char> {
        match self {
            Operation::Replace => "replace"@,
            Operation::Default => "default"@,
            Operation::Add => "add"@,
            Operation::Mul => "mul"@,
            Operation::Pow => "pow"@,
            Operation::Mod => "mod"@,
            Operation::Floor => "floor"@,
            Operation::Ceil => "ceil"@,
            Operation::Max => "max"@,
            Operation::Min => "min"@,
            Operation::And => "and"@,
            Operation::Or => "or"@,
            Operation::Xor => "xor"@,
            Operation::LeftShift => "left_shift"@,
            Operation::RightShift => "right_shift"@,
            Operation::Remove => "remove"@,
            Operation::Pop => "pop"@,
            Operation::Update => "update"@,
        }
    }

    /// The name of the operation on the wire.
    pub fn name(&self) -> (name: &'static str)
        ensures
            name@ == self.name_of(),
    {
        match self {
            Operation::Replace => "replace",
            Operation::Default => "default",
            Operation::Add => "add",
            Operation::Mul => "mul",
            Operation::Pow => "pow",
            Operation::Mod => "mod",
            Operation::Floor => "floor",
            Operation::Ceil => "ceil",
            Operation::Max => "max",
            Operation::Min => "min",
            Operation::And => "and",
            Operation::Or => "or",
            Operation::Xor => "xor",
            Operation::LeftShift => "left_shift",
            Operation::RightShift => "right_shift",
            Operation::Remove => "remove",
            Operation::Pop => "pop",
            Operation::Update => "update",
        }
    }
}

/// How far a command may be used in a room.
#[derive(Clone, Copy, Debug, PartialEq, Eq, Structural)]
pub enum Permission {
    /// No use at all.
    Disabled,
    /// Manual use.
    Enabled,
    /// Manual use once the goal is reached.
    Goal,
    /// Forced once the goal is reached.
    Auto,
    /// Forced once the goal is reached, and manual use at any time.
    AutoEnabled,
}

impl Permission {
    /// The number that stands for the permission on the wire.
    pub open spec fn code_of(self) -> u8 {
        match self {
            Permission::Disabled => 0,
            Permission::Enabled => 1,
            Permission::Goal => 2,
            Permission::Auto => 6,
            Permission::AutoEnabled => 7,
        }
    }

    /// The number that stands for the value on the wire.
    pub fn code(&self) -> (code: u8)
        ensures
            code == self.code_of(),
    {
        match self {
            Permission::Disabled => 0,
            Permission::Enabled => 1,
            Permission::Goal => 2,
            Permission::Auto => 6,
            Permission::AutoEnabled => 7,
        }
    }

    /// The permission that `code` stands for, if any.
    pub open spec fn of_code(code: u8) -> Option<Permission> {
        if code == 0 {
            Some(Permission::Disabled)
        } else if code == 1 {
            Some(Permission::Enabled)
        } else if code == 2 {
            Some(Permission::Goal)
        } else if code == 6 {
            Some(Permission::Auto)
        } else if code == 7 {
            Some(Permission::AutoEnabled)
        } else {
            None
        }
    }

    /// The value that `code` stands for, if any.
    pub fn from_code(code: u8) -> (permission: Option<Permission>)
        ensures
            permission == Permission::of_code(code),
            permission matches Some(p) ==> p.code_of() == code,
            permission is None ==> forall|p: Permission| p.code_of() != code,
    {
        match code {
            0 => Some(Permission::Disabled),
            1 => Some(Permission::Enabled),
            2 => Some(Permission::Goal),
            6 => Some(Permission::Auto),
            7 => Some(Permission::AutoEnabled),
            _ => None,
        }
    }
}

/// What kind of participant holds a slot.
#[derive(Clone, Copy, Debug, PartialEq, Eq, Structural)]
pub enum SlotType {
    Spectator,
    Player,
    Group,
}

impl SlotType {
    /// The number that stands for the slot type on the wire.
    pub open spec fn code_of(self) -> u8 {
        match self {
            SlotType::Spectator => 0,
            SlotType::Player => 1,
            SlotType::Group => 2,
        }
    }

    /// The number that stands for the value on the wire.
    pub fn code(&self) -> (code: u8)
        ensures
            code == self.code_of(),
    {
        match self {
            SlotType::Spectator => 0,
            SlotType::Player => 1,
            SlotType::Group => 2,
        }
    }

    /// The slot type that `code` stands for, if any.
    pub open spec fn of_code(code: u8) -> Option<SlotType> {
        if code == 0 {
            Some(SlotType::Spectator)
        } else if code == 1 {
            Some(SlotType::Player)
        } else if code == 2 {
            Some(SlotType::Group)
        } else {
            None
        }
    }

    /// The value that `code` stands for, if any.
    pub fn from_code(code: u8) -> (slot_type: Option<SlotType>)
        ensures
            slot_type == SlotType::of_code(code),
            slot_type matches Some(s) ==> s.code_of() == code,
            slot_type is None ==> forall|s: SlotType| s.code_of() != code,
    {
        match code {
            0 => Some(SlotType::Spectator),
            1 => Some(SlotType::Player),
            2 => Some(SlotType::Group),
            _ => None,
        }
    }
}

} // verus!
