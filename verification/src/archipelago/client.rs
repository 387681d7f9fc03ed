use crate::archipelago::api::{
    APError, Bounce, ClientPayload, ClientStatus, Connect, ConnectUpdate, CreateHints,
    DataStorageOperation, Get, GetDataPackage, HintStatus, ItemHandling, LocationChecks,
    LocationScouts, Say, ServerPayload, SetData, SetNotify, StatusUpdate, Sync,
    UpdateHint,
};
use crate::archipelago::codec::encode_tree;
use crate::archipelago::decode::{decode_message, kind_of, Decoded, Kind};
use crate::archipelago::json::{from_text, json_tree, written, JsonValue, JsonView};
use vstd::prelude::*;
use vstd::utf8::{decode_utf8, encode_utf8, valid_utf8};

verus! {

/// What the server tells an admitted client about its place in the room.
#[derive(Debug, Clone, Copy, PartialEq, Eq, Structural)]
pub struct Session {
    pub team: i64,
    pub slot: i64,
}

/// What a connecting client waits for: the encrypted transport, the plain
/// transport after the encrypted one failed, the server's greeting, or the
/// server's answer to the credentials.
#[derive(Debug, Clone, Copy, PartialEq, Eq, Structural)]
pub enum Handshake {
    Secure,
    Plain,
    Greeting,
    Admission,
}

/// Where the connection stands.
#[derive(Debug, Clone, Copy, PartialEq, Eq, Structural)]
pub enum ConnectionState {
    Disconnected,
    Connecting(Handshake),
    Connected(Session),
}

impl ConnectionState {
    /// Whether a transport is open: frames can come in and go out.
    pub open spec fn open(self) -> bool {
        self is Connected || self == ConnectionState::Connecting(Handshake::Greeting) || self
            == ConnectionState::Connecting(Handshake::Admission)
    }

    /// Whether a transport is open.
    pub fn is_open(&self) -> (open: bool)
        ensures
            open == self.open(),
    {
        match self {
            ConnectionState::Connected(_) => true,
            ConnectionState::Connecting(Handshake::Greeting) => true,
            ConnectionState::Connecting(Handshake::Admission) => true,
            _ => false,
        }
    }

    /// Whether the server has admitted the client.
    pub fn is_connected(&self) -> (connected: bool)
        ensures
            connected == (*self is Connected),
    {
        match self {
            ConnectionState::Connected(_) => true,
            _ => false,
        }
    }
}

/// How an attempt to open a transport ended.
#[derive(Debug, Clone, Copy, PartialEq, Eq, Structural)]
pub enum Transport {
    Opened,
    TcpFailed,
    TlsConnectorFailed,
    TlsFailed,
    WebsocketFailed,
}

impl Transport {
    /// The error that stands for a failed attempt.
    pub open spec fn fault(self) -> APError {
        match self {
            Transport::TlsConnectorFailed => APError::TlsConnectorFailure,
            Transport::WebsocketFailed => APError::WebsocketConnectionFailure,
            _ => APError::ServerConnectionFailure,
        }
    }
}

/// What to open next: the address to reach, the name to present to an
/// encrypted transport, and the address of the websocket.
#[derive(Debug)]
pub struct Dial {
    pub address: String,
    pub domain: String,
    pub websocket_url: String,
    pub secure: bool,
}

/// A dial as a value.
pub struct DialView {
    pub address: Seq<char>,
    pub domain: Seq<char>,
    pub websocket_url: Seq<char>,
    pub secure: bool,
}

impl View for Dial {
    type V = DialView;

    open spec fn view(&self) -> DialView {
        DialView {
            address: self.address@,
            domain: self.domain@,
            websocket_url: self.websocket_url@,
            secure: self.secure,
        }
    }
}

/// The host of an address: what stands before its first colon.
pub open spec fn domain(url: Seq<char>) -> Seq<char> {
    match url.index_of_first(':') {
        Some(colon) => url.take(colon),
        None => url,
    }
}

/// The dial for `url`, encrypted or not.
pub open spec fn dial_for(url: Seq<char>, secure: bool) -> DialView {
    DialView {
        address: url,
        domain: domain(url),
        websocket_url: if secure {
            "wss://"@ + url
        } else {
            "ws://"@ + url
        },
        secure,
    }
}

/// The host of `url`.
pub fn domain_of(url: &str) -> (host: String)
    ensures
        host@ == domain(url@),
{
    let count = url.unicode_len();
    let mut i: usize = 0;
    while i < count
        invariant
            count == url@.len(),
            i <= count,
            forall|j: int| 0 <= j < i ==> url@[j] != ':',
        decreases count - i,
    {
        if url.get_char(i) == ':' {
            proof {
                url@.index_of_first_ensures(':');
            }
            return String::from_str(url.substring_char(0, i));
        }
        i += 1;
    }
    proof {
        url@.index_of_first_ensures(':');
    }
    String::from_str(url)
}

/// The dial for `url`, encrypted or not.
pub fn make_dial(url: &str, secure: bool) -> (dial: Dial)
    ensures
        dial@ == dial_for(url@, secure),
{
    let scheme = if secure {
        "wss://"
    } else {
        "ws://"
    };
    Dial {
        address: String::from_str(url),
        domain: domain_of(url),
        websocket_url: String::from_str(scheme).concat(url),
        secure,
    }
}

/// What the transport hands over after one poll.
#[derive(Debug)]
pub enum Frame {
    /// Nothing came within the poll.
    Idle,
    Text(Vec<u8>),
    Binary,
    Ping,
    Pong,
    Close,
    /// The transport failed.
    Failed,
}

/// A frame as a value.
pub enum FrameView {
    Idle,
    Text(Seq<u8>),
    Binary,
    Ping,
    Pong,
    Close,
    Failed,
}

impl View for Frame {
    type V = FrameView;

    open spec fn view(&self) -> FrameView {
        match self {
            Frame::Idle => FrameView::Idle,
            Frame::Text(bytes) => FrameView::Text(bytes@),
            Frame::Binary => FrameView::Binary,
            Frame::Ping => FrameView::Ping,
            Frame::Pong => FrameView::Pong,
            Frame::Close => FrameView::Close,
            Frame::Failed => FrameView::Failed,
        }
    }
}

/// What a frame brings: the messages of a text frame, none for a frame that
/// carries none, or the fault that the frame stands for. A text frame must
/// be UTF-8 and must hold a JSON array.
pub open spec fn arrival(frame: FrameView) -> Result<Seq<JsonView>, APError> {
    match frame {
        FrameView::Idle => Ok(Seq::empty()),
        FrameView::Ping => Ok(Seq::empty()),
        FrameView::Pong => Ok(Seq::empty()),
        FrameView::Text(bytes) => if !valid_utf8(bytes) {
            Err(APError::ResponseFormatFailure)
        } else {
            match json_tree(decode_utf8(bytes)) {
                Some(JsonView::List(messages)) => Ok(messages),
                _ => Err(APError::ResponseParseFailure),
            }
        },
        FrameView::Binary => Err(APError::BinaryData),
        FrameView::Close => Err(APError::NoConnection),
        FrameView::Failed => Err(APError::PayloadReadFailure),
    }
}

/// Whether a fault ends the connection: the server closed it, or the
/// transport failed.
pub open spec fn fatal(fault: APError) -> bool {
    fault == APError::NoConnection || fault == APError::PayloadReadFailure
}

/// `std::str::from_utf8`: the text that `bytes` spell, which is there if
/// and only if they are well-formed UTF-8.
#[verifier::external_body]
fn text_of(bytes: &[u8]) -> (text: Option<&str>)
    ensures
        text is Some <==> valid_utf8(bytes@),
        text matches Some(t) ==> encode_utf8(t@) == bytes@,
{
    std::str::from_utf8(bytes).ok()
}

/// Reads the messages that a frame brings.
pub fn messages_of(frame: Frame) -> (messages: Result<Vec<JsonValue>, APError>)
    ensures
        match messages {
            Ok(list) => arrival(frame@) == Ok::<Seq<JsonView>, APError>(
                list@.map_values(|v: JsonValue| v@),
            ),
            Err(fault) => arrival(frame@) == Err::<Seq<JsonView>, APError>(fault),
        },
{
    match frame {
        Frame::Idle | Frame::Ping | Frame::Pong => {
            let list: Vec<JsonValue> = Vec::new();
            assert(list@.map_values(|v: JsonValue| v@) =~= Seq::empty());
            Ok(list)
        },
        Frame::Binary => Err(APError::BinaryData),
        Frame::Close => Err(APError::NoConnection),
        Frame::Failed => Err(APError::PayloadReadFailure),
        Frame::Text(bytes) => {
            let text = match text_of(bytes.as_slice()) {
                Some(text) => text,
                None => return Err(APError::ResponseFormatFailure),
            };
            proof {
                vstd::utf8::encode_utf8_decode_utf8(text@);
            }
            match from_text(text) {
                Some(JsonValue::List(list)) => {
                    assert(JsonValue::List(list)@->List_0 =~= list@.map_values(
                        |v: JsonValue| v@,
                    ));
                    Ok(list)
                },
                _ => Err(APError::ResponseParseFailure),
            }
        },
    }
}

/// What a read brings to the caller.
#[derive(Debug)]
pub enum ReadOutcome {
    NoMessage,
    Message(ServerPayload),
    Error(APError),
}

/// What the client wants written after a read.
#[derive(Debug)]
pub enum Reply {
    Nothing,
    /// The answer to a ping.
    Pong,
    /// A frame of text.
    Text(String),
}

/// A reply as a value.
pub enum ReplyView {
    Nothing,
    Pong,
    Text(Seq<char>),
}

impl View for Reply {
    type V = ReplyView;

    open spec fn view(&self) -> ReplyView {
        match self {
            Reply::Nothing => ReplyView::Nothing,
            Reply::Pong => ReplyView::Pong,
            Reply::Text(text) => ReplyView::Text(text@),
        }
    }
}

/// The result of a read: what the caller gets, and what goes back to the
/// server.
#[derive(Debug)]
pub struct Reading {
    pub outcome: ReadOutcome,
    pub reply: Reply,
}

/// What a read is due to bring.
pub enum Due {
    NoMessage,
    /// The payload that the message holds.
    Message(JsonView),
    Error(APError),
}

impl ReadOutcome {
    /// Whether the outcome is the one that is due.
    pub open spec fn meets(self, due: Due) -> bool {
        match (self, due) {
            (ReadOutcome::NoMessage, Due::NoMessage) => true,
            (ReadOutcome::Error(fault), Due::Error(wanted)) => fault == wanted,
            (ReadOutcome::Message(payload), Due::Message(tree)) => payload.read_from(tree),
            _ => false,
        }
    }
}

/// The one persistent connection to the coordination server, as far as it
/// can be told without touching the network: its state, the messages that
/// have come in and were not handed on yet, and the credentials that it
/// presents.
pub struct APClient {
    pub url: String,
    pub state: ConnectionState,
    pub pending: Vec<JsonValue>,
    pub credentials: Connect,
}

/// A client as a value.
pub struct ClientView {
    pub url: Seq<char>,
    pub state: ConnectionState,
    pub pending: Seq<JsonView>,
    pub credentials: Connect,
}

impl View for APClient {
    type V = ClientView;

    open spec fn view(&self) -> ClientView {
        ClientView {
            url: self.url@,
            state: self.state,
            pending: self.pending@.map_values(|v: JsonValue| v@),
            credentials: self.credentials,
        }
    }
}

/// The session that a `Connected` message opens.
pub open spec fn session_of(tree: JsonView) -> Session {
    Session { team: tree.int_at("team"@)->0, slot: tree.int_at("slot"@)->0 }
}

impl ClientView {
    /// The client once nothing is left of its connection.
    pub open spec fn dropped(self) -> ClientView {
        ClientView { state: ConnectionState::Disconnected, pending: Seq::empty(), ..self }
    }

    /// The frame that presents the credentials.
    pub open spec fn credentials_frame(self) -> JsonView {
        ClientPayload::Connect(self.credentials).frame()
    }

    /// The messages at hand once `frame` has come in.
    pub open spec fn at_hand(self, frame: FrameView) -> Seq<JsonView> {
        match arrival(frame) {
            Ok(messages) => self.pending + messages,
            Err(_) => self.pending,
        }
    }

    /// Whether a read of `frame` takes up a message: a transport is open,
    /// the frame is no ping and stands for no fault, and a message is at
    /// hand.
    pub open spec fn takes_up(self, frame: FrameView) -> bool {
        self.state.open() && !(frame is Ping) && arrival(frame) is Ok && self.at_hand(frame).len()
            > 0
    }

    /// The client after it has taken up `message`, with `rest` still at
    /// hand. A connecting client goes on only with the message that it
    /// waits for: the greeting, which it answers with its credentials, and
    /// then the admission. Any other message ends the attempt.
    pub open spec fn after_message(self, message: JsonView, rest: Seq<JsonView>) -> ClientView {
        match self.state {
            ConnectionState::Connecting(Handshake::Greeting) => if kind_of(message)
                == Kind::RoomInfo && written(self.credentials_frame()) is Some {
                ClientView {
                    state: ConnectionState::Connecting(Handshake::Admission),
                    pending: rest,
                    ..self
                }
            } else {
                self.dropped()
            },
            ConnectionState::Connecting(Handshake::Admission) => if kind_of(message)
                == Kind::Connected {
                ClientView {
                    state: ConnectionState::Connected(session_of(message)),
                    pending: rest,
                    ..self
                }
            } else {
                self.dropped()
            },
            _ => ClientView { pending: rest, ..self },
        }
    }

    /// The client after a read of `frame`.
    pub open spec fn after_read(self, frame: FrameView) -> ClientView {
        if !self.state.open() || frame is Ping {
            self
        } else {
            match arrival(frame) {
                Err(fault) => if fatal(fault) {
                    self.dropped()
                } else {
                    self
                },
                Ok(_) => if self.at_hand(frame).len() == 0 {
                    self
                } else {
                    self.after_message(
                        self.at_hand(frame).first(),
                        self.at_hand(frame).drop_first(),
                    )
                },
            }
        }
    }

    /// What taking up `message` is due to bring to the caller. The messages
    /// of the handshake stay with the client; a message that the codec does
    /// not read is reported, and the connection goes on.
    pub open spec fn due_for(self, message: JsonView) -> Due {
        match self.state {
            ConnectionState::Connecting(Handshake::Greeting) => if kind_of(message)
                != Kind::RoomInfo {
                Due::Error(APError::ProtocolViolation)
            } else if written(self.credentials_frame()) is None {
                Due::Error(APError::PayloadSerializationFailure)
            } else {
                Due::NoMessage
            },
            ConnectionState::Connecting(Handshake::Admission) => if kind_of(message)
                == Kind::Connected {
                Due::NoMessage
            } else {
                Due::Error(APError::ProtocolViolation)
            },
            _ => if kind_of(message) == Kind::Unrecognized {
                Due::Error(APError::ResponseParseFailure)
            } else {
                Due::Message(message)
            },
        }
    }

    /// What a read of `frame` is due to bring to the caller.
    pub open spec fn due(self, frame: FrameView) -> Due {
        if !self.state.open() {
            Due::Error(APError::NoConnection)
        } else if frame is Ping {
            Due::NoMessage
        } else {
            match arrival(frame) {
                Err(fault) => Due::Error(fault),
                Ok(_) => if self.at_hand(frame).len() == 0 {
                    Due::NoMessage
                } else {
                    self.due_for(self.at_hand(frame).first())
                },
            }
        }
    }

    /// What goes back to the server after a read of `frame`: the answer to
    /// a ping, the credentials after the greeting, and a request for the
    /// items so far after the admission.
    pub open spec fn reply(self, frame: FrameView) -> ReplyView {
        if !self.state.open() {
            ReplyView::Nothing
        } else if frame is Ping {
            ReplyView::Pong
        } else if !self.takes_up(frame) {
            ReplyView::Nothing
        } else {
            let message = self.at_hand(frame).first();
            match self.state {
                ConnectionState::Connecting(Handshake::Greeting) => if kind_of(message)
                    == Kind::RoomInfo && written(self.credentials_frame()) is Some {
                    ReplyView::Text(written(self.credentials_frame())->0)
                } else {
                    ReplyView::Nothing
                },
                ConnectionState::Connecting(Handshake::Admission) => if kind_of(message)
                    == Kind::Connected && written(ClientPayload::Sync(Sync {  }).frame())
                    is Some {
                    ReplyView::Text(written(ClientPayload::Sync(Sync {  }).frame())->0)
                } else {
                    ReplyView::Nothing
                },
                _ => ReplyView::Nothing,
            }
        }
    }

    /// What a request gives when its payload is `message`: the text of the
    /// frame that carries it, `NoConnection` without an open transport, and
    /// `PayloadSerializationFailure` where the frame cannot be written.
    pub open spec fn framed(self, message: JsonView) -> Result<Seq<char>, APError> {
        if !self.state.open() {
            Err(APError::NoConnection)
        } else {
            match written(JsonView::List(seq![message])) {
                Some(text) => Ok(text),
                None => Err(APError::PayloadSerializationFailure),
            }
        }
    }

    /// What the end of an attempt to open a transport asks for next: the
    /// plain transport after the encrypted one failed its handshake, and
    /// nothing else after any other end.
    pub open spec fn answer(self, outcome: Transport) -> Result<Option<DialView>, APError> {
        match self.state {
            ConnectionState::Connecting(Handshake::Secure) => match outcome {
                Transport::Opened => Ok(None),
                Transport::TlsFailed => Ok(Some(dial_for(self.url, false))),
                _ => Err(outcome.fault()),
            },
            ConnectionState::Connecting(Handshake::Plain) => match outcome {
                Transport::Opened => Ok(None),
                _ => Err(outcome.fault()),
            },
            _ => Ok(None),
        }
    }

    /// The client after an attempt to open a transport has ended with
    /// `outcome`. Only a client that waits for a transport takes note.
    pub open spec fn after_transport(self, outcome: Transport) -> ClientView {
        match self.state {
            ConnectionState::Connecting(Handshake::Secure) => match outcome {
                Transport::Opened => ClientView {
                    state: ConnectionState::Connecting(Handshake::Greeting),
                    ..self
                },
                Transport::TlsFailed => ClientView {
                    state: ConnectionState::Connecting(Handshake::Plain),
                    ..self
                },
                _ => self.dropped(),
            },
            ConnectionState::Connecting(Handshake::Plain) => match outcome {
                Transport::Opened => ClientView {
                    state: ConnectionState::Connecting(Handshake::Greeting),
                    ..self
                },
                _ => self.dropped(),
            },
            _ => self,
        }
    }
}

/// A client that waits for the greeting is connected once the greeting and
/// the admission have come in, one after the other, and holds the session
/// that the admission names.
pub proof fn handshake_connects(client: ClientView, greeting: JsonView, admission: JsonView)
    requires
        client.state == ConnectionState::Connecting(Handshake::Greeting),
        kind_of(greeting) == Kind::RoomInfo,
        kind_of(admission) == Kind::Connected,
        written(client.credentials_frame()) is Some,
    ensures
        client.after_message(greeting, Seq::empty()).after_message(
            admission,
            Seq::empty(),
        ).state == ConnectionState::Connected(session_of(admission)),
{
}

/// An attempt that does not get its transport leaves the client
/// disconnected, unless the encrypted transport failed its handshake and the
/// plain one is still to be tried.
pub proof fn failed_attempt_disconnects(client: ClientView, outcome: Transport)
    requires
        client.state == ConnectionState::Connecting(Handshake::Secure) || client.state
            == ConnectionState::Connecting(Handshake::Plain),
        outcome != Transport::Opened,
        !(client.state == ConnectionState::Connecting(Handshake::Secure) && outcome
            == Transport::TlsFailed),
    ensures
        client.after_transport(outcome).state == ConnectionState::Disconnected,
        client.answer(outcome) is Err,
{
}

impl Transport {
    /// The error that stands for a failed attempt.
    pub fn error(&self) -> (fault: APError)
        ensures
            fault == self.fault(),
    {
        match self {
            Transport::TlsConnectorFailed => APError::TlsConnectorFailure,
            Transport::WebsocketFailed => APError::WebsocketConnectionFailure,
            _ => APError::ServerConnectionFailure,
        }
    }
}

impl APClient {
    /// A client for the server at `url`, not connected yet.
    pub fn new(url: &str, credentials: Connect) -> (client: APClient)
        ensures
            client@ == (ClientView {
                url: url@,
                state: ConnectionState::Disconnected,
                pending: Seq::empty(),
                credentials,
            }),
    {
        let client = APClient {
            url: String::from_str(url),
            state: ConnectionState::Disconnected,
            pending: Vec::new(),
            credentials,
        };
        assert(client@.pending =~= Seq::empty());
        client
    }

    /// Starts an attempt to connect, whatever came of the one before: the
    /// client waits for the encrypted transport that the dial describes.
    pub fn dial(&mut self) -> (dial: Dial)
        ensures
            final(self)@ == (ClientView {
                state: ConnectionState::Connecting(Handshake::Secure),
                pending: Seq::empty(),
                ..old(self)@
            }),
            dial@ == dial_for(old(self)@.url, true),
    {
        self.state = ConnectionState::Connecting(Handshake::Secure);
        self.pending = Vec::new();
        assert(self@.pending =~= Seq::empty());
        make_dial(self.url.as_str(), true)
    }

    /// Takes note of how an attempt to open a transport has ended.
    pub fn transport(&mut self, outcome: Transport) -> (next: Result<Option<Dial>, APError>)
        ensures
            final(self)@ == old(self)@.after_transport(outcome),
            match next {
                Ok(Some(dial)) => old(self)@.answer(outcome) == Ok::<Option<DialView>, APError>(
                    Some(dial@),
                ),
                Ok(None) => old(self)@.answer(outcome) == Ok::<Option<DialView>, APError>(None),
                Err(fault) => old(self)@.answer(outcome) == Err::<Option<DialView>, APError>(
                    fault,
                ),
            },
    {
        match self.state {
            ConnectionState::Connecting(Handshake::Secure) => match outcome {
                Transport::Opened => {
                    self.state = ConnectionState::Connecting(Handshake::Greeting);
                    Ok(None)
                },
                Transport::TlsFailed => {
                    self.state = ConnectionState::Connecting(Handshake::Plain);
                    Ok(Some(make_dial(self.url.as_str(), false)))
                },
                _ => {
                    self.drop_connection();
                    Err(outcome.error())
                },
            },
            ConnectionState::Connecting(Handshake::Plain) => match outcome {
                Transport::Opened => {
                    self.state = ConnectionState::Connecting(Handshake::Greeting);
                    Ok(None)
                },
                _ => {
                    self.drop_connection();
                    Err(outcome.error())
                },
            },
            _ => Ok(None),
        }
    }

    /// Forgets the connection and what had come in over it.
    pub fn drop_connection(&mut self)
        ensures
            final(self)@ == old(self)@.dropped(),
    {
        self.state = ConnectionState::Disconnected;
        self.pending = Vec::new();
        assert(self@.pending =~= Seq::empty());
    }

    /// Takes in what one poll of the transport has brought, and hands on
    /// at most one message.
    ///
    /// Without an open transport there is nothing to read. A ping is
    /// answered and brings nothing. A frame that stands for a fault is
    /// reported; the connection ends where the server closed it or the
    /// transport failed, and goes on otherwise. The messages of a text frame
    /// join those at hand, and the first one at hand is taken up.
    pub fn read(&mut self, frame: Frame) -> (reading: Reading)
        ensures
            final(self)@ == old(self)@.after_read(frame@),
            reading.outcome.meets(old(self)@.due(frame@)),
            reading.reply@ == old(self)@.reply(frame@),
    {
        let ghost before = self@;
        let ghost came = frame@;
        if !self.state.is_open() {
            return Reading { outcome: ReadOutcome::Error(APError::NoConnection), reply: Reply::Nothing };
        }
        if let Frame::Ping = frame {
            return Reading { outcome: ReadOutcome::NoMessage, reply: Reply::Pong };
        }
        let mut list = match messages_of(frame) {
            Ok(list) => list,
            Err(fault) => {
                match fault {
                    APError::NoConnection | APError::PayloadReadFailure => {
                        self.drop_connection();
                    },
                    _ => {},
                }
                return Reading { outcome: ReadOutcome::Error(fault), reply: Reply::Nothing };
            },
        };
        self.pending.append(&mut list);
        if self.pending.len() == 0 {
            return Reading { outcome: ReadOutcome::NoMessage, reply: Reply::Nothing };
        }
        let message = self.pending.remove(0);
        assert(self@.pending =~= before.at_hand(came).drop_first());
        let decoded = decode_message(&message);
        match self.state {
            ConnectionState::Connecting(Handshake::Greeting) => match decoded {
                Decoded::Message(ServerPayload::RoomInfo(_)) => {
                    match encode_tree(self.credentials.to_json()) {
                        Ok(text) => {
                            self.state = ConnectionState::Connecting(Handshake::Admission);
                            Reading { outcome: ReadOutcome::NoMessage, reply: Reply::Text(text) }
                        },
                        Err(fault) => {
                            self.drop_connection();
                            Reading { outcome: ReadOutcome::Error(fault), reply: Reply::Nothing }
                        },
                    }
                },
                _ => {
                    self.drop_connection();
                    Reading {
                        outcome: ReadOutcome::Error(APError::ProtocolViolation),
                        reply: Reply::Nothing,
                    }
                },
            },
            ConnectionState::Connecting(Handshake::Admission) => match decoded {
                Decoded::Message(ServerPayload::Connected(admission)) => {
                    self.state = ConnectionState::Connected(
                        Session { team: admission.team, slot: admission.slot },
                    );
                    let reply = match encode_tree((Sync {  }).to_json()) {
                        Ok(text) => Reply::Text(text),
                        Err(_) => Reply::Nothing,
                    };
                    Reading { outcome: ReadOutcome::NoMessage, reply }
                },
                _ => {
                    self.drop_connection();
                    Reading {
                        outcome: ReadOutcome::Error(APError::ProtocolViolation),
                        reply: Reply::Nothing,
                    }
                },
            },
            _ => match decoded {
                Decoded::Message(payload) => Reading {
                    outcome: ReadOutcome::Message(payload),
                    reply: Reply::Nothing,
                },
                Decoded::Unrecognized => Reading {
                    outcome: ReadOutcome::Error(APError::ResponseParseFailure),
                    reply: Reply::Nothing,
                },
            },
        }
    }

    /// Takes note of how the write of a frame has ended. A failed write
    /// ends the connection; nothing is tried again here.
    pub fn written(&mut self, sent: bool) -> (result: Result<(), APError>)
        ensures
            sent ==> result is Ok && final(self)@ == old(self)@,
            !sent ==> result == Err::<(), APError>(APError::PayloadWriteFailure) && final(self)@
                == old(self)@.dropped(),
    {
        if sent {
            Ok(())
        } else {
            self.drop_connection();
            Err(APError::PayloadWriteFailure)
        }
    }

    /// The text of the frame that carries `message`, for a client with an
    /// open transport.
    fn frame(&self, message: JsonValue) -> (text: Result<String, APError>)
        ensures
            match text {
                Ok(written) => self@.framed(message@) == Ok::<Seq<char>, APError>(written@),
                Err(fault) => self@.framed(message@) == Err::<Seq<char>, APError>(fault),
            },
    {
        if !self.state.is_open() {
            return Err(APError::NoConnection);
        }
        encode_tree(message)
    }
}

impl APClient {
    /// Takes the credentials of a slot and gives the frame that presents
    /// them. The client keeps them for the greeting of the next attempt.
    pub fn connect(
        &mut self,
        password: &str,
        game: &str,
        name: &str,
        uuid: i64,
        items_handling: ItemHandling,
        tags: Vec<String>,
        slot_data: bool,
    ) -> (text: Result<String, APError>)
        ensures
            final(self)@ == (ClientView { credentials: final(self).credentials, ..old(self)@ }),
            final(self).credentials.presents(
                password@,
                game@,
                name@,
                uuid,
                items_handling,
                slot_data,
            ),
            final(self).credentials.tags == tags,
            match text {
                Ok(written) => final(self)@.framed(final(self).credentials.tree()) == Ok::<
                    Seq<char>,
                    APError,
                >(written@),
                Err(fault) => final(self)@.framed(final(self).credentials.tree()) == Err::<
                    Seq<char>,
                    APError,
                >(fault),
            },
    {
        self.credentials = Connect::for_slot(
            password,
            game,
            name,
            uuid,
            items_handling,
            tags,
            slot_data,
        );
        self.frame(self.credentials.to_json())
    }

    /// The frame that changes what the server sends to this client.
    pub fn connect_update(&self, items_handling: ItemHandling, tags: Vec<String>) -> (text: Result<String, APError>)
        ensures
            match text {
                Ok(written) => self@.framed((ConnectUpdate { items_handling, tags }).tree()) == Ok::<Seq<char>, APError>(written@),
                Err(fault) => self@.framed((ConnectUpdate { items_handling, tags }).tree()) == Err::<Seq<char>, APError>(fault),
            },
    {
        let payload = ConnectUpdate { items_handling, tags };
        self.frame(payload.to_json())
    }

    /// The frame that asks for all items received so far.
    pub fn sync(&self) -> (text: Result<String, APError>)
        ensures
            match text {
                Ok(written) => self@.framed((Sync {  }).tree()) == Ok::<Seq<char>, APError>(written@),
                Err(fault) => self@.framed((Sync {  }).tree()) == Err::<Seq<char>, APError>(fault),
            },
    {
        let payload = Sync {  };
        self.frame(payload.to_json())
    }

    /// The frame that reports `locations` as checked.
    pub fn location_checks(&self, locations: Vec<i64>) -> (text: Result<String, APError>)
        ensures
            match text {
                Ok(written) => self@.framed((LocationChecks { locations }).tree()) == Ok::<Seq<char>, APError>(written@),
                Err(fault) => self@.framed((LocationChecks { locations }).tree()) == Err::<Seq<char>, APError>(fault),
            },
    {
        let payload = LocationChecks { locations };
        self.frame(payload.to_json())
    }

    /// The frame that asks what lies at `locations`.
    pub fn location_scouts(&self, locations: Vec<i64>, create_as_hint: i64) -> (text: Result<String, APError>)
        ensures
            match text {
                Ok(written) => self@.framed((LocationScouts { locations, create_as_hint }).tree()) == Ok::<Seq<char>, APError>(written@),
                Err(fault) => self@.framed((LocationScouts { locations, create_as_hint }).tree()) == Err::<Seq<char>, APError>(fault),
            },
    {
        let payload = LocationScouts { locations, create_as_hint };
        self.frame(payload.to_json())
    }

    /// The frame that creates hints for `locations` of `player`.
    pub fn create_hints(&self, locations: Vec<i64>, player: i64, status: HintStatus) -> (text: Result<String, APError>)
        ensures
            match text {
                Ok(written) => self@.framed((CreateHints { locations, player, status }).tree()) == Ok::<Seq<char>, APError>(written@),
                Err(fault) => self@.framed((CreateHints { locations, player, status }).tree()) == Err::<Seq<char>, APError>(fault),
            },
    {
        let payload = CreateHints { locations, player, status };
        self.frame(payload.to_json())
    }

    /// The frame that changes the status of a hint.
    pub fn update_hint(&self, player: i64, location: i64, status: HintStatus) -> (text: Result<String, APError>)
        ensures
            match text {
                Ok(written) => self@.framed((UpdateHint { player, location, status }).tree()) == Ok::<Seq<char>, APError>(written@),
                Err(fault) => self@.framed((UpdateHint { player, location, status }).tree()) == Err::<Seq<char>, APError>(fault),
            },
    {
        let payload = UpdateHint { player, location, status };
        self.frame(payload.to_json())
    }

    /// The frame that tells the server how far the player is.
    pub fn status_update(&self, status: ClientStatus) -> (text: Result<String, APError>)
        ensures
            match text {
                Ok(written) => self@.framed((StatusUpdate { status }).tree()) == Ok::<Seq<char>, APError>(written@),
                Err(fault) => self@.framed((StatusUpdate { status }).tree()) == Err::<Seq<char>, APError>(fault),
            },
    {
        let payload = StatusUpdate { status };
        self.frame(payload.to_json())
    }

    /// The frame that says `text` in the room.
    pub fn say(&self, text: String) -> (frame: Result<String, APError>)
        ensures
            match frame {
                Ok(written) => self@.framed((Say { text }).tree()) == Ok::<Seq<char>, APError>(written@),
                Err(fault) => self@.framed((Say { text }).tree()) == Err::<Seq<char>, APError>(fault),
            },
    {
        let payload = Say { text };
        self.frame(payload.to_json())
    }

    /// The frame that asks for the names of the items and locations of `games`.
    pub fn get_data_package(&self, games: Vec<String>) -> (text: Result<String, APError>)
        ensures
            match text {
                Ok(written) => self@.framed((GetDataPackage { games }).tree()) == Ok::<Seq<char>, APError>(written@),
                Err(fault) => self@.framed((GetDataPackage { games }).tree()) == Err::<Seq<char>, APError>(fault),
            },
    {
        let payload = GetDataPackage { games };
        self.frame(payload.to_json())
    }

    /// The frame that has the server pass `data` on to the clients that `games`, `slots` and `tags` name.
    pub fn bounce(&self, games: Vec<String>, slots: Vec<i64>, tags: Vec<String>, data: Vec<(String, String)>) -> (text: Result<String, APError>)
        ensures
            match text {
                Ok(written) => self@.framed((Bounce { games, slots, tags, data }).tree()) == Ok::<Seq<char>, APError>(written@),
                Err(fault) => self@.framed((Bounce { games, slots, tags, data }).tree()) == Err::<Seq<char>, APError>(fault),
            },
    {
        let payload = Bounce { games, slots, tags, data };
        self.frame(payload.to_json())
    }

    /// The frame that asks for the values stored under `keys`.
    pub fn get(&self, keys: Vec<String>) -> (text: Result<String, APError>)
        ensures
            match text {
                Ok(written) => self@.framed((Get { keys }).tree()) == Ok::<Seq<char>, APError>(written@),
                Err(fault) => self@.framed((Get { keys }).tree()) == Err::<Seq<char>, APError>(fault),
            },
    {
        let payload = Get { keys };
        self.frame(payload.to_json())
    }

    /// The frame that changes the value stored under `key`.
    pub fn set(&self, key: String, default: String, want_reply: bool, operations: Vec<DataStorageOperation>) -> (text: Result<String, APError>)
        ensures
            match text {
                Ok(written) => self@.framed((SetData { key, default, want_reply, operations }).tree()) == Ok::<Seq<char>, APError>(written@),
                Err(fault) => self@.framed((SetData { key, default, want_reply, operations }).tree()) == Err::<Seq<char>, APError>(fault),
            },
    {
        let payload = SetData { key, default, want_reply, operations };
        self.frame(payload.to_json())
    }

    /// The frame that asks to be told of changes under `keys`.
    pub fn set_notify(&self, keys: Vec<String>) -> (text: Result<String, APError>)
        ensures
            match text {
                Ok(written) => self@.framed((SetNotify { keys }).tree()) == Ok::<Seq<char>, APError>(written@),
                Err(fault) => self@.framed((SetNotify { keys }).tree()) == Err::<Seq<char>, APError>(fault),
            },
    {
        let payload = SetNotify { keys };
        self.frame(payload.to_json())
    }
}

} // verus!
