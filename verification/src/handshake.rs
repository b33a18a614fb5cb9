//! From a device's number to a logged-in connection: the rendezvous server names a way to the device and
//! vouches for its key, the device proves that it holds the key, and the password goes to no other.
//!
//! The handshake is a state that takes one event at a time and gives the next thing to do, or the error
//! that ends it. Connecting, sending, receiving and reading the messages are left to the caller.

use vstd::prelude::*;
use vstd::string::*;
use vstd::utf8::*;

use crate::codec::{challenge_answer, is_hyphenated_id, password_response, random_hyphenated_id, sha256};
use crate::crypto::{
    base64_key, box_public_key, checked_identity, create_symmetric_key_msg, decode_id_pk, get_pk, get_rs_pk, key_in,
    open_signed, seals, signature_holds, Identity, KeyMessage, KEY_BYTES,
};
use crate::message::{
    closed_by_peer, closed_text, login_outcome, malformed, malformed_text, peer_from_login_response,
    respond_to_test_delay, stream_error, stream_error_text, Incoming, LoginReply, Peer, PeerMessage,
};
use crate::text::{decimal, joined, joined3, joined4, number_text, text_eq};
use crate::transfer::RUSTDESK_PROTOCOL_VERSION;

verus! {

/// How long the rendezvous server has to offer keys, in milliseconds.
pub const SECURE_TIMEOUT_MS: u64 = 3000;

/// What the connection is for.
#[derive(Clone, Copy, Debug, PartialEq, Eq, Structural)]
pub enum Service {
    Terminal,
    FileTransfer,
}

/// What the program does over the connection.
#[derive(Clone, Copy, Debug, PartialEq, Eq, Structural)]
pub enum Mode {
    /// A terminal for the user.
    Terminal,
    /// One command.
    Exec,
    /// A session that runs commands.
    Session,
    /// A session that moves files.
    FileSession,
    /// One upload.
    Push,
    /// One download.
    Pull,
}

/// What the connection is for: files where files are moved, a terminal otherwise.
pub fn service_for(mode: Mode) -> (service: Service)
    ensures
        service == (if mode is Push || mode is Pull || mode is FileSession {
            Service::FileTransfer
        } else {
            Service::Terminal
        }),
{
    match mode {
        Mode::Push | Mode::Pull | Mode::FileSession => Service::FileTransfer,
        Mode::Terminal | Mode::Exec | Mode::Session => Service::Terminal,
    }
}

// ---------------------------------------------------------------------------
// The rendezvous server
// ---------------------------------------------------------------------------

/// Why the rendezvous server names no way to a device.
#[derive(Clone, Copy, Debug, PartialEq, Eq, Structural)]
pub enum PunchFailure {
    IdNotExist,
    Offline,
    LicenseMismatch,
    LicenseOveruse,
    Other,
}

/// A message of the rendezvous server.
pub enum RendezvousReply {
    /// The reply to a request for a way to a device: its address, or why there is none.
    PunchHole {
        address: Option<String>,
        relay_server: String,
        pk: Vec<u8>,
        failure: PunchFailure,
        other_failure: String,
    },
    /// A relay is assigned.
    Relay { relay_server: String, uuid: String, pk: Vec<u8> },
    /// Keys are offered.
    KeyExchange { keys: Vec<Vec<u8>> },
    /// Any other message.
    Other,
    /// A message without content.
    Empty,
}

/// What a read from the rendezvous server gives.
pub enum RendezvousIncoming {
    Reply(RendezvousReply),
    Malformed(String),
    StreamError(String),
    Closed,
}

/// A relay: the one that was named, or the one at the port after the rendezvous server's.
pub enum RelayServer {
    NextPort,
    Named(String),
}

impl View for RelayServer {
    type V = Option<Seq<char>>;

    open spec fn view(&self) -> Option<Seq<char>> {
        match self {
            RelayServer::NextPort => None,
            RelayServer::Named(name) => Some(name@),
        }
    }
}

/// The relay for a name that may be empty.
pub open spec fn relay_named(name: Seq<char>) -> Option<Seq<char>> {
    if name.len() == 0 {
        None
    } else {
        Some(name)
    }
}

fn relay_for(name: String) -> (relay: RelayServer)
    ensures
        relay@ == relay_named(name@),
{
    if name.as_str().is_empty() {
        RelayServer::NextPort
    } else {
        RelayServer::Named(name)
    }
}

/// Why the rendezvous server names no way to a device, in words.
pub open spec fn refusal_reason(failure: PunchFailure, other_failure: Seq<char>) -> Seq<char> {
    match failure {
        PunchFailure::IdNotExist => "ID does not exist"@,
        PunchFailure::Offline => "Remote device is offline"@,
        PunchFailure::LicenseMismatch => "Key mismatch"@,
        PunchFailure::LicenseOveruse => "Key overuse"@,
        PunchFailure::Other => other_failure,
    }
}

fn refusal(failure: PunchFailure, other_failure: &str) -> (text: String)
    ensures
        text@ == "Connection refused: "@ + refusal_reason(failure, other_failure@),
{
    match failure {
        PunchFailure::IdNotExist => joined("Connection refused: ", "ID does not exist"),
        PunchFailure::Offline => joined("Connection refused: ", "Remote device is offline"),
        PunchFailure::LicenseMismatch => joined("Connection refused: ", "Key mismatch"),
        PunchFailure::LicenseOveruse => joined("Connection refused: ", "Key overuse"),
        PunchFailure::Other => joined("Connection refused: ", other_failure),
    }
}

// ---------------------------------------------------------------------------
// The state
// ---------------------------------------------------------------------------

/// How far a handshake is.
#[derive(Clone, Copy, Debug, PartialEq, Eq, Structural)]
pub enum Phase {
    /// The rendezvous server is being dialled.
    Dial,
    /// The rendezvous server may offer keys.
    Secure,
    /// Our keys are on their way to it.
    SecureReply,
    /// The request for a way to the device is on its way.
    Punch,
    /// The way is awaited.
    Route,
    /// The device is being dialled.
    Direct,
    /// The relay is being dialled.
    Relay,
    /// The request to the relay is on its way.
    RelayRequest,
    /// What the rendezvous server vouches for is being read.
    Vouch,
    /// The device is to say who it is.
    SignedId,
    /// What it said is being read.
    Identify,
    /// Our keys are on their way to the device.
    Keys,
    /// The password challenge is awaited.
    Challenge,
    /// The login request is on its way.
    LoginSent,
    /// The reply to it is awaited.
    Login,
    /// The device has accepted the login.
    Done,
}

/// A handshake.
pub struct Handshake {
    /// The device that is asked for.
    pub device_id: String,
    pub licence_key: String,
    /// The key of the rendezvous server, where the text for it stands for one.
    pub server_key: Option<[u8; 32]>,
    /// The address of the rendezvous server.
    pub address: String,
    pub password: String,
    pub service: Service,
    /// The name and the platform under which this side logs in.
    pub my_id: String,
    pub my_platform: String,
    pub phase: Phase,
    /// What the rendezvous server sent to vouch for the device's key.
    pub vouch: Vec<u8>,
    /// The device that it vouched for, and the key.
    pub vouched_id: String,
    pub sign_key: Option<[u8; 32]>,
    /// The relay, and the name of the connection there.
    pub relay: RelayServer,
    pub uuid: String,
    /// What the device sent to say who it is, and who that is.
    pub signed: Vec<u8>,
    pub peer_id: String,
}

/// A handshake as a value.
pub struct HandshakeView {
    pub device_id: Seq<char>,
    pub licence_key: Seq<char>,
    pub server_key: Option<Seq<u8>>,
    pub address: Seq<char>,
    pub password: Seq<char>,
    pub service: Service,
    pub my_id: Seq<char>,
    pub my_platform: Seq<char>,
    pub phase: Phase,
    pub vouch: Seq<u8>,
    pub vouched_id: Seq<char>,
    pub sign_key: Option<Seq<u8>>,
    pub relay: Option<Seq<char>>,
    pub uuid: Seq<char>,
    pub signed: Seq<u8>,
    pub peer_id: Seq<char>,
}

impl View for Handshake {
    type V = HandshakeView;

    open spec fn view(&self) -> HandshakeView {
        HandshakeView {
            device_id: self.device_id@,
            licence_key: self.licence_key@,
            server_key: key_in(self.server_key),
            address: self.address@,
            password: self.password@,
            service: self.service,
            my_id: self.my_id@,
            my_platform: self.my_platform@,
            phase: self.phase,
            vouch: self.vouch@,
            vouched_id: self.vouched_id@,
            sign_key: key_in(self.sign_key),
            relay: self.relay@,
            uuid: self.uuid@,
            signed: self.signed@,
            peer_id: self.peer_id@,
        }
    }
}

/// What happens to a handshake.
pub enum HandshakeEvent {
    /// What was dialled answers.
    Connected,
    /// It does not, at this address.
    ConnectFailed { address: String, error: String },
    /// What was sent is through.
    Sent,
    /// It is not.
    SendFailed(String),
    /// Something came from the rendezvous server.
    Rendezvous(RendezvousIncoming),
    /// The rendezvous server offered no keys in time.
    NoKeys,
    /// The identity that a signed message holds, or why it holds none.
    Identity(Result<Identity, String>),
    /// Something came from the device.
    Incoming(Incoming),
    /// Something came that is no message: the words of that error, and what it is as a login reply.
    BareLogin { message_error: String, reply: Result<LoginReply, String> },
    /// The device did not reply to the login in time.
    LoginTimedOut(String),
}

/// The events that may come in a phase.
pub open spec fn may_come(phase: Phase, event: HandshakeEvent) -> bool {
    match phase {
        Phase::Dial | Phase::Direct | Phase::Relay => event is Connected || event is ConnectFailed,
        Phase::SecureReply | Phase::Punch | Phase::RelayRequest | Phase::Keys | Phase::LoginSent => event is Sent
            || event is SendFailed,
        Phase::Secure => event is Rendezvous || event is NoKeys,
        Phase::Route => event is Rendezvous,
        Phase::Vouch | Phase::Identify => event is Identity,
        Phase::SignedId | Phase::Challenge => event is Incoming,
        Phase::Login => (event matches HandshakeEvent::Incoming(incoming) && !(incoming is Malformed)) || event
            is BareLogin || event is LoginTimedOut || event is SendFailed,
        Phase::Done => false,
    }
}

/// A request for a way to a device.
pub struct PunchHoleRequest {
    pub id: String,
    pub licence_key: String,
    pub service: Service,
    pub version: &'static str,
}

/// A request to a relay.
pub struct RelayRequest {
    pub id: String,
    pub uuid: String,
    pub licence_key: String,
    pub service: Service,
}

/// A login request.
pub struct LoginRequest {
    pub username: String,
    /// The answer to the password challenge.
    pub password: Vec<u8>,
    pub my_id: String,
    pub version: &'static str,
    pub my_platform: String,
    pub service: Service,
    /// The name of a new terminal.
    pub service_id: String,
}

/// What a handshake does next.
pub enum Action {
    /// Wait for the rendezvous server to offer keys.
    AwaitKeys,
    /// Send it our keys, and use the symmetric one from then on.
    SendKeyExchange(KeyMessage),
    SendPunchHole(PunchHoleRequest),
    AwaitRoute,
    DialDirect(String),
    DialRelay(RelayServer),
    SendRelayRequest(RelayRequest),
    /// Read the identity in these bytes.
    ReadIdentity(Vec<u8>),
    AwaitSignedId,
    /// Send the device our keys, and use the symmetric one from then on.
    SendPublicKey(KeyMessage),
    AwaitChallenge,
    SendLogin(LoginRequest),
    AwaitLogin,
    /// Send the probe of the delay back, and wait on.
    Echo,
    /// The device has accepted the login.
    Finished(Peer),
}

/// What a handshake does next, as a value. Of keys it tells for whom they are sealed.
pub enum ActionView {
    AwaitKeys,
    SendKeyExchange,
    SendPunchHole { id: Seq<char>, licence_key: Seq<char>, service: Service, version: Seq<char> },
    AwaitRoute,
    DialDirect(Seq<char>),
    DialRelay(Option<Seq<char>>),
    SendRelayRequest { id: Seq<char>, uuid: Seq<char>, licence_key: Seq<char>, service: Service },
    ReadIdentity(Seq<u8>),
    AwaitSignedId,
    SendPublicKey,
    AwaitChallenge,
    SendLogin {
        username: Seq<char>,
        password: Seq<u8>,
        my_id: Seq<char>,
        version: Seq<char>,
        my_platform: Seq<char>,
        service: Service,
    },
    AwaitLogin,
    Echo,
    Finished(Peer),
}

impl View for Action {
    type V = ActionView;

    open spec fn view(&self) -> ActionView {
        match self {
            Action::AwaitKeys => ActionView::AwaitKeys,
            Action::SendKeyExchange(_) => ActionView::SendKeyExchange,
            Action::SendPunchHole(r) => ActionView::SendPunchHole {
                id: r.id@,
                licence_key: r.licence_key@,
                service: r.service,
                version: r.version@,
            },
            Action::AwaitRoute => ActionView::AwaitRoute,
            Action::DialDirect(address) => ActionView::DialDirect(address@),
            Action::DialRelay(relay) => ActionView::DialRelay(relay@),
            Action::SendRelayRequest(r) => ActionView::SendRelayRequest {
                id: r.id@,
                uuid: r.uuid@,
                licence_key: r.licence_key@,
                service: r.service,
            },
            Action::ReadIdentity(bytes) => ActionView::ReadIdentity(bytes@),
            Action::AwaitSignedId => ActionView::AwaitSignedId,
            Action::SendPublicKey(_) => ActionView::SendPublicKey,
            Action::AwaitChallenge => ActionView::AwaitChallenge,
            Action::SendLogin(r) => ActionView::SendLogin {
                username: r.username@,
                password: r.password@,
                my_id: r.my_id@,
                version: r.version@,
                my_platform: r.my_platform@,
                service: r.service,
            },
            Action::AwaitLogin => ActionView::AwaitLogin,
            Action::Echo => ActionView::Echo,
            Action::Finished(peer) => ActionView::Finished(*peer),
        }
    }
}

/// An action, or the words of the error that ends the handshake.
pub open spec fn action_told(r: Result<Action, String>) -> Result<ActionView, Seq<char>> {
    match r {
        Ok(action) => Ok(action@),
        Err(e) => Err(e@),
    }
}

/// The key message is made for the holder of `their_pk`, under a key pair of its own.
pub open spec fn made_for(m: KeyMessage, their_pk: Seq<u8>) -> bool {
    &&& m.asymmetric_value@.len() == KEY_BYTES
    &&& exists|secret: Seq<u8>|
        m.asymmetric_value@ == #[trigger] box_public_key(secret) && seals(
            m.symmetric_value@,
            m.key@,
            their_pk,
            secret,
        )
}

/// The name of a new terminal: a fixed head, and an identifier in its hyphenated form.
pub open spec fn is_service_id(name: Seq<char>) -> bool {
    exists|id: Seq<char>| is_hyphenated_id(id) && name == #[trigger] ("ts_"@ + id)
}

// ---------------------------------------------------------------------------
// What each event means
// ---------------------------------------------------------------------------

/// The request for a way to the device.
pub open spec fn punch(h: HandshakeView) -> (HandshakeView, Result<ActionView, Seq<char>>) {
    (
        HandshakeView { phase: Phase::Punch, ..h },
        Ok(
            ActionView::SendPunchHole {
                id: h.device_id,
                licence_key: h.licence_key,
                service: h.service,
                version: RUSTDESK_PROTOCOL_VERSION@,
            },
        ),
    )
}

/// The key that an offer of the rendezvous server holds: it is the one key of the offer, signed by the
/// server.
pub open spec fn offered_key(h: HandshakeView, incoming: RendezvousIncoming) -> Option<Seq<u8>> {
    match (incoming, h.server_key) {
        (RendezvousIncoming::Reply(RendezvousReply::KeyExchange { keys }), Some(server_key)) => if keys@.len()
            == 1 && signature_holds(keys@[0]@, server_key) && keys@[0]@.skip(64).len() == KEY_BYTES {
            Some(keys@[0]@.skip(64))
        } else {
            None
        },
        _ => None,
    }
}

/// What comes of the wait for keys of the rendezvous server. Without a proper offer the connection stays
/// as it is.
pub open spec fn secure_next(h: HandshakeView, incoming: RendezvousIncoming) -> (
    HandshakeView,
    Result<ActionView, Seq<char>>,
) {
    if incoming is Closed {
        (h, Err("Rendezvous server closed connection"@))
    } else if offered_key(h, incoming) is Some {
        (HandshakeView { phase: Phase::SecureReply, ..h }, Ok(ActionView::SendKeyExchange))
    } else {
        punch(h)
    }
}

/// The way to the device.
pub open spec fn route_next(h: HandshakeView, incoming: RendezvousIncoming) -> (
    HandshakeView,
    Result<ActionView, Seq<char>>,
) {
    match incoming {
        RendezvousIncoming::StreamError(error) => (
            h,
            Err(stream_error_text("wait_rendezvous_response"@, error@)),
        ),
        RendezvousIncoming::Closed => (h, Err(closed_text("wait_rendezvous_response"@))),
        RendezvousIncoming::Malformed(error) => (
            h,
            Err(malformed_text("[wait_rendezvous_response] failed to parse RendezvousMessage"@, error@)),
        ),
        RendezvousIncoming::Reply(reply) => match reply {
            RendezvousReply::PunchHole { address, relay_server, pk, failure, other_failure } => match address {
                Some(address) => (
                    HandshakeView {
                        phase: Phase::Direct,
                        vouch: pk@,
                        relay: relay_named(relay_server@),
                        uuid: Seq::empty(),
                        ..h
                    },
                    Ok(ActionView::DialDirect(address@)),
                ),
                None => (h, Err("Connection refused: "@ + refusal_reason(failure, other_failure@))),
            },
            RendezvousReply::Relay { relay_server, uuid, pk } => (
                HandshakeView {
                    phase: Phase::Relay,
                    vouch: pk@,
                    relay: relay_named(relay_server@),
                    uuid: uuid@,
                    ..h
                },
                Ok(ActionView::DialRelay(relay_named(relay_server@))),
            ),
            RendezvousReply::Empty => (h, Err("Unexpected response: None"@)),
            _ => (h, Err("Unexpected response: Some(\"unknown\")"@)),
        },
    }
}

/// What the rendezvous server vouches for: nothing, or what it signed.
pub open spec fn vouch_next(h: HandshakeView) -> (HandshakeView, Result<ActionView, Seq<char>>) {
    match h.server_key {
        None => (h, Err("Invalid rendezvous server key"@)),
        Some(server_key) => if h.vouch.len() == 0 {
            (HandshakeView { phase: Phase::SignedId, ..h }, Ok(ActionView::AwaitSignedId))
        } else if signature_holds(h.vouch, server_key) {
            (HandshakeView { phase: Phase::Vouch, ..h }, Ok(ActionView::ReadIdentity(h.vouch.skip(64))))
        } else {
            (h, Err("Failed to verify peer key from rendezvous: Signature mismatch"@))
        },
    }
}

/// An identity that was read, as values.
pub open spec fn identity_read(read: Result<Identity, String>) -> Result<(Seq<char>, Seq<u8>), Seq<char>> {
    match read {
        Ok(identity) => checked_identity(identity),
        Err(e) => Err(e@),
    }
}

/// The identity that the rendezvous server vouched for must be the device.
pub open spec fn vouched_next(h: HandshakeView, read: Result<Identity, String>) -> (
    HandshakeView,
    Result<ActionView, Seq<char>>,
) {
    match identity_read(read) {
        Err(error) => (h, Err("Failed to verify peer key from rendezvous: "@ + error)),
        Ok((id, key)) => if id == h.device_id {
            (
                HandshakeView { phase: Phase::SignedId, vouched_id: id, sign_key: Some(key), ..h },
                Ok(ActionView::AwaitSignedId),
            )
        } else {
            (h, Err("Rendezvous vouched for device "@ + id + ", expected "@ + h.device_id))
        },
    }
}

/// How a read from the device fails that is part of the handshake.
pub open spec fn receive_fault(step: Seq<char>, incoming: Incoming) -> Option<Seq<char>> {
    match incoming {
        Incoming::StreamError(error) => Some(stream_error_text(step, error@)),
        Incoming::Closed => Some(closed_text(step)),
        Incoming::Malformed(error) => Some("["@ + step + "] failed to parse Message"@ + ": "@ + error@),
        Incoming::Message(_) => None,
    }
}

/// What the device sends to say who it is must be signed with the key that was vouched for.
pub open spec fn signed_id_next(h: HandshakeView, incoming: Incoming) -> (
    HandshakeView,
    Result<ActionView, Seq<char>>,
) {
    match incoming {
        Incoming::Message(PeerMessage::SignedId(signed)) => match h.sign_key {
            None => (h, Err("No peer public key from rendezvous server"@)),
            Some(key) => if signature_holds(signed@, key) {
                (
                    HandshakeView { phase: Phase::Identify, signed: signed@, ..h },
                    Ok(ActionView::ReadIdentity(signed@.skip(64))),
                )
            } else {
                (h, Err("Signature mismatch"@))
            },
        },
        Incoming::Message(PeerMessage::Empty) => (h, Err("Expected SignedId, got: None"@)),
        Incoming::Message(_) => (h, Err("Expected SignedId, got: Some(\"other\")"@)),
        _ => (h, Err(receive_fault("wait_signed_id"@, incoming)->0)),
    }
}

/// The identity that the device proved must be the device.
pub open spec fn identified_next(h: HandshakeView, read: Result<Identity, String>) -> (
    HandshakeView,
    Result<ActionView, Seq<char>>,
) {
    match identity_read(read) {
        Err(error) => (h, Err(error)),
        Ok((id, _)) => if id == h.device_id {
            (HandshakeView { phase: Phase::Keys, peer_id: id, ..h }, Ok(ActionView::SendPublicKey))
        } else {
            (h, Err("Connected peer identity is "@ + id + ", expected "@ + h.device_id))
        },
    }
}

/// The password challenge is answered in the login request.
pub open spec fn challenge_next(h: HandshakeView, incoming: Incoming) -> (
    HandshakeView,
    Result<ActionView, Seq<char>>,
) {
    match incoming {
        Incoming::Message(PeerMessage::Hash { salt, challenge }) => (
            HandshakeView { phase: Phase::LoginSent, ..h },
            Ok(
                ActionView::SendLogin {
                    username: h.device_id,
                    password: challenge_answer(h.password, salt@, challenge@),
                    my_id: h.my_id,
                    version: RUSTDESK_PROTOCOL_VERSION@,
                    my_platform: h.my_platform,
                    service: h.service,
                },
            ),
        ),
        Incoming::Message(_) => (h, Err("Expected Hash challenge"@)),
        _ => (h, Err(receive_fault("wait_hash"@, incoming)->0)),
    }
}

/// What a login reply settles.
pub open spec fn login_settles(h: HandshakeView, reply: LoginReply) -> (HandshakeView, Result<ActionView, Seq<char>>) {
    match login_outcome(reply) {
        Err(error) => (h, Err(error)),
        Ok(Some(peer)) => (HandshakeView { phase: Phase::Done, ..h }, Ok(ActionView::Finished(peer))),
        Ok(None) => (h, Ok(ActionView::AwaitLogin)),
    }
}

/// The reply to the login request. What comes before it is passed over.
pub open spec fn login_next(h: HandshakeView, event: HandshakeEvent) -> (
    HandshakeView,
    Result<ActionView, Seq<char>>,
) {
    match event {
        HandshakeEvent::LoginTimedOut(error) => (h, Err(malformed_text("[wait_login_response] timeout"@, error@))),
        HandshakeEvent::SendFailed(error) => (h, Err(error@)),
        HandshakeEvent::BareLogin { message_error, reply } => match reply {
            Ok(reply) => login_settles(h, reply),
            Err(error) => (
                h,
                Err(malformed_text("Invalid login response: "@ + message_error@, error@)),
            ),
        },
        HandshakeEvent::Incoming(Incoming::StreamError(error)) => (
            h,
            Err(stream_error_text("wait_login_response"@, error@)),
        ),
        HandshakeEvent::Incoming(Incoming::Closed) => (h, Err(closed_text("wait_login_response"@))),
        HandshakeEvent::Incoming(Incoming::Message(PeerMessage::Login(reply))) => login_settles(h, reply),
        HandshakeEvent::Incoming(Incoming::Message(PeerMessage::TestDelay { from_client })) => if from_client {
            (h, Ok(ActionView::AwaitLogin))
        } else {
            (h, Ok(ActionView::Echo))
        },
        _ => (h, Ok(ActionView::AwaitLogin)),
    }
}

/// What an event that may come means for a handshake. An error leaves the handshake as it was.
pub open spec fn handshake_next(h: HandshakeView, event: HandshakeEvent) -> (
    HandshakeView,
    Result<ActionView, Seq<char>>,
) {
    match h.phase {
        Phase::Dial => match event {
            HandshakeEvent::ConnectFailed { address, error } => (
                h,
                Err(malformed_text("Failed to connect to "@ + h.address, error@)),
            ),
            _ => if h.server_key is Some {
                (HandshakeView { phase: Phase::Secure, ..h }, Ok(ActionView::AwaitKeys))
            } else {
                punch(h)
            },
        },
        Phase::Secure => match event {
            HandshakeEvent::Rendezvous(incoming) => secure_next(h, incoming),
            _ => punch(h),
        },
        Phase::SecureReply => match event {
            HandshakeEvent::SendFailed(error) => (h, Err(error@)),
            _ => punch(h),
        },
        Phase::Punch => match event {
            HandshakeEvent::SendFailed(error) => (h, Err(error@)),
            _ => (HandshakeView { phase: Phase::Route, ..h }, Ok(ActionView::AwaitRoute)),
        },
        Phase::Route => match event {
            HandshakeEvent::Rendezvous(incoming) => route_next(h, incoming),
            _ => arbitrary(),
        },
        Phase::Direct => match event {
            HandshakeEvent::ConnectFailed { .. } => (
                HandshakeView { phase: Phase::Relay, ..h },
                Ok(ActionView::DialRelay(h.relay)),
            ),
            _ => vouch_next(h),
        },
        Phase::Relay => match event {
            HandshakeEvent::ConnectFailed { address, error } => (
                h,
                Err(malformed_text("Failed to connect to relay "@ + address@, error@)),
            ),
            _ => (
                HandshakeView { phase: Phase::RelayRequest, ..h },
                Ok(
                    ActionView::SendRelayRequest {
                        id: h.device_id,
                        uuid: h.uuid,
                        licence_key: h.licence_key,
                        service: h.service,
                    },
                ),
            ),
        },
        Phase::RelayRequest => match event {
            HandshakeEvent::SendFailed(error) => (h, Err(error@)),
            _ => vouch_next(h),
        },
        Phase::Vouch => match event {
            HandshakeEvent::Identity(read) => vouched_next(h, read),
            _ => arbitrary(),
        },
        Phase::SignedId => match event {
            HandshakeEvent::Incoming(incoming) => signed_id_next(h, incoming),
            _ => arbitrary(),
        },
        Phase::Identify => match event {
            HandshakeEvent::Identity(read) => identified_next(h, read),
            _ => arbitrary(),
        },
        Phase::Keys => match event {
            HandshakeEvent::SendFailed(error) => (h, Err(error@)),
            _ => (HandshakeView { phase: Phase::Challenge, ..h }, Ok(ActionView::AwaitChallenge)),
        },
        Phase::Challenge => match event {
            HandshakeEvent::Incoming(incoming) => challenge_next(h, incoming),
            _ => arbitrary(),
        },
        Phase::LoginSent => match event {
            HandshakeEvent::SendFailed(error) => (h, Err(error@)),
            _ => (HandshakeView { phase: Phase::Login, ..h }, Ok(ActionView::AwaitLogin)),
        },
        Phase::Login => login_next(h, event),
        Phase::Done => arbitrary(),
    }
}

// ---------------------------------------------------------------------------
// The handshake
// ---------------------------------------------------------------------------

/// A handshake at its beginning.
pub open spec fn handshake_start(
    device_id: Seq<char>,
    licence_key: Seq<char>,
    default_key: Seq<char>,
    address: Seq<char>,
    password: Seq<char>,
    service: Service,
    process_id: u32,
    platform: Seq<char>,
) -> HandshakeView {
    HandshakeView {
        device_id,
        licence_key,
        server_key: base64_key(
            if licence_key.len() == 0 {
                default_key
            } else {
                licence_key
            },
        ),
        address,
        password,
        service,
        my_id: "RustShell-"@ + decimal(process_id as nat),
        my_platform: platform,
        phase: Phase::Dial,
        vouch: Seq::empty(),
        vouched_id: Seq::empty(),
        sign_key: None,
        relay: None,
        uuid: Seq::empty(),
        signed: Seq::empty(),
        peer_id: Seq::empty(),
    }
}

/// The keys of a key message are made for whom they should be, and a login names a new terminal where it
/// asks for one.
pub open spec fn keys_and_names(h: HandshakeView, event: HandshakeEvent, r: Result<Action, String>) -> bool {
    match r {
        Ok(Action::SendKeyExchange(m)) => event matches HandshakeEvent::Rendezvous(incoming) && offered_key(
            h,
            incoming,
        ) matches Some(key) && made_for(m, key),
        Ok(Action::SendPublicKey(m)) => event matches HandshakeEvent::Identity(Ok(identity)) && made_for(
            m,
            identity.pk@,
        ),
        Ok(Action::SendLogin(request)) => match h.service {
            Service::Terminal => is_service_id(request.service_id@),
            Service::FileTransfer => request.service_id@.len() == 0,
        },
        _ => true,
    }
}

/// An empty text.
fn no_text() -> (text: String)
    ensures
        text@ == Seq::<char>::empty(),
{
    String::new()
}

fn receive_error(step: &str, incoming: &Incoming) -> (r: Option<String>)
    ensures
        crate::text::text_in(r) == receive_fault(step@, *incoming),
{
    match incoming {
        Incoming::StreamError(error) => Some(stream_error(step, error.as_str())),
        Incoming::Closed => Some(closed_by_peer(step)),
        Incoming::Malformed(error) => Some(
            joined3(joined3("[", step, "] failed to parse Message").as_str(), ": ", error.as_str()),
        ),
        Incoming::Message(_) => None,
    }
}

fn read_identity(read: Result<Identity, String>) -> (r: Result<(String, [u8; 32]), String>)
    ensures
        crate::crypto::identity_parts(r) == identity_read(read),
        r matches Ok((_, key)) ==> read matches Ok(identity) && key@ == identity.pk@,
{
    match read {
        Ok(identity) => decode_id_pk(identity),
        Err(e) => Err(e),
    }
}

impl Handshake {
    /// A handshake for a device, at the point where the rendezvous server is dialled. The licence key is also
    /// the server's key; without one the server's key is `default_key`.
    pub fn start(
        device_id: String,
        licence_key: String,
        default_key: &str,
        address: String,
        password: String,
        service: Service,
        process_id: u32,
        platform: String,
    ) -> (h: Handshake)
        ensures
            h@ == handshake_start(
                device_id@,
                licence_key@,
                default_key@,
                address@,
                password@,
                service,
                process_id,
                platform@,
            ),
    {
        let server_key = if licence_key.as_str().is_empty() {
            get_rs_pk(default_key)
        } else {
            get_rs_pk(licence_key.as_str())
        };
        Handshake {
            device_id,
            licence_key,
            server_key,
            address,
            password,
            service,
            my_id: joined("RustShell-", number_text(process_id as u64).as_str()),
            my_platform: platform,
            phase: Phase::Dial,
            vouch: Vec::new(),
            vouched_id: no_text(),
            sign_key: None,
            relay: RelayServer::NextPort,
            uuid: no_text(),
            signed: Vec::new(),
            peer_id: no_text(),
        }
    }

    fn ask_for_route(&mut self) -> (r: Result<Action, String>)
        ensures
            (final(self)@, action_told(r)) == punch(old(self)@),
            r matches Ok(Action::SendPunchHole(request)) && request.id@ == old(self).device_id@
                && request.licence_key@ == old(self).licence_key@ && request.service == old(self).service,
    {
        self.phase = Phase::Punch;
        Ok(
            Action::SendPunchHole(
                PunchHoleRequest {
                    id: self.device_id.as_str().to_owned(),
                    licence_key: self.licence_key.as_str().to_owned(),
                    service: self.service,
                    version: RUSTDESK_PROTOCOL_VERSION,
                },
            ),
        )
    }

    /// The key that an offer of the rendezvous server holds.
    fn offered(&self, incoming: &RendezvousIncoming) -> (key: Option<[u8; 32]>)
        ensures
            key_in(key) == offered_key(self@, *incoming),
    {
        match incoming {
            RendezvousIncoming::Reply(RendezvousReply::KeyExchange { keys }) => match &self.server_key {
                Some(server_key) => {
                    if keys.len() != 1 {
                        return None;
                    }
                    match open_signed(keys[0].as_slice(), server_key) {
                        Ok(pk) => get_pk(pk.as_slice()),
                        Err(_) => None,
                    }
                },
                None => None,
            },
            _ => None,
        }
    }

    /// What comes of the wait for keys of the rendezvous server.
    fn attempt_secure_tcp(&mut self, incoming: RendezvousIncoming) -> (r: Result<Action, String>)
        ensures
            (final(self)@, action_told(r)) == secure_next(old(self)@, incoming),
            r matches Ok(Action::SendKeyExchange(m)) ==> offered_key(old(self)@, incoming) matches Some(key)
                && made_for(m, key),
            r matches Ok(action) ==> action is SendKeyExchange || action is SendPunchHole,
            r matches Ok(Action::SendPunchHole(request)) ==> request.id@ == old(self).device_id@
                && request.licence_key@ == old(self).licence_key@ && request.service == old(self).service,
    {
        if let RendezvousIncoming::Closed = incoming {
            return Err("Rendezvous server closed connection".to_owned());
        }
        match self.offered(&incoming) {
            Some(key) => {
                let m = create_symmetric_key_msg(&key);
                self.phase = Phase::SecureReply;
                Ok(Action::SendKeyExchange(m))
            },
            None => self.ask_for_route(),
        }
    }

    fn take_route(&mut self, incoming: RendezvousIncoming) -> (r: Result<Action, String>)
        ensures
            (final(self)@, action_told(r)) == route_next(old(self)@, incoming),
            r matches Ok(action) ==> action is DialDirect || action is DialRelay,
    {
        match incoming {
            RendezvousIncoming::StreamError(error) => Err(stream_error("wait_rendezvous_response", error.as_str())),
            RendezvousIncoming::Closed => Err(closed_by_peer("wait_rendezvous_response")),
            RendezvousIncoming::Malformed(error) => Err(
                malformed("[wait_rendezvous_response] failed to parse RendezvousMessage", error.as_str()),
            ),
            RendezvousIncoming::Reply(reply) => match reply {
                RendezvousReply::PunchHole { address, relay_server, pk, failure, other_failure } => match address {
                    Some(address) => {
                        self.phase = Phase::Direct;
                        self.vouch = pk;
                        self.relay = relay_for(relay_server);
                        self.uuid = no_text();
                        Ok(Action::DialDirect(address))
                    },
                    None => Err(refusal(failure, other_failure.as_str())),
                },
                RendezvousReply::Relay { relay_server, uuid, pk } => {
                    self.phase = Phase::Relay;
                    self.vouch = pk;
                    self.relay = relay_for(relay_server);
                    self.uuid = uuid;
                    Ok(Action::DialRelay(self.relay_again()))
                },
                RendezvousReply::Empty => Err("Unexpected response: None".to_owned()),
                _ => Err("Unexpected response: Some(\"unknown\")".to_owned()),
            },
        }
    }

    /// The relay once more.
    fn relay_again(&self) -> (relay: RelayServer)
        ensures
            relay@ == self.relay@,
    {
        match &self.relay {
            RelayServer::NextPort => RelayServer::NextPort,
            RelayServer::Named(name) => RelayServer::Named(name.as_str().to_owned()),
        }
    }

    /// Turns to what the rendezvous server vouches for, once the device or the relay is there.
    fn check_vouch(&mut self) -> (r: Result<Action, String>)
        ensures
            (final(self)@, action_told(r)) == vouch_next(old(self)@),
            r matches Ok(action) ==> action is AwaitSignedId || action is ReadIdentity,
    {
        match &self.server_key {
            None => Err("Invalid rendezvous server key".to_owned()),
            Some(server_key) => {
                if self.vouch.len() == 0 {
                    self.phase = Phase::SignedId;
                    return Ok(Action::AwaitSignedId);
                }
                match open_signed(self.vouch.as_slice(), server_key) {
                    Ok(raw) => {
                        self.phase = Phase::Vouch;
                        Ok(Action::ReadIdentity(raw))
                    },
                    Err(_) => Err("Failed to verify peer key from rendezvous: Signature mismatch".to_owned()),
                }
            },
        }
    }

    fn take_vouched(&mut self, read: Result<Identity, String>) -> (r: Result<Action, String>)
        ensures
            (final(self)@, action_told(r)) == vouched_next(old(self)@, read),
            r matches Ok(action) ==> action is AwaitSignedId,
    {
        match read_identity(read) {
            Err(error) => Err(joined("Failed to verify peer key from rendezvous: ", error.as_str())),
            Ok((id, key)) => {
                if text_eq(id.as_str(), self.device_id.as_str()) {
                    self.phase = Phase::SignedId;
                    self.vouched_id = id;
                    self.sign_key = Some(key);
                    Ok(Action::AwaitSignedId)
                } else {
                    Err(
                        joined4(
                            "Rendezvous vouched for device ",
                            id.as_str(),
                            ", expected ",
                            self.device_id.as_str(),
                        ),
                    )
                }
            },
        }
    }

    fn take_signed_id(&mut self, incoming: Incoming) -> (r: Result<Action, String>)
        ensures
            (final(self)@, action_told(r)) == signed_id_next(old(self)@, incoming),
            r matches Ok(action) ==> action is ReadIdentity,
    {
        if let Some(error) = receive_error("wait_signed_id", &incoming) {
            return Err(error);
        }
        match incoming {
            Incoming::Message(PeerMessage::SignedId(signed)) => match &self.sign_key {
                None => Err("No peer public key from rendezvous server".to_owned()),
                Some(key) => match open_signed(signed.as_slice(), key) {
                    Ok(raw) => {
                        self.phase = Phase::Identify;
                        self.signed = signed;
                        Ok(Action::ReadIdentity(raw))
                    },
                    Err(error) => Err(error),
                },
            },
            Incoming::Message(PeerMessage::Empty) => Err("Expected SignedId, got: None".to_owned()),
            _ => Err("Expected SignedId, got: Some(\"other\")".to_owned()),
        }
    }

    fn take_identity(&mut self, read: Result<Identity, String>) -> (r: Result<Action, String>)
        ensures
            (final(self)@, action_told(r)) == identified_next(old(self)@, read),
            r matches Ok(action) ==> action is SendPublicKey,
            r matches Ok(Action::SendPublicKey(m)) ==> read matches Ok(identity) && made_for(m, identity.pk@),
    {
        match read_identity(read) {
            Err(error) => Err(error),
            Ok((id, key)) => {
                if text_eq(id.as_str(), self.device_id.as_str()) {
                    let m = create_symmetric_key_msg(&key);
                    self.phase = Phase::Keys;
                    self.peer_id = id;
                    Ok(Action::SendPublicKey(m))
                } else {
                    Err(
                        joined4(
                            "Connected peer identity is ",
                            id.as_str(),
                            ", expected ",
                            self.device_id.as_str(),
                        ),
                    )
                }
            },
        }
    }

    /// The name of a new terminal, where one is asked for.
    fn service_id(&self) -> (name: String)
        ensures
            self.service is Terminal ==> is_service_id(name@),
            self.service is FileTransfer ==> name@.len() == 0,
    {
        match self.service {
            Service::Terminal => {
                let id = random_hyphenated_id();
                let name = joined("ts_", id.as_str());
                assert(name@ == "ts_"@ + id@);
                name
            },
            Service::FileTransfer => no_text(),
        }
    }

    fn take_challenge(&mut self, incoming: Incoming) -> (r: Result<Action, String>)
        ensures
            (final(self)@, action_told(r)) == challenge_next(old(self)@, incoming),
            r matches Ok(action) ==> action is SendLogin,
            r matches Ok(Action::SendLogin(request)) ==> match old(self)@.service {
                Service::Terminal => is_service_id(request.service_id@),
                Service::FileTransfer => request.service_id@.len() == 0,
            },
            r matches Ok(Action::SendLogin(request)) ==> request.username@ == old(self).device_id@
                && request.service == old(self).service && request.my_id@ == old(self).my_id@
                && request.my_platform@ == old(self).my_platform@,
    {
        if let Some(error) = receive_error("wait_hash", &incoming) {
            return Err(error);
        }
        match incoming {
            Incoming::Message(PeerMessage::Hash { salt, challenge }) => {
                let password = password_response(self.password.as_str(), salt.as_str(), challenge.as_str());
                let service_id = self.service_id();
                self.phase = Phase::LoginSent;
                Ok(
                    Action::SendLogin(
                        LoginRequest {
                            username: self.device_id.as_str().to_owned(),
                            password,
                            my_id: self.my_id.as_str().to_owned(),
                            version: RUSTDESK_PROTOCOL_VERSION,
                            my_platform: self.my_platform.as_str().to_owned(),
                            service: self.service,
                            service_id,
                        },
                    ),
                )
            },
            _ => Err("Expected Hash challenge".to_owned()),
        }
    }

    fn settle_login(&mut self, reply: LoginReply) -> (r: Result<Action, String>)
        ensures
            (final(self)@, action_told(r)) == login_settles(old(self)@, reply),
            r matches Ok(action) ==> action is Finished || action is AwaitLogin,
    {
        match peer_from_login_response(reply) {
            Err(error) => Err(error),
            Ok(Some(peer)) => {
                self.phase = Phase::Done;
                Ok(Action::Finished(peer))
            },
            Ok(None) => Ok(Action::AwaitLogin),
        }
    }

    /// Takes an event while the reply to the login request is awaited.
    fn wait_for_login(&mut self, event: HandshakeEvent) -> (r: Result<Action, String>)
        ensures
            (final(self)@, action_told(r)) == login_next(old(self)@, event),
            r matches Ok(action) ==> action is Finished || action is AwaitLogin || action is Echo,
    {
        match event {
            HandshakeEvent::LoginTimedOut(error) => Err(
                malformed("[wait_login_response] timeout", error.as_str()),
            ),
            HandshakeEvent::SendFailed(error) => Err(error),
            HandshakeEvent::BareLogin { message_error, reply } => match reply {
                Ok(reply) => self.settle_login(reply),
                Err(error) => Err(
                    malformed(joined("Invalid login response: ", message_error.as_str()).as_str(), error.as_str()),
                ),
            },
            HandshakeEvent::Incoming(Incoming::StreamError(error)) => Err(
                stream_error("wait_login_response", error.as_str()),
            ),
            HandshakeEvent::Incoming(Incoming::Closed) => Err(closed_by_peer("wait_login_response")),
            HandshakeEvent::Incoming(Incoming::Message(PeerMessage::Login(reply))) => self.settle_login(reply),
            HandshakeEvent::Incoming(Incoming::Message(PeerMessage::TestDelay { from_client })) => {
                if respond_to_test_delay(from_client) {
                    Ok(Action::Echo)
                } else {
                    Ok(Action::AwaitLogin)
                }
            },
            _ => Ok(Action::AwaitLogin),
        }
    }

    /// Takes an event and gives what to do next.
    pub fn step(&mut self, event: HandshakeEvent) -> (r: Result<Action, String>)
        requires
            may_come(old(self).phase, event),
        ensures
            (final(self)@, action_told(r)) == handshake_next(old(self)@, event),
            keys_and_names(old(self)@, event, r),
            r matches Ok(Action::SendPunchHole(request)) ==> request.id@ == old(self).device_id@
                && request.licence_key@ == old(self).licence_key@ && request.service == old(self).service,
            r matches Ok(Action::SendRelayRequest(request)) ==> request.id@ == old(self).device_id@
                && request.licence_key@ == old(self).licence_key@ && request.service == old(self).service
                && request.uuid@ == old(self).uuid@,
            r matches Ok(Action::SendLogin(request)) ==> request.username@ == old(self).device_id@
                && request.service == old(self).service && request.my_id@ == old(self).my_id@
                && request.my_platform@ == old(self).my_platform@,
    {
        match self.phase {
            Phase::Dial => match event {
                HandshakeEvent::ConnectFailed { address: _, error } => Err(
                    malformed(joined("Failed to connect to ", self.address.as_str()).as_str(), error.as_str()),
                ),
                _ => {
                    if self.server_key.is_some() {
                        self.phase = Phase::Secure;
                        Ok(Action::AwaitKeys)
                    } else {
                        self.ask_for_route()
                    }
                },
            },
            Phase::Secure => match event {
                HandshakeEvent::Rendezvous(incoming) => self.attempt_secure_tcp(incoming),
                _ => self.ask_for_route(),
            },
            Phase::SecureReply => match event {
                HandshakeEvent::SendFailed(error) => Err(error),
                _ => self.ask_for_route(),
            },
            Phase::Punch => match event {
                HandshakeEvent::SendFailed(error) => Err(error),
                _ => {
                    self.phase = Phase::Route;
                    Ok(Action::AwaitRoute)
                },
            },
            Phase::Route => match event {
                HandshakeEvent::Rendezvous(incoming) => self.take_route(incoming),
                _ => Ok(Action::AwaitRoute),
            },
            Phase::Direct => match event {
                HandshakeEvent::ConnectFailed { address: _, error: _ } => {
                    self.phase = Phase::Relay;
                    Ok(Action::DialRelay(self.relay_again()))
                },
                _ => self.check_vouch(),
            },
            Phase::Relay => match event {
                HandshakeEvent::ConnectFailed { address, error } => Err(
                    malformed(joined("Failed to connect to relay ", address.as_str()).as_str(), error.as_str()),
                ),
                _ => {
                    self.phase = Phase::RelayRequest;
                    Ok(
                        Action::SendRelayRequest(
                            RelayRequest {
                                id: self.device_id.as_str().to_owned(),
                                uuid: self.uuid.as_str().to_owned(),
                                licence_key: self.licence_key.as_str().to_owned(),
                                service: self.service,
                            },
                        ),
                    )
                },
            },
            Phase::RelayRequest => match event {
                HandshakeEvent::SendFailed(error) => Err(error),
                _ => self.check_vouch(),
            },
            Phase::Vouch => match event {
                HandshakeEvent::Identity(read) => self.take_vouched(read),
                _ => Ok(Action::AwaitSignedId),
            },
            Phase::SignedId => match event {
                HandshakeEvent::Incoming(incoming) => self.take_signed_id(incoming),
                _ => Ok(Action::AwaitSignedId),
            },
            Phase::Identify => match event {
                HandshakeEvent::Identity(read) => self.take_identity(read),
                _ => Ok(Action::AwaitChallenge),
            },
            Phase::Keys => match event {
                HandshakeEvent::SendFailed(error) => Err(error),
                _ => {
                    self.phase = Phase::Challenge;
                    Ok(Action::AwaitChallenge)
                },
            },
            Phase::Challenge => match event {
                HandshakeEvent::Incoming(incoming) => self.take_challenge(incoming),
                _ => Ok(Action::AwaitChallenge),
            },
            Phase::LoginSent => match event {
                HandshakeEvent::SendFailed(error) => Err(error),
                _ => {
                    self.phase = Phase::Login;
                    Ok(Action::AwaitLogin)
                },
            },
            Phase::Login => self.wait_for_login(event),
            Phase::Done => Ok(Action::AwaitLogin),
        }
    }
}

// ---------------------------------------------------------------------------
// Laws
// ---------------------------------------------------------------------------

/// A handshake after a sequence of events.
pub open spec fn handshake_after(h: HandshakeView, events: Seq<HandshakeEvent>) -> HandshakeView
    decreases events.len(),
{
    if events.len() == 0 {
        h
    } else {
        handshake_next(handshake_after(h, events.drop_last()), events.last()).0
    }
}

/// Every event of a sequence may come when it does.
pub open spec fn all_may_come(h: HandshakeView, events: Seq<HandshakeEvent>) -> bool
    decreases events.len(),
{
    events.len() > 0 ==> {
        &&& all_may_come(h, events.drop_last())
        &&& may_come(handshake_after(h, events.drop_last()).phase, events.last())
    }
}

/// The device's key is known: the rendezvous server, whose key is known, signed that it is the key of the
/// device that was asked for.
pub open spec fn vouched_for(h: HandshakeView) -> bool {
    &&& h.server_key matches Some(server_key) && signature_holds(h.vouch, server_key)
    &&& h.vouched_id == h.device_id
}

/// The device has proved who it is: with the key that was vouched for it signed that it is the device that
/// was asked for.
pub open spec fn proved(h: HandshakeView) -> bool {
    &&& vouched_for(h)
    &&& h.sign_key matches Some(key) && signature_holds(h.signed, key)
    &&& h.peer_id == h.device_id
}

/// The device must have proved who it is by then.
pub open spec fn needs_proof(phase: Phase) -> bool {
    phase is Keys || phase is Challenge || phase is LoginSent || phase is Login || phase is Done
}

/// What holds of every handshake.
pub open spec fn handshake_valid(h: HandshakeView) -> bool {
    &&& h.sign_key is Some ==> vouched_for(h)
    &&& h.phase is Vouch ==> (h.server_key matches Some(server_key) && signature_holds(h.vouch, server_key))
    &&& h.phase is Identify ==> (h.sign_key matches Some(key) && signature_holds(h.signed, key))
    &&& needs_proof(h.phase) ==> proved(h)
    &&& (h.phase is Dial || h.phase is Secure || h.phase is SecureReply || h.phase is Punch || h.phase is Route
        || h.phase is Direct || h.phase is Relay || h.phase is RelayRequest || h.phase is Vouch) ==> h.sign_key
        is None
}

/// Whatever happens, what is known of the device is known from signatures, and who is asked for, with which
/// password and for which service, stays what it was.
pub proof fn law_handshake_stays_valid(h: HandshakeView, events: Seq<HandshakeEvent>)
    requires
        h.phase is Dial,
        h.sign_key is None,
        all_may_come(h, events),
    ensures
        handshake_valid(handshake_after(h, events)),
        handshake_after(h, events).device_id == h.device_id,
        handshake_after(h, events).server_key == h.server_key,
        handshake_after(h, events).password == h.password,
        handshake_after(h, events).service == h.service,
        handshake_after(h, events).licence_key == h.licence_key,
        handshake_after(h, events).address == h.address,
        handshake_after(h, events).my_id == h.my_id,
        handshake_after(h, events).my_platform == h.my_platform,
    decreases events.len(),
{
    if events.len() > 0 {
        law_handshake_stays_valid(h, events.drop_last());
        lemma_step_keeps_valid(handshake_after(h, events.drop_last()), events.last());
    }
}

proof fn lemma_step_keeps_valid(h: HandshakeView, event: HandshakeEvent)
    requires
        handshake_valid(h),
        may_come(h.phase, event),
    ensures
        handshake_valid(handshake_next(h, event).0),
        handshake_next(h, event).0.device_id == h.device_id,
        handshake_next(h, event).0.server_key == h.server_key,
        handshake_next(h, event).0.password == h.password,
        handshake_next(h, event).0.service == h.service,
        handshake_next(h, event).0.licence_key == h.licence_key,
        handshake_next(h, event).0.address == h.address,
        handshake_next(h, event).0.my_id == h.my_id,
        handshake_next(h, event).0.my_platform == h.my_platform,
{
}

/// The answer to the password challenge goes to no one but the device that was asked for: a login request
/// is sent only after the rendezvous server has signed which key the device has and the device has signed
/// with that key who it is.
pub proof fn law_login_only_to_the_device(h: HandshakeView, events: Seq<HandshakeEvent>, event: HandshakeEvent)
    requires
        h.phase is Dial,
        h.sign_key is None,
        all_may_come(h, events),
        may_come(handshake_after(h, events).phase, event),
        handshake_next(handshake_after(h, events), event).1 matches Ok(ActionView::SendLogin { .. }),
    ensures
        proved(handshake_after(h, events)),
        handshake_after(h, events).device_id == h.device_id,
        handshake_next(handshake_after(h, events), event).1 matches Ok(ActionView::SendLogin { username, .. })
            && username == h.device_id,
{
    law_handshake_stays_valid(h, events);
}

/// A handshake finishes only with a device that has proved who it is and has accepted the login.
pub proof fn law_finished_with_the_device(h: HandshakeView, events: Seq<HandshakeEvent>, event: HandshakeEvent)
    requires
        h.phase is Dial,
        h.sign_key is None,
        all_may_come(h, events),
        may_come(handshake_after(h, events).phase, event),
        handshake_next(handshake_after(h, events), event).1 matches Ok(ActionView::Finished(_)),
    ensures
        proved(handshake_after(h, events)),
        handshake_after(h, events).device_id == h.device_id,
{
    law_handshake_stays_valid(h, events);
}

/// The relay is a fallback: where the device itself answers, no relay is asked; where it does not, the
/// relay that the rendezvous server named is.
pub proof fn law_direct_before_relay(h: HandshakeView, address: String, error: String)
    requires
        h.phase is Direct,
    ensures
        !(handshake_next(h, HandshakeEvent::Connected).1 matches Ok(ActionView::DialRelay(_))),
        handshake_next(h, HandshakeEvent::ConnectFailed { address, error }).1 == Ok::<ActionView, Seq<char>>(
            ActionView::DialRelay(h.relay),
        ),
{
}

/// Whatever happens, what is asked for is what the handshake was started for. A request to the rendezvous server or
/// to a relay names the device, the licence key and the service that were given; a login request names the device
/// and the service, this side's name and platform, and answers the challenge that was made with the password that
/// was given. The protocol version is 1.4.9.
pub proof fn law_requests_ask_for_what_was_given(
    device_id: Seq<char>,
    licence_key: Seq<char>,
    default_key: Seq<char>,
    address: Seq<char>,
    password: Seq<char>,
    service: Service,
    process_id: u32,
    platform: Seq<char>,
    events: Seq<HandshakeEvent>,
    event: HandshakeEvent,
)
    requires
        ({
            let h = handshake_start(
                device_id,
                licence_key,
                default_key,
                address,
                password,
                service,
                process_id,
                platform,
            );
            all_may_come(h, events) && may_come(handshake_after(h, events).phase, event)
        }),
    ensures
        ({
            let h = handshake_start(
                device_id,
                licence_key,
                default_key,
                address,
                password,
                service,
                process_id,
                platform,
            );
            match handshake_next(handshake_after(h, events), event).1 {
                Ok(ActionView::SendPunchHole { id, licence_key: key, service: wanted, version }) => {
                    &&& id == device_id
                    &&& key == licence_key
                    &&& wanted == service
                    &&& version == "1.4.9"@
                },
                Ok(ActionView::SendRelayRequest { id, uuid, licence_key: key, service: wanted }) => {
                    &&& id == device_id
                    &&& key == licence_key
                    &&& wanted == service
                },
                Ok(
                    ActionView::SendLogin {
                        username,
                        password: answer,
                        my_id,
                        version,
                        my_platform,
                        service: wanted,
                    },
                ) => {
                    &&& username == device_id
                    &&& wanted == service
                    &&& my_id == "RustShell-"@ + decimal(process_id as nat)
                    &&& my_platform == platform
                    &&& version == "1.4.9"@
                    &&& event matches HandshakeEvent::Incoming(
                        Incoming::Message(PeerMessage::Hash { salt, challenge }),
                    ) && answer == sha256(
                        sha256(encode_utf8(password) + encode_utf8(salt@)) + encode_utf8(challenge@),
                    )
                },
                Ok(ActionView::Finished(peer)) => {
                    ||| event == HandshakeEvent::Incoming(Incoming::Message(PeerMessage::Login(LoginReply::Peer(peer))))
                    ||| event matches HandshakeEvent::BareLogin { message_error, reply } && reply == Ok::<
                        LoginReply,
                        String,
                    >(LoginReply::Peer(peer))
                },
                _ => true,
            }
        }),
{
    let h = handshake_start(device_id, licence_key, default_key, address, password, service, process_id, platform);
    law_handshake_stays_valid(h, events);
}

/// A handshake starts with what it was given and knows nothing else. The key of the rendezvous server is the one
/// that the licence key stands for, or without a licence key the default: 32 bytes in Base64, and none where the
/// text is not that.
pub proof fn law_handshake_starts_with_what_was_given(
    device_id: Seq<char>,
    licence_key: Seq<char>,
    default_key: Seq<char>,
    address: Seq<char>,
    password: Seq<char>,
    service: Service,
    process_id: u32,
    platform: Seq<char>,
)
    ensures
        ({
            let h = handshake_start(
                device_id,
                licence_key,
                default_key,
                address,
                password,
                service,
                process_id,
                platform,
            );
            let text = if licence_key.len() > 0 {
                licence_key
            } else {
                default_key
            };
            &&& h.device_id == device_id && h.licence_key == licence_key && h.address == address && h.password
                == password && h.service == service
            &&& h.phase is Dial
            &&& h.sign_key is None
            &&& match crate::codec::base64_bytes(text) {
                Ok(key) => if key.len() == 32 {
                    h.server_key == Some(key)
                } else {
                    h.server_key is None
                },
                Err(_) => h.server_key is None,
            }
        }),
{
}

/// What the rendezvous server says of the way is what is tried: the address that it names, and where the device
/// does not answer there, or where it assigns a relay, the relay that it names, or the one beside it where it names
/// none, under the name that it gave the connection. What it sent to vouch for the device is kept.
pub proof fn law_the_way_is_the_one_named(
    h: HandshakeView,
    address: String,
    relay_server: String,
    uuid: String,
    pk: Vec<u8>,
    failure: PunchFailure,
    other_failure: String,
    error: String,
)
    requires
        h.phase is Route,
    ensures
        ({
            let named = if relay_server@.len() == 0 {
                None
            } else {
                Some(relay_server@)
            };
            let hole = RendezvousReply::PunchHole {
                address: Some(address),
                relay_server,
                pk,
                failure,
                other_failure,
            };
            let (direct, first) = handshake_next(h, HandshakeEvent::Rendezvous(RendezvousIncoming::Reply(hole)));
            let (relay, second) = handshake_next(direct, HandshakeEvent::ConnectFailed { address, error });
            let assigned = RendezvousReply::Relay { relay_server, uuid, pk };
            let (given, third) = handshake_next(h, HandshakeEvent::Rendezvous(RendezvousIncoming::Reply(assigned)));
            let asked = |s: HandshakeView, name: Seq<char>|
                handshake_next(s, HandshakeEvent::Connected).1 matches Ok(
                    ActionView::SendRelayRequest { id, uuid: told, licence_key, service },
                ) && id == h.device_id && told == name && licence_key == h.licence_key && service == h.service;
            &&& first == Ok::<ActionView, Seq<char>>(ActionView::DialDirect(address@))
            &&& direct.phase is Direct && direct.vouch == pk@
            &&& second == Ok::<ActionView, Seq<char>>(ActionView::DialRelay(named))
            &&& relay.phase is Relay && relay.vouch == pk@
            &&& asked(relay, Seq::empty())
            &&& third == Ok::<ActionView, Seq<char>>(ActionView::DialRelay(named))
            &&& given.phase is Relay && given.vouch == pk@
            &&& asked(given, uuid@)
            &&& handshake_next(
                h,
                HandshakeEvent::Rendezvous(
                    RendezvousIncoming::Reply(
                        RendezvousReply::PunchHole { address: None, relay_server, pk, failure, other_failure },
                    ),
                ),
            ).1 is Err
            &&& handshake_next(h, HandshakeEvent::Rendezvous(RendezvousIncoming::Closed)).1 is Err
        }),
{
}

/// Why the rendezvous server names no way is told in words: a different reason in different ones, and any other in
/// the server's own.
pub proof fn law_refusals_are_told(h: HandshakeView, relay_server: String, pk: Vec<u8>, other_failure: String)
    requires
        h.phase is Route,
    ensures
        ({
            let refused = |failure: PunchFailure|
                handshake_next(
                    h,
                    HandshakeEvent::Rendezvous(
                        RendezvousIncoming::Reply(
                            RendezvousReply::PunchHole { address: None, relay_server, pk, failure, other_failure },
                        ),
                    ),
                ).1;
            let says = |words: Seq<char>| Err::<ActionView, Seq<char>>("Connection refused: "@ + words);
            &&& refused(PunchFailure::IdNotExist) == says("ID does not exist"@)
            &&& refused(PunchFailure::Offline) == says("Remote device is offline"@)
            &&& refused(PunchFailure::LicenseMismatch) == says("Key mismatch"@)
            &&& refused(PunchFailure::LicenseOveruse) == says("Key overuse"@)
            &&& refused(PunchFailure::Other) == says(other_failure@)
        }),
{
}

/// A handshake in which everything goes as it should goes on, step by step, to the login. With the key of the
/// rendezvous server known, its offer of keys is awaited, and answered where it is one key of 32 bytes that the
/// server signed; without one, or without the key, the way to the device is asked for at once.
pub proof fn law_handshake_leads_to_the_way(h: HandshakeView, incoming: RendezvousIncoming)
    ensures
        h.phase is Dial && h.server_key is Some ==> handshake_next(h, HandshakeEvent::Connected).1 == Ok::<
            ActionView,
            Seq<char>,
        >(ActionView::AwaitKeys) && handshake_next(h, HandshakeEvent::Connected).0.phase is Secure,
        h.phase is Dial && h.server_key is None ==> handshake_next(h, HandshakeEvent::Connected).1 matches Ok(
            ActionView::SendPunchHole { .. },
        ),
        h.phase is Secure ==> {
            let signed = incoming matches RendezvousIncoming::Reply(RendezvousReply::KeyExchange { keys })
                && h.server_key matches Some(server_key) && keys@.len() == 1 && signature_holds(
                keys@[0]@,
                server_key,
            ) && keys@[0]@.skip(64).len() == 32;
            let (t, action) = handshake_next(h, HandshakeEvent::Rendezvous(incoming));
            &&& incoming is Closed ==> action is Err
            &&& signed ==> action == Ok::<ActionView, Seq<char>>(ActionView::SendKeyExchange) && t.phase is SecureReply
            &&& !signed && !(incoming is Closed) ==> (action matches Ok(ActionView::SendPunchHole { .. })) && t.phase
                is Punch
        },
        h.phase is Secure ==> handshake_next(h, HandshakeEvent::NoKeys).1 matches Ok(ActionView::SendPunchHole { .. }),
        h.phase is SecureReply ==> handshake_next(h, HandshakeEvent::Sent).1 matches Ok(
            ActionView::SendPunchHole { .. },
        ),
        h.phase is Punch ==> handshake_next(h, HandshakeEvent::Sent).1 == Ok::<ActionView, Seq<char>>(
            ActionView::AwaitRoute,
        ) && handshake_next(h, HandshakeEvent::Sent).0.phase is Route,
{
}

/// Once the device or the relay is there, what the rendezvous server sent to vouch for the device is believed
/// exactly where the server signed it and it names the device that was asked for, with a key of 32 bytes. What the
/// device says of itself is believed exactly where it is signed with that key, and names that device. Then the
/// keys go to it, its challenge is awaited and answered, and its acceptance of the login is the end.
pub proof fn law_handshake_leads_to_the_login(
    h: HandshakeView,
    identity: Identity,
    signed: Vec<u8>,
    salt: String,
    challenge: String,
    peer: Peer,
    words: String,
)
    ensures
        h.phase is Direct || h.phase is RelayRequest ==> {
            let action = handshake_next(
                h,
                if h.phase is Direct {
                    HandshakeEvent::Connected
                } else {
                    HandshakeEvent::Sent
                },
            ).1;
            &&& h.server_key is None ==> action is Err
            &&& h.server_key matches Some(key) ==> if h.vouch.len() == 0 {
                action == Ok::<ActionView, Seq<char>>(ActionView::AwaitSignedId)
            } else if signature_holds(h.vouch, key) {
                action == Ok::<ActionView, Seq<char>>(ActionView::ReadIdentity(h.vouch.skip(64)))
            } else {
                action is Err
            }
        },
        h.phase is Vouch ==> {
            let (t, action) = handshake_next(h, HandshakeEvent::Identity(Ok(identity)));
            if identity.id@ == h.device_id && identity.pk@.len() == 32 {
                action == Ok::<ActionView, Seq<char>>(ActionView::AwaitSignedId) && t.phase is SignedId && t.sign_key
                    == Some(identity.pk@)
            } else {
                action is Err && t == h
            }
        },
        h.phase is SignedId ==> {
            let (t, action) = handshake_next(
                h,
                HandshakeEvent::Incoming(Incoming::Message(PeerMessage::SignedId(signed))),
            );
            if h.sign_key matches Some(key) && signature_holds(signed@, key) {
                action == Ok::<ActionView, Seq<char>>(ActionView::ReadIdentity(signed@.skip(64))) && t.phase is Identify
            } else {
                action is Err && t == h
            }
        },
        h.phase is Identify ==> {
            let (t, action) = handshake_next(h, HandshakeEvent::Identity(Ok(identity)));
            if identity.id@ == h.device_id && identity.pk@.len() == 32 {
                action == Ok::<ActionView, Seq<char>>(ActionView::SendPublicKey) && t.phase is Keys
            } else {
                action is Err && t == h
            }
        },
        h.phase is Keys ==> handshake_next(h, HandshakeEvent::Sent).1 == Ok::<ActionView, Seq<char>>(
            ActionView::AwaitChallenge,
        ) && handshake_next(h, HandshakeEvent::Sent).0.phase is Challenge,
        h.phase is Challenge ==> (handshake_next(
            h,
            HandshakeEvent::Incoming(Incoming::Message(PeerMessage::Hash { salt, challenge })),
        ).1 matches Ok(ActionView::SendLogin { .. })),
        h.phase is Challenge ==> handshake_next(h, HandshakeEvent::Incoming(Incoming::Closed)).1 is Err,
        h.phase is LoginSent ==> handshake_next(h, HandshakeEvent::Sent).1 == Ok::<ActionView, Seq<char>>(
            ActionView::AwaitLogin,
        ) && handshake_next(h, HandshakeEvent::Sent).0.phase is Login,
        h.phase is Login ==> {
            let heard = |reply: LoginReply|
                handshake_next(h, HandshakeEvent::Incoming(Incoming::Message(PeerMessage::Login(reply)))).1;
            let bare = |reply: LoginReply|
                handshake_next(h, HandshakeEvent::BareLogin { message_error: words, reply: Ok(reply) }).1;
            let finished = Ok::<ActionView, Seq<char>>(ActionView::Finished(peer));
            let waits = Ok::<ActionView, Seq<char>>(ActionView::AwaitLogin);
            let refused = Err::<ActionView, Seq<char>>("Login failed: "@ + words@);
            &&& heard(LoginReply::Peer(peer)) == finished && bare(LoginReply::Peer(peer)) == finished
            &&& heard(LoginReply::Nothing) == waits && bare(LoginReply::Nothing) == waits
            &&& words@.len() > 0 ==> heard(LoginReply::Error(words)) == refused && bare(LoginReply::Error(words))
                == refused
            &&& words@.len() == 0 ==> heard(LoginReply::Error(words)) == waits
            &&& handshake_next(h, HandshakeEvent::Incoming(Incoming::Closed)).1 is Err
            &&& handshake_next(h, HandshakeEvent::LoginTimedOut(words)).1 is Err
            &&& handshake_next(
                h,
                HandshakeEvent::Incoming(Incoming::Message(PeerMessage::TestDelay { from_client: false })),
            ).1 == Ok::<ActionView, Seq<char>>(ActionView::Echo)
            &&& handshake_next(h, HandshakeEvent::Incoming(Incoming::Message(PeerMessage::Other))).1 == waits
        },
{
}

/// What cannot be sent or dialled ends the handshake, with the words of the failure; only a device that does not
/// answer is tried again, over the relay.
pub proof fn law_failures_end_the_handshake(h: HandshakeView, address: String, words: String)
    ensures
        h.phase is SecureReply || h.phase is Punch || h.phase is RelayRequest || h.phase is Keys || h.phase is LoginSent
            || h.phase is Login ==> handshake_next(h, HandshakeEvent::SendFailed(words)) == (
            h,
            Err::<ActionView, Seq<char>>(words@),
        ),
        h.phase is Dial ==> handshake_next(h, HandshakeEvent::ConnectFailed { address, error: words }) == (
            h,
            Err::<ActionView, Seq<char>>("Failed to connect to "@ + h.address + ": "@ + words@),
        ),
        h.phase is Relay ==> handshake_next(h, HandshakeEvent::ConnectFailed { address, error: words }) == (
            h,
            Err::<ActionView, Seq<char>>("Failed to connect to relay "@ + address@ + ": "@ + words@),
        ),
        h.phase is Vouch || h.phase is Identify ==> handshake_next(h, HandshakeEvent::Identity(Err(words))).1 is Err,
{
}

/// A login asks for a new terminal by a name that no other has, exactly where it is for a terminal.
pub proof fn law_new_terminals_have_names(h: HandshakeView, event: HandshakeEvent, request: LoginRequest)
    requires
        keys_and_names(h, event, Ok(Action::SendLogin(request))),
    ensures
        h.service is FileTransfer ==> request.service_id@.len() == 0,
        h.service is Terminal ==> request.service_id@.len() == 39 && request.service_id@.take(3) == seq!['t', 's', '_'],
{
    reveal_strlit("ts_");
    if h.service is Terminal {
        let id = choose|id: Seq<char>| is_hyphenated_id(id) && request.service_id@ == #[trigger] ("ts_"@ + id);
        assert(request.service_id@.take(3) =~= seq!['t', 's', '_']);
    }
}

/// The keys that are sent are sealed for whom they should be: for the server whose signed offer came, or for the
/// device whose identity was read.
pub proof fn law_keys_go_to_the_right_one(h: HandshakeView, event: HandshakeEvent, m: KeyMessage)
    ensures
        keys_and_names(h, event, Ok(Action::SendPublicKey(m))) ==> (event matches HandshakeEvent::Identity(
            Ok(identity),
        ) && sealed_for(m, identity.pk@)),
        keys_and_names(h, event, Ok(Action::SendKeyExchange(m))) ==> (event matches HandshakeEvent::Rendezvous(
            RendezvousIncoming::Reply(RendezvousReply::KeyExchange { keys }),
        ) && keys@.len() == 1 && sealed_for(m, keys@[0]@.skip(64))),
{
}

/// The symmetric key of the message is sealed with a secret of its own, whose public part is in the message, for
/// the holder of `their_pk`.
pub open spec fn sealed_for(m: KeyMessage, their_pk: Seq<u8>) -> bool {
    exists|secret: Seq<u8>|
        m.asymmetric_value@ == #[trigger] box_public_key(secret) && m.symmetric_value@.len() == 48 && (
        crate::crypto::box_sealed(m.key@, Seq::new(24, |i: int| 0u8), their_pk, secret) matches Some(sealed)
            ==> m.symmetric_value@ == sealed)
}

/// A handshake is seen as what it holds, and so is what it does next.
pub proof fn law_handshakes_are_seen_as_they_are(h: Handshake, action: Action)
    ensures
        h@.device_id == h.device_id@ && h@.licence_key == h.licence_key@ && h@.password == h.password@ && h@.service
            == h.service && h@.phase == h.phase && h@.address == h.address@ && h@.my_id == h.my_id@ && h@.my_platform
            == h.my_platform@ && h@.uuid == h.uuid@ && h@.vouch == h.vouch@,
        match action {
            Action::SendPunchHole(r) => action@ matches ActionView::SendPunchHole { id, licence_key, service, version }
                && id == r.id@ && licence_key == r.licence_key@ && service == r.service && version == r.version@,
            Action::SendRelayRequest(r) => action@ matches ActionView::SendRelayRequest {
                id,
                uuid,
                licence_key,
                service,
            } && id == r.id@ && uuid == r.uuid@ && licence_key == r.licence_key@ && service == r.service,
            Action::SendLogin(r) => action@ matches ActionView::SendLogin {
                username,
                password,
                my_id,
                version,
                my_platform,
                service,
            } && username == r.username@ && password == r.password@ && my_id == r.my_id@ && version == r.version@
                && my_platform == r.my_platform@ && service == r.service,
            Action::DialDirect(address) => action@ == ActionView::DialDirect(address@),
            Action::DialRelay(RelayServer::Named(name)) => action@ == ActionView::DialRelay(Some(name@)),
            Action::DialRelay(RelayServer::NextPort) => action@ == ActionView::DialRelay(None),
            Action::ReadIdentity(bytes) => action@ == ActionView::ReadIdentity(bytes@),
            Action::Finished(peer) => action@ == ActionView::Finished(peer),
            _ => true,
        },
{
}

/// What the handshake does next is seen as what it is.
pub proof fn law_actions_are_told_as_they_are(action: Action, words: String)
    ensures
        action_told(Ok(action)) == Ok::<ActionView, Seq<char>>(action@),
        action_told(Err(words)) == Err::<ActionView, Seq<char>>(words@),
{
}

/// Whatever ends the handshake is told in words that say where it ended and why, and the handshake stays as it was.
pub proof fn law_handshake_errors_say_what_went_wrong(
    h: HandshakeView,
    words: String,
    why: String,
    identity: Identity,
    signed: Vec<u8>,
    keys: Vec<Vec<u8>>,
    salt: String,
)
    ensures
        ({
            let told = |text: Seq<char>| (h, Err::<ActionView, Seq<char>>(text));
            let server = |incoming: RendezvousIncoming| handshake_next(h, HandshakeEvent::Rendezvous(incoming));
            let reply = |message: RendezvousReply| server(RendezvousIncoming::Reply(message));
            let device = |incoming: Incoming| handshake_next(h, HandshakeEvent::Incoming(incoming));
            let message = |message: PeerMessage| device(Incoming::Message(message));
            let read = |r: Result<Identity, String>| handshake_next(h, HandshakeEvent::Identity(r));
            &&& h.phase is Secure ==> server(RendezvousIncoming::Closed) == told(
                "Rendezvous server closed connection"@,
            )
            &&& h.phase is Route ==> {
                &&& server(RendezvousIncoming::Closed) == told(
                    "["@ + "wait_rendezvous_response"@ + "] connection closed by peer"@,
                )
                &&& server(RendezvousIncoming::StreamError(words)) == told(
                    "["@ + "wait_rendezvous_response"@ + "] stream error: "@ + words@,
                )
                &&& server(RendezvousIncoming::Malformed(words)) == told(
                    "[wait_rendezvous_response] failed to parse RendezvousMessage"@ + ": "@ + words@,
                )
                &&& reply(RendezvousReply::Empty) == told("Unexpected response: None"@)
                &&& reply(RendezvousReply::Other) == told("Unexpected response: Some(\"unknown\")"@)
                &&& reply(RendezvousReply::KeyExchange { keys }) == told("Unexpected response: Some(\"unknown\")"@)
            }
            &&& h.phase is Direct && h.server_key is None ==> handshake_next(h, HandshakeEvent::Connected) == told(
                "Invalid rendezvous server key"@,
            )
            &&& h.phase is Direct && h.vouch.len() > 0 && (h.server_key matches Some(key) && !signature_holds(
                h.vouch,
                key,
            )) ==> handshake_next(h, HandshakeEvent::Connected) == told(
                "Failed to verify peer key from rendezvous: Signature mismatch"@,
            )
            &&& h.phase is Vouch ==> {
                &&& read(Err(words)) == told("Failed to verify peer key from rendezvous: "@ + words@)
                &&& identity.pk@.len() != 32 ==> read(Ok(identity)) == told(
                    "Failed to verify peer key from rendezvous: "@ + "Wrong public key length"@,
                )
                &&& identity.pk@.len() == 32 && identity.id@ != h.device_id ==> read(Ok(identity)) == told(
                    "Rendezvous vouched for device "@ + identity.id@ + ", expected "@ + h.device_id,
                )
            }
            &&& h.phase is SignedId ==> {
                &&& device(Incoming::Closed) == told("["@ + "wait_signed_id"@ + "] connection closed by peer"@)
                &&& device(Incoming::StreamError(words)) == told(
                    "["@ + "wait_signed_id"@ + "] stream error: "@ + words@,
                )
                &&& device(Incoming::Malformed(words)) == told(
                    "["@ + "wait_signed_id"@ + "] failed to parse Message"@ + ": "@ + words@,
                )
                &&& message(PeerMessage::Empty) == told("Expected SignedId, got: None"@)
                &&& message(PeerMessage::Other) == told("Expected SignedId, got: Some(\"other\")"@)
                &&& h.sign_key is None ==> message(PeerMessage::SignedId(signed)) == told(
                    "No peer public key from rendezvous server"@,
                )
                &&& (h.sign_key matches Some(key) && !signature_holds(signed@, key)) ==> message(
                    PeerMessage::SignedId(signed),
                ) == told("Signature mismatch"@)
            }
            &&& h.phase is Identify ==> {
                &&& read(Err(words)) == told(words@)
                &&& identity.pk@.len() != 32 ==> read(Ok(identity)) == told("Wrong public key length"@)
                &&& identity.pk@.len() == 32 && identity.id@ != h.device_id ==> read(Ok(identity)) == told(
                    "Connected peer identity is "@ + identity.id@ + ", expected "@ + h.device_id,
                )
            }
            &&& h.phase is Challenge ==> {
                &&& device(Incoming::Closed) == told("["@ + "wait_hash"@ + "] connection closed by peer"@)
                &&& device(Incoming::StreamError(words)) == told("["@ + "wait_hash"@ + "] stream error: "@ + words@)
                &&& device(Incoming::Malformed(words)) == told(
                    "["@ + "wait_hash"@ + "] failed to parse Message"@ + ": "@ + words@,
                )
                &&& message(PeerMessage::Other) == told("Expected Hash challenge"@)
                &&& message(PeerMessage::Empty) == told("Expected Hash challenge"@)
            }
            &&& h.phase is Login ==> {
                &&& device(Incoming::Closed) == told("["@ + "wait_login_response"@ + "] connection closed by peer"@)
                &&& device(Incoming::StreamError(words)) == told(
                    "["@ + "wait_login_response"@ + "] stream error: "@ + words@,
                )
                &&& handshake_next(h, HandshakeEvent::LoginTimedOut(words)) == told(
                    "[wait_login_response] timeout"@ + ": "@ + words@,
                )
                &&& handshake_next(h, HandshakeEvent::BareLogin { message_error: words, reply: Err(why) }) == told(
                    "Invalid login response: "@ + words@ + ": "@ + why@,
                )
                &&& message(PeerMessage::TestDelay { from_client: true }) == (
                    h,
                    Ok::<ActionView, Seq<char>>(ActionView::AwaitLogin),
                )
            }
        }),
{
}

/// While the device is to say who it is, or to make its challenge, any other message ends the handshake; while its
/// reply to the login is awaited, any other message is passed over.
pub proof fn law_other_messages_during_the_handshake(h: HandshakeView, message: PeerMessage)
    ensures
        ({
            let (t, action) = handshake_next(h, HandshakeEvent::Incoming(Incoming::Message(message)));
            &&& h.phase is SignedId && !(message is SignedId) ==> t == h && action == Err::<ActionView, Seq<char>>(
                if message is Empty {
                    "Expected SignedId, got: None"@
                } else {
                    "Expected SignedId, got: Some(\"other\")"@
                },
            )
            &&& h.phase is Challenge && !(message is Hash) ==> t == h && action == Err::<ActionView, Seq<char>>(
                "Expected Hash challenge"@,
            )
            &&& h.phase is Login && !(message is Login) && message != (PeerMessage::TestDelay { from_client: false })
                ==> t == h && action == Ok::<ActionView, Seq<char>>(ActionView::AwaitLogin)
        }),
{
}

}
