//! What arrives from the remote device, as plain values, and the answers that every service gives alike.

use vstd::prelude::*;
use vstd::string::*;

use crate::text::{joined, joined3, joined4, text_eq, text_in, told};

verus! {

/// The remote device, as it introduces itself after a login.
#[derive(Clone)]
pub struct Peer {
    pub hostname: String,
    pub platform: String,
    pub version: String,
}

/// The reply to a login request.
pub enum LoginReply {
    /// The login was refused, in these words.
    Error(String),
    /// The login was accepted.
    Peer(Peer),
    /// Neither.
    Nothing,
}

/// What a digest message says of a file.
#[derive(Clone, Copy)]
pub struct Digest {
    pub id: i32,
    pub file_num: i32,
    pub file_size: u64,
    pub last_modified: u64,
    pub transferred_size: u64,
    pub is_identical: bool,
}

/// One entry of a listing.
#[derive(Clone, Copy)]
pub struct Entry {
    pub is_file: bool,
    pub size: u64,
}

/// A message of a file transfer.
pub enum FileReply {
    Dir { id: i32, entries: Vec<Entry> },
    Digest(Digest),
    Block { id: i32, bytes: u64 },
    Done { id: i32 },
    Error { id: i32, error: String },
    Other,
}

/// A message of a terminal. The data come as they were before any compression.
pub enum TerminalReply {
    Opened { success: bool, message: String },
    Data(Vec<u8>),
    Closed { exit_code: i32 },
    Error(String),
    Other,
}

/// A message from the remote device.
pub enum PeerMessage {
    Terminal(TerminalReply),
    /// A probe of the connection's delay, and whether it is an answer to one of ours.
    TestDelay { from_client: bool },
    Login(LoginReply),
    MessageBox { kind: String, text: String },
    /// A confirmation of a file, and the offset from which the sender goes on, where it names one.
    SendConfirm { id: i32, offset: Option<u32> },
    File(FileReply),
    /// The signed identity of the device.
    SignedId(Vec<u8>),
    /// A password challenge.
    Hash { salt: String, challenge: String },
    /// Any other message.
    Other,
    /// A message without content.
    Empty,
}

/// What a read from the connection gives.
pub enum Incoming {
    Message(PeerMessage),
    /// Bytes that are no message, and the words of the parser's error.
    Malformed(String),
    StreamError(String),
    Closed,
}

/// How the end of a connection is reported, where it ends in `step`.
pub open spec fn stream_error_text(step: Seq<char>, error: Seq<char>) -> Seq<char> {
    "["@ + step + "] stream error: "@ + error
}

/// How a close by the peer is reported, where it comes in `step`.
pub open spec fn closed_text(step: Seq<char>) -> Seq<char> {
    "["@ + step + "] connection closed by peer"@
}

/// How a message that cannot be read is reported.
pub open spec fn malformed_text(what: Seq<char>, error: Seq<char>) -> Seq<char> {
    what + ": "@ + error
}

/// How the end of a connection is reported, where it ends in `step`.
pub fn stream_error(step: &str, error: &str) -> (text: String)
    ensures
        text@ == stream_error_text(step@, error@),
{
    joined4("[", step, "] stream error: ", error)
}

/// How a close by the peer is reported, where it comes in `step`.
pub fn closed_by_peer(step: &str) -> (text: String)
    ensures
        text@ == closed_text(step@),
{
    joined3("[", step, "] connection closed by peer")
}

/// How a message that cannot be read is reported.
pub fn malformed(what: &str, error: &str) -> (text: String)
    ensures
        text@ == malformed_text(what@, error@),
{
    joined3(what, ": ", error)
}

/// What a login reply settles: the device behind an accepted login, an error for a refusal in words, and
/// nothing else.
pub open spec fn login_outcome(reply: LoginReply) -> Result<Option<Peer>, Seq<char>> {
    match reply {
        LoginReply::Error(error) => if error@.len() > 0 {
            Err("Login failed: "@ + error@)
        } else {
            Ok(None)
        },
        LoginReply::Peer(peer) => Ok(Some(peer)),
        LoginReply::Nothing => Ok(None),
    }
}

/// The device behind an accepted login. A refusal without words settles nothing.
pub fn peer_from_login_response(reply: LoginReply) -> (r: Result<Option<Peer>, String>)
    ensures
        told(r) == login_outcome(reply),
{
    match reply {
        LoginReply::Error(error) => {
            if error.as_str().is_empty() {
                Ok(None)
            } else {
                Err(joined("Login failed: ", error.as_str()))
            }
        },
        LoginReply::Peer(peer) => Ok(Some(peer)),
        LoginReply::Nothing => Ok(None),
    }
}

/// The words of a refused login.
pub open spec fn login_refusal(reply: LoginReply) -> Option<Seq<char>> {
    match reply {
        LoginReply::Error(error) => if error@.len() > 0 {
            Some("Login failed: "@ + error@)
        } else {
            None
        },
        _ => None,
    }
}

/// The words of a refused login, for services that hear of one while they run.
pub fn refused_login(reply: &LoginReply) -> (r: Option<String>)
    ensures
        text_in(r) == login_refusal(*reply),
{
    match reply {
        LoginReply::Error(error) => {
            if error.as_str().is_empty() {
                None
            } else {
                Some(joined("Login failed: ", error.as_str()))
            }
        },
        _ => None,
    }
}

/// A probe of the delay is sent back as it came, unless it is the answer to one of ours.
pub fn respond_to_test_delay(from_client: bool) -> (echo: bool)
    ensures
        echo == !from_client,
{
    !from_client
}

/// A message box that reports an error.
pub open spec fn is_error_box(kind: Seq<char>) -> bool {
    kind == "error"@
}

/// Whether a message box reports an error.
pub fn error_box(kind: &str) -> (r: bool)
    ensures
        r == is_error_box(kind@),
{
    text_eq(kind, "error")
}

// ---------------------------------------------------------------------------
// Laws
// ---------------------------------------------------------------------------

/// A login is accepted exactly where the device introduces itself, and it is that device; it is refused exactly
/// where the device says why, and told in its words; anything else settles nothing. While a service runs, only a
/// refusal matters.
pub proof fn law_logins_are_settled_by_the_device(reply: LoginReply)
    ensures
        match reply {
            LoginReply::Peer(peer) => login_outcome(reply) == Ok::<Option<Peer>, Seq<char>>(Some(peer)),
            LoginReply::Error(words) => if words@.len() > 0 {
                login_outcome(reply) == Err::<Option<Peer>, Seq<char>>("Login failed: "@ + words@)
            } else {
                login_outcome(reply) == Ok::<Option<Peer>, Seq<char>>(None)
            },
            LoginReply::Nothing => login_outcome(reply) == Ok::<Option<Peer>, Seq<char>>(None),
        },
        login_refusal(reply) is Some <==> login_outcome(reply) is Err,
        login_refusal(reply) matches Some(words) ==> login_outcome(reply) == Err::<Option<Peer>, Seq<char>>(words),
{
}

/// A report of a failure names the step and ends in the words of the failure.
pub proof fn law_reports_keep_the_words(step: Seq<char>, words: Seq<char>)
    ensures
        stream_error_text(step, words) == "["@ + step + "] stream error: "@ + words,
        closed_text(step) == "["@ + step + "] connection closed by peer"@,
        malformed_text(step, words) == step + ": "@ + words,
        is_error_box(words) <==> words == "error"@,
{
}

}
