//! The sessions behind the tools: one process per device and channel, started when it is needed, used again
//! while it lives, and given up when it fails or says so.

use std::path::PathBuf;
use vstd::prelude::*;
use vstd::string::*;
use vstd::utf8::*;

use crate::json::{
    flag_at, is_readable, json_line, json_of, json_parsed, law_flat_objects_are_readable, lemma_keys, member,
    nests_within, one_line, parse, reads_back_as, set_flag, set_text, text_at, text_is, with, Json,
};
use crate::message::Peer;
use crate::resume::{requires_reconnect, response_requires_reconnect};
use crate::session::{channel_name, ready_json, SessionChannel};
use crate::text::{decimal, joined, joined3, joined4, number_text, text_eq, told};

verus! {

/// How long a session has to become ready, in seconds.
pub const READY_TIMEOUT_SECONDS: u64 = 45;

/// How a connection is kept, in a word for the reader of a response.
pub const CONNECTION_POLICY: &'static str = "reuse_until_disconnect_or_300s_idle";

// ---------------------------------------------------------------------------
// One slot per device and channel
// ---------------------------------------------------------------------------

/// Whose session it is.
pub struct SessionKey {
    pub channel: SessionChannel,
    pub device_id: String,
}

/// Whose session it is, as a value.
pub open spec fn key_of(key: SessionKey) -> (SessionChannel, Seq<char>) {
    (key.channel, key.device_id@)
}

/// The tools' side of the sessions: the wrapper script that starts them, and a slot for each device and
/// channel that was asked for. What a slot holds is the caller's.
pub struct RustDeskMcp<S> {
    wrapper: PathBuf,
    sessions: Vec<(SessionKey, S)>,
}

/// The slots, in the order in which they were asked for: whose each is, and what it holds.
pub struct Slots<S> {
    pub keys: Seq<(SessionChannel, Seq<char>)>,
    pub contents: Seq<S>,
}

/// Every slot holds something, and no device and channel has two slots.
pub open spec fn slots_valid<S>(slots: Slots<S>) -> bool {
    &&& slots.contents.len() == slots.keys.len()
    &&& forall|i: int, j: int| 0 <= i < j < slots.keys.len() ==> slots.keys[i] != slots.keys[j]
}

/// The slot of a device and channel: its own where it has one, else the next.
pub open spec fn slot_of<S>(slots: Slots<S>, key: (SessionChannel, Seq<char>)) -> int {
    if slots.keys.contains(key) {
        slots.keys.index_of(key)
    } else {
        slots.keys.len() as int
    }
}

/// The slots after one was asked for: as they were where there is one, else with one more, which holds
/// `empty`.
pub open spec fn slots_with<S>(slots: Slots<S>, key: (SessionChannel, Seq<char>), empty: S) -> Slots<S> {
    if slots.keys.contains(key) {
        slots
    } else {
        Slots { keys: slots.keys.push(key), contents: slots.contents.push(empty) }
    }
}

/// The slots after several were asked for, one after the other.
pub open spec fn slots_after<S>(slots: Slots<S>, asked: Seq<((SessionChannel, Seq<char>), S)>) -> Slots<S>
    decreases asked.len(),
{
    if asked.len() == 0 {
        slots
    } else {
        slots_with(slots_after(slots, asked.drop_last()), asked.last().0, asked.last().1)
    }
}

impl<S> RustDeskMcp<S> {
    /// The wrapper script.
    pub closed spec fn script(&self) -> PathBuf {
        self.wrapper
    }

    /// The slots.
    pub closed spec fn slots(&self) -> Slots<S> {
        Slots {
            keys: Seq::new(self.sessions@.len(), |i: int| key_of(self.sessions@[i].0)),
            contents: Seq::new(self.sessions@.len(), |i: int| self.sessions@[i].1),
        }
    }

    /// Every slot holds something, and no device and channel has two slots.
    pub open spec fn well_formed(&self) -> bool {
        slots_valid(self.slots())
    }

    /// A server without sessions.
    pub fn new(wrapper: PathBuf) -> (server: RustDeskMcp<S>)
        ensures
            server.well_formed(),
            server.script() == wrapper,
            server.slots() == (Slots::<S> { keys: Seq::empty(), contents: Seq::empty() }),
    {
        let server = RustDeskMcp { wrapper, sessions: Vec::new() };
        assert(server.slots().keys =~= Seq::<(SessionChannel, Seq<char>)>::empty());
        assert(server.slots().contents =~= Seq::<S>::empty());
        server
    }

    /// The wrapper script.
    pub fn wrapper(&self) -> (wrapper: &PathBuf)
        ensures
            *wrapper == self.script(),
    {
        &self.wrapper
    }

    /// The number of slots.
    pub fn len(&self) -> (n: usize)
        ensures
            n == self.slots().keys.len(),
    {
        self.sessions.len()
    }

    /// What a slot holds.
    pub fn slot(&self, i: usize) -> (content: &S)
        requires
            i < self.slots().contents.len(),
        ensures
            *content == self.slots().contents[i as int],
    {
        &self.sessions[i].1
    }

    /// The slot of a device and channel. One that is asked for the first time is added at the end, and holds
    /// `empty`; no other changes.
    pub fn session_slot(&mut self, channel: SessionChannel, device_id: &str, empty: S) -> (slot: usize)
        requires
            old(self).well_formed(),
            old(self).slots().keys.len() < usize::MAX,
        ensures
            final(self).well_formed(),
            final(self).script() == old(self).script(),
            final(self).slots() == slots_with(old(self).slots(), (channel, device_id@), empty),
            slot == slot_of(old(self).slots(), (channel, device_id@)),
            slot < final(self).slots().keys.len(),
            final(self).slots().keys[slot as int] == (channel, device_id@),
    {
        let ghost before = self.slots();
        let ghost key = (channel, device_id@);
        let mut i: usize = 0;
        while i < self.sessions.len()
            invariant
                i <= self.sessions@.len(),
                self.slots() == before,
                *self == *old(self),
                before.keys.len() == self.sessions@.len(),
                key == (channel, device_id@),
                slots_valid(before),
                forall|j: int| 0 <= j < i ==> #[trigger] before.keys[j] != key,
            decreases self.sessions@.len() - i,
        {
            let entry = &self.sessions[i].0;
            assert(before.keys[i as int] == key_of(self.sessions@[i as int].0));
            if entry.channel == channel && text_eq(entry.device_id.as_str(), device_id) {
                proof {
                    lemma_slot_is(before, key, i as int);
                }
                return i;
            }
            i = i + 1;
        }
        assert(!before.keys.contains(key));
        self.sessions.push((SessionKey { channel, device_id: device_id.to_owned() }, empty));
        assert(self.slots().keys =~= before.keys.push(key));
        assert(self.slots().contents =~= before.contents.push(empty));
        i
    }
}

/// The slot that is a device and channel's is its slot.
proof fn lemma_slot_is<S>(slots: Slots<S>, key: (SessionChannel, Seq<char>), i: int)
    requires
        slots_valid(slots),
        0 <= i < slots.keys.len(),
        slots.keys[i] == key,
    ensures
        slots.keys.contains(key),
        slot_of(slots, key) == i,
{
    let found = slots.keys.index_of(key);
    assert(slots.keys.contains(key));
    assert(0 <= found < slots.keys.len() && slots.keys[found] == key);
    if found < i {
        assert(slots.keys[found] != slots.keys[i]);
    } else if i < found {
        assert(slots.keys[i] != slots.keys[found]);
    }
}

/// No slot is ever replaced, emptied or given to another: whatever is asked for, every slot stays where it
/// was, its owner's, with what it holds. Nor does a device and channel ever have two.
pub proof fn law_slots_are_kept<S>(slots: Slots<S>, asked: Seq<((SessionChannel, Seq<char>), S)>)
    requires
        slots_valid(slots),
    ensures
        slots_valid(slots_after(slots, asked)),
        slots.keys.is_prefix_of(slots_after(slots, asked).keys),
        slots.contents.is_prefix_of(slots_after(slots, asked).contents),
    decreases asked.len(),
{
    if asked.len() > 0 {
        law_slots_are_kept(slots, asked.drop_last());
        let before = slots_after(slots, asked.drop_last());
        let key = asked.last().0;
        if !before.keys.contains(key) {
            assert forall|i: int, j: int|
                0 <= i < j < before.keys.push(key).len() implies before.keys.push(key)[i] != before.keys.push(key)[j] by {
                if j == before.keys.len() {
                    assert(before.keys.contains(before.keys[i]));
                }
            }
        }
    }
}

/// Two calls have the same slot exactly where they are about the same channel of the same device, whatever
/// was asked for in between: a terminal and a file transfer have a session each, and each is found again.
pub proof fn law_slot_is_its_owners<S>(
    slots: Slots<S>,
    one: (SessionChannel, Seq<char>),
    empty: S,
    between: Seq<((SessionChannel, Seq<char>), S)>,
    two: (SessionChannel, Seq<char>),
)
    requires
        slots_valid(slots),
    ensures
        slot_of(slots, one) == slot_of(slots_after(slots_with(slots, one, empty), between), two) <==> one == two,
{
    let first = slot_of(slots, one);
    let with_one = slots_with(slots, one, empty);
    let later = slots_after(with_one, between);
    law_slots_are_kept(slots, seq![(one, empty)]);
    assert(seq![(one, empty)].drop_last() =~= Seq::<((SessionChannel, Seq<char>), S)>::empty());
    assert(slots_after(slots, Seq::<((SessionChannel, Seq<char>), S)>::empty()) == slots);
    assert(slots_after(slots, seq![(one, empty)]) == with_one);
    law_slots_are_kept(with_one, between);
    assert(0 <= first < with_one.keys.len() && with_one.keys[first] == one);
    assert(later.keys[first] == with_one.keys[first]);
    lemma_slot_is(later, one, first);
    if later.keys.contains(two) {
        let second = later.keys.index_of(two);
        assert(later.keys[second] == two);
    }
}

/// A device and channel that is asked for the first time has a slot that was nobody's, and the slot holds what
/// an empty one holds. One that was asked for before has what its slot held, whatever an empty one would hold.
pub proof fn law_new_slot_is_empty<S>(slots: Slots<S>, key: (SessionChannel, Seq<char>), empty: S)
    requires
        slots_valid(slots),
    ensures
        slots_with(slots, key, empty).keys[slot_of(slots, key)] == key,
        !slots.keys.contains(key) ==> slot_of(slots, key) == slots.keys.len() && slots_with(
            slots,
            key,
            empty,
        ).contents[slot_of(slots, key)] == empty,
        slots.keys.contains(key) ==> slots_with(slots, key, empty) == slots,
{
}

// ---------------------------------------------------------------------------
// Before a request
// ---------------------------------------------------------------------------

/// What is in a slot.
pub enum Probe {
    /// Nothing.
    Absent,
    /// A process that runs.
    Running,
    /// A process that has exited.
    Exited,
    /// A process that cannot be looked at.
    Failed(String),
}

/// Whether the session in a slot is used again, or a new one is started.
pub open spec fn admitted(channel: SessionChannel, probe: Probe) -> Result<bool, Seq<char>> {
    match probe {
        Probe::Running => Ok(true),
        Probe::Absent => Ok(false),
        Probe::Exited => Ok(false),
        Probe::Failed(error) => Err(
            "failed to inspect "@ + channel_name(channel) + " session before request: "@ + error@,
        ),
    }
}

/// Whether the session in a slot is used again: one that runs is; else a new one is to be started. One that
/// cannot be looked at is an error. Only a session that is used again stays in the slot.
pub fn admit_session(channel: SessionChannel, probe: &Probe) -> (r: Result<bool, String>)
    ensures
        told(r) == admitted(channel, *probe),
{
    match probe {
        Probe::Running => Ok(true),
        Probe::Absent => Ok(false),
        Probe::Exited => Ok(false),
        Probe::Failed(error) => Err(
            joined4("failed to inspect ", channel.name(), " session before request: ", error.as_str()),
        ),
    }
}

/// What came of the start of a session.
pub enum Start {
    /// The process did not start.
    SpawnFailed(String),
    NoStdin,
    NoStdout,
    /// It said nothing in time.
    TimedOut,
    /// It cannot be heard.
    ReadFailed(String),
    /// It exited without a word.
    Exited,
    /// It said this.
    Line(String),
}

/// A session that says that it is ready, for the right channel and the right device.
pub open spec fn is_ready(json: Json, channel: SessionChannel, device_id: Seq<char>) -> bool {
    &&& text_at(json, "type"@) == Some("ready"@)
    &&& text_at(json, "channel"@) == Some(channel_name(channel))
    &&& text_at(json, "device_id"@) == Some(device_id)
}

/// Why a session did not start.
pub open spec fn start_fault(channel: SessionChannel, device_id: Seq<char>, start: Start) -> Option<Seq<char>> {
    let name = channel_name(channel);
    match start {
        Start::SpawnFailed(error) => Some("failed to start "@ + name + " session: "@ + error@),
        Start::NoStdin => Some(name + " session has no stdin"@),
        Start::NoStdout => Some(name + " session has no stdout"@),
        Start::TimedOut => Some(
            name + " session did not become ready in "@ + decimal(READY_TIMEOUT_SECONDS as nat) + " seconds"@,
        ),
        Start::ReadFailed(error) => Some("failed to read "@ + name + " session readiness: "@ + error@),
        Start::Exited => Some(name + " session exited before becoming ready"@),
        Start::Line(line) => match json_parsed(line@) {
            Err(error) => Some("invalid "@ + name + " session readiness JSON: "@ + error),
            Ok(json) => if is_ready(json, channel, device_id) {
                None
            } else {
                Some(name + " session readiness did not match device "@ + device_id)
            },
        },
    }
}

/// Whether a session says that it is ready, for the right channel and the right device.
pub fn session_is_ready(value: &serde_json::Value, channel: SessionChannel, device_id: &str) -> (r: bool)
    ensures
        r == is_ready(json_of(*value), channel, device_id@),
{
    text_is(value, "type", "ready") && text_is(value, "channel", channel.name()) && text_is(
        value,
        "device_id",
        device_id,
    )
}

/// Checks what came of the start of a session: it must say that it is ready, for the right channel and the
/// right device.
pub fn start_session(channel: SessionChannel, device_id: &str, start: &Start) -> (r: Result<(), String>)
    ensures
        match start_fault(channel, device_id@, *start) {
            Some(text) => told(r) == Err::<(), Seq<char>>(text),
            None => r is Ok,
        },
{
    let name = channel.name();
    match start {
        Start::SpawnFailed(error) => Err(joined4("failed to start ", name, " session: ", error.as_str())),
        Start::NoStdin => Err(joined(name, " session has no stdin")),
        Start::NoStdout => Err(joined(name, " session has no stdout")),
        Start::TimedOut => Err(
            joined4(
                name,
                " session did not become ready in ",
                number_text(READY_TIMEOUT_SECONDS).as_str(),
                " seconds",
            ),
        ),
        Start::ReadFailed(error) => Err(joined4("failed to read ", name, " session readiness: ", error.as_str())),
        Start::Exited => Err(joined(name, " session exited before becoming ready")),
        Start::Line(line) => match parse(line.as_str()) {
            Err(error) => Err(joined4("invalid ", name, " session readiness JSON: ", error.as_str())),
            Ok(value) => {
                if session_is_ready(&value, channel, device_id) {
                    Ok(())
                } else {
                    Err(joined3(name, " session readiness did not match device ", device_id))
                }
            },
        },
    }
}

// ---------------------------------------------------------------------------
// A request and its response
// ---------------------------------------------------------------------------

/// What came of a request.
pub enum Exchange {
    WriteFailed(String),
    FlushFailed(String),
    ReadFailed(String),
    /// The session closed without a response.
    Closed,
    /// No response came within so many seconds.
    TimedOut(u64),
    /// This is the response.
    Line(String),
}

/// What a request came to, and whether the session stays in its slot.
pub struct SessionReply {
    pub result: Result<serde_json::Value, String>,
    pub keep: bool,
}

/// What a request came to, as a value.
pub open spec fn reply_told(reply: SessionReply) -> (Result<Json, Seq<char>>, bool) {
    (
        match reply.result {
            Ok(value) => Ok(json_of(value)),
            Err(e) => Err(e@),
        },
        reply.keep,
    )
}

/// A response with what is known of the session.
pub open spec fn tagged(json: Json, channel: SessionChannel, reused: bool) -> Json {
    with(
        with(
            with(json, "session_reused"@, Json::Bool(reused)),
            "session_channel"@,
            Json::Text(channel_name(channel)),
        ),
        "connection_policy"@,
        Json::Text(CONNECTION_POLICY@),
    )
}

/// Takes a response: it is told whether the session was used again and which channel it has, and the session
/// stays in its slot unless the response says that it is of no more use.
pub fn take_response(value: serde_json::Value, channel: SessionChannel, reused: bool) -> (reply: SessionReply)
    ensures
        reply_told(reply) == (
            Ok::<Json, Seq<char>>(tagged(json_of(value), channel, reused)),
            !requires_reconnect(json_of(value)),
        ),
{
    let keep = !response_requires_reconnect(&value);
    let mut value = value;
    set_flag(&mut value, "session_reused", reused);
    set_text(&mut value, "session_channel", channel.name());
    set_text(&mut value, "connection_policy", CONNECTION_POLICY);
    SessionReply { result: Ok(value), keep }
}

/// What a request came to. A session that failed leaves its slot.
pub open spec fn exchange_outcome(channel: SessionChannel, reused: bool, exchange: Exchange) -> (
    Result<Json, Seq<char>>,
    bool,
) {
    let name = channel_name(channel);
    match exchange {
        Exchange::WriteFailed(error) => (
            Err("failed to write "@ + name + " session request: "@ + error@),
            false,
        ),
        Exchange::FlushFailed(error) => (
            Err("failed to flush "@ + name + " session request: "@ + error@),
            false,
        ),
        Exchange::ReadFailed(error) => (
            Err("failed to read "@ + name + " session response: "@ + error@),
            false,
        ),
        Exchange::Closed => (Err(name + " session closed before returning a response"@), false),
        Exchange::TimedOut(seconds) => (
            Err(name + " session response exceeded "@ + decimal(seconds as nat) + " seconds"@),
            false,
        ),
        Exchange::Line(line) => match json_parsed(line@) {
            Err(error) => (Err("invalid "@ + name + " session response JSON: "@ + error), false),
            Ok(json) => (Ok(tagged(json, channel, reused)), !requires_reconnect(json)),
        },
    }
}

/// Takes what came of a request.
pub fn call_session(channel: SessionChannel, reused: bool, exchange: Exchange) -> (reply: SessionReply)
    ensures
        reply_told(reply) == exchange_outcome(channel, reused, exchange),
{
    let name = channel.name();
    let error = match exchange {
        Exchange::WriteFailed(error) => joined4("failed to write ", name, " session request: ", error.as_str()),
        Exchange::FlushFailed(error) => joined4("failed to flush ", name, " session request: ", error.as_str()),
        Exchange::ReadFailed(error) => joined4("failed to read ", name, " session response: ", error.as_str()),
        Exchange::Closed => joined(name, " session closed before returning a response"),
        Exchange::TimedOut(seconds) => joined4(
            name,
            " session response exceeded ",
            number_text(seconds).as_str(),
            " seconds",
        ),
        Exchange::Line(line) => match parse(line.as_str()) {
            Err(error) => joined4("invalid ", name, " session response JSON: ", error.as_str()),
            Ok(value) => {
                return take_response(value, channel, reused);
            },
        },
    };
    SessionReply { result: Err(error), keep: false }
}

// ---------------------------------------------------------------------------
// One call
// ---------------------------------------------------------------------------

/// How far a call is.
#[derive(Clone, Copy, Debug, PartialEq, Eq, Structural)]
pub enum CallPhase {
    /// What is in the slot is looked at.
    Probing,
    /// A new session is being started.
    Starting,
    /// The request has been sent.
    Asking,
    /// The call is done.
    Done,
}

/// One call of a session.
pub struct SessionUse {
    pub channel: SessionChannel,
    pub device_id: String,
    pub request: serde_json::Value,
    pub phase: CallPhase,
    /// The session was there before.
    pub reused: bool,
}

/// One call of a session, as a value.
pub struct UseView {
    pub channel: SessionChannel,
    pub device_id: Seq<char>,
    pub request: Json,
    pub phase: CallPhase,
    pub reused: bool,
}

impl View for SessionUse {
    type V = UseView;

    open spec fn view(&self) -> UseView {
        UseView {
            channel: self.channel,
            device_id: self.device_id@,
            request: json_of(self.request),
            phase: self.phase,
            reused: self.reused,
        }
    }
}

/// A call at its beginning, as a value.
pub open spec fn use_start(key: (SessionChannel, Seq<char>), request: Json) -> UseView {
    UseView { channel: key.0, device_id: key.1, request, phase: CallPhase::Probing, reused: false }
}

/// What happens to a call.
pub enum UseEvent {
    Probed(Probe),
    Started(Start),
    Exchanged(Exchange),
}

/// The events that may come in a phase.
pub open spec fn use_may_come(phase: CallPhase, event: UseEvent) -> bool {
    match phase {
        CallPhase::Probing => event is Probed,
        CallPhase::Starting => event is Started,
        CallPhase::Asking => event is Exchanged,
        CallPhase::Done => false,
    }
}

/// What a call does next.
pub enum UseAction {
    /// Empty the slot, and start a new session.
    Start,
    /// Put the session into the slot, and send it this line.
    Send(Vec<u8>),
    /// The call is done. The slot is emptied unless the session is kept.
    Finish(SessionReply),
}

/// What a call does next, as a value. Of the line it tells nothing.
pub enum UseActionView {
    Start,
    Send,
    Finish(Result<Json, Seq<char>>, bool),
}

impl View for UseAction {
    type V = UseActionView;

    open spec fn view(&self) -> UseActionView {
        match self {
            UseAction::Start => UseActionView::Start,
            UseAction::Send(_) => UseActionView::Send,
            UseAction::Finish(reply) => UseActionView::Finish(reply_told(*reply).0, reply_told(*reply).1),
        }
    }
}

/// A line that carries a document.
pub open spec fn carries(line: Seq<u8>, json: Json) -> bool {
    &&& line.len() > 0
    &&& line.last() == 10
    &&& one_line(line.drop_last())
    &&& valid_utf8(line.drop_last())
    &&& is_readable(json) ==> reads_back_as(line.drop_last(), json)
}

/// A call after an event, and what it does next.
pub open spec fn use_next(s: UseView, event: UseEvent) -> (UseView, UseActionView) {
    match event {
        UseEvent::Probed(probe) => match admitted(s.channel, probe) {
            Ok(true) => (UseView { phase: CallPhase::Asking, reused: true, ..s }, UseActionView::Send),
            Ok(false) => (UseView { phase: CallPhase::Starting, reused: false, ..s }, UseActionView::Start),
            Err(error) => (UseView { phase: CallPhase::Done, ..s }, UseActionView::Finish(Err(error), false)),
        },
        UseEvent::Started(start) => match start_fault(s.channel, s.device_id, start) {
            None => (UseView { phase: CallPhase::Asking, ..s }, UseActionView::Send),
            Some(error) => (UseView { phase: CallPhase::Done, ..s }, UseActionView::Finish(Err(error), false)),
        },
        UseEvent::Exchanged(exchange) => {
            let (result, keep) = exchange_outcome(s.channel, s.reused, exchange);
            (UseView { phase: CallPhase::Done, ..s }, UseActionView::Finish(result, keep))
        },
    }
}

impl SessionUse {
    /// A call at its beginning.
    pub fn start(channel: SessionChannel, device_id: String, request: serde_json::Value) -> (s: SessionUse)
        ensures
            s@ == use_start((channel, device_id@), json_of(request)),
    {
        SessionUse { channel, device_id, request, phase: CallPhase::Probing, reused: false }
    }

    /// Sends the request.
    fn ask(&mut self) -> (action: UseAction)
        ensures
            final(self)@ == (UseView { phase: CallPhase::Asking, ..old(self)@ }),
            action matches UseAction::Send(line) && carries(line@, old(self)@.request),
    {
        match json_line(&self.request) {
            Ok(line) => {
                self.phase = CallPhase::Asking;
                UseAction::Send(line)
            },
            Err(error) => UseAction::Finish(
                SessionReply {
                    result: Err(joined("failed to encode session request: ", error.as_str())),
                    keep: true,
                },
            ),
        }
    }

    /// Ends the call with an error, and gives the session up.
    fn give_up(&mut self, error: String) -> (action: UseAction)
        ensures
            final(self)@ == (UseView { phase: CallPhase::Done, ..old(self)@ }),
            action@ == UseActionView::Finish(Err(error@), false),
    {
        self.phase = CallPhase::Done;
        UseAction::Finish(SessionReply { result: Err(error), keep: false })
    }

    /// Takes an event and gives what to do next.
    pub fn step(&mut self, event: UseEvent) -> (action: UseAction)
        requires
            use_may_come(old(self).phase, event),
        ensures
            (final(self)@, action@) == use_next(old(self)@, event),
            action matches UseAction::Send(line) ==> carries(line@, old(self)@.request),
    {
        match event {
            UseEvent::Probed(probe) => match admit_session(self.channel, &probe) {
                Ok(reused) => {
                    self.reused = reused;
                    if reused {
                        self.ask()
                    } else {
                        self.phase = CallPhase::Starting;
                        UseAction::Start
                    }
                },
                Err(error) => self.give_up(error),
            },
            UseEvent::Started(start) => match start_session(self.channel, self.device_id.as_str(), &start) {
                Ok(_) => self.ask(),
                Err(error) => self.give_up(error),
            },
            UseEvent::Exchanged(exchange) => {
                self.phase = CallPhase::Done;
                UseAction::Finish(call_session(self.channel, self.reused, exchange))
            },
        }
    }
}

// ---------------------------------------------------------------------------
// What a call does to its slot
// ---------------------------------------------------------------------------

/// What a slot holds after an action: nothing once a session is to be started, the session that was started
/// once it is asked, and nothing at the end unless the session is kept.
pub open spec fn slot_after<P>(slot: Option<P>, started: Option<P>, action: UseActionView) -> Option<P> {
    match action {
        UseActionView::Start => None,
        UseActionView::Send => match started {
            Some(process) => Some(process),
            None => slot,
        },
        UseActionView::Finish(_, keep) => if keep {
            slot
        } else {
            None
        },
    }
}

/// Does to a slot what an action asks for. `started` is the session that was started for the call, if one was.
pub fn settle_slot<P>(slot: &mut Option<P>, started: Option<P>, action: &UseAction)
    ensures
        *final(slot) == slot_after(*old(slot), started, action@),
{
    match action {
        UseAction::Start => {
            *slot = None;
        },
        UseAction::Send(_) => {
            if let Some(process) = started {
                *slot = Some(process);
            }
        },
        UseAction::Finish(reply) => {
            if !reply.keep {
                *slot = None;
            }
        },
    }
}

/// What happens to a call, one event after the other, each with the session that was started, if one was.
pub struct CallTrace<P> {
    pub key: (SessionChannel, Seq<char>),
    pub request: Json,
    pub steps: Seq<(UseEvent, Option<P>)>,
}

/// A call, and what its slot holds, after some of the events.
pub open spec fn use_after<P>(s: UseView, slot: Option<P>, steps: Seq<(UseEvent, Option<P>)>) -> (
    UseView,
    Option<P>,
)
    decreases steps.len(),
{
    if steps.len() == 0 {
        (s, slot)
    } else {
        let (before, held) = use_after(s, slot, steps.drop_last());
        let (after, action) = use_next(before, steps.last().0);
        (after, slot_after(held, steps.last().1, action))
    }
}

/// The events are ones that can happen: each may come in its phase, and nothing is found in a slot exactly
/// where it holds nothing.
pub open spec fn can_happen<P>(s: UseView, slot: Option<P>, steps: Seq<(UseEvent, Option<P>)>) -> bool
    decreases steps.len(),
{
    steps.len() > 0 ==> {
        let (before, held) = use_after(s, slot, steps.drop_last());
        &&& can_happen(s, slot, steps.drop_last())
        &&& use_may_come(before.phase, steps.last().0)
        &&& steps.last().0 matches UseEvent::Probed(probe) ==> (probe is Absent <==> held is None)
    }
}

/// What a call came to, where its last event ends it.
pub open spec fn call_result<P>(slot: Option<P>, call: CallTrace<P>) -> Option<Result<Json, Seq<char>>> {
    if call.steps.len() == 0 {
        None
    } else {
        match use_next(
            use_after(use_start(call.key, call.request), slot, call.steps.drop_last()).0,
            call.steps.last().0,
        ).1 {
            UseActionView::Finish(result, _) => Some(result),
            _ => None,
        }
    }
}

/// What the slots hold: of each device and channel the session, if there is one.
pub open spec fn held<P>(sessions: Map<(SessionChannel, Seq<char>), P>, key: (SessionChannel, Seq<char>)) -> Option<
    P,
> {
    if sessions.dom().contains(key) {
        Some(sessions[key])
    } else {
        None
    }
}

/// What the slots hold after a call: its own holds what the call left there.
pub open spec fn sessions_after<P>(sessions: Map<(SessionChannel, Seq<char>), P>, call: CallTrace<P>) -> Map<
    (SessionChannel, Seq<char>),
    P,
> {
    match use_after(use_start(call.key, call.request), held(sessions, call.key), call.steps).1 {
        Some(process) => sessions.insert(call.key, process),
        None => sessions.remove(call.key),
    }
}

/// What the slots hold after several calls, one after the other.
pub open spec fn sessions_after_all<P>(
    sessions: Map<(SessionChannel, Seq<char>), P>,
    calls: Seq<CallTrace<P>>,
) -> Map<(SessionChannel, Seq<char>), P>
    decreases calls.len(),
{
    if calls.len() == 0 {
        sessions
    } else {
        sessions_after(sessions_after_all(sessions, calls.drop_last()), calls.last())
    }
}

/// The call failed, or its response says that the session is of no more use.
pub open spec fn lost_session(result: Result<Json, Seq<char>>) -> bool {
    match result {
        Ok(json) => requires_reconnect(json),
        Err(_) => true,
    }
}

// ---------------------------------------------------------------------------
// Laws
// ---------------------------------------------------------------------------

/// A response says as much of a reconnect with what is known of the session as without it.
proof fn lemma_tags_keep_the_flag(json: Json, channel: SessionChannel, reused: bool)
    ensures
        requires_reconnect(tagged(json, channel, reused)) == requires_reconnect(json),
{
    reveal_strlit("session_reused");
    reveal_strlit("session_channel");
    reveal_strlit("connection_policy");
    reveal_strlit("reconnect_on_next_call");
    assert("session_reused"@.len() == 14 && "session_channel"@.len() == 15 && "connection_policy"@.len() == 17);
    assert("reconnect_on_next_call"@.len() == 22);
}

/// A call whose slot holds nothing is not one that uses a session again: until it has started one the slot
/// stays empty.
proof fn lemma_empty_slot_is_not_reused<P>(
    key: (SessionChannel, Seq<char>),
    request: Json,
    steps: Seq<(UseEvent, Option<P>)>,
)
    requires
        can_happen(use_start(key, request), None::<P>, steps),
    ensures
        !use_after(use_start(key, request), None::<P>, steps).0.reused,
        use_after(use_start(key, request), None::<P>, steps).0.phase is Probing || use_after(
            use_start(key, request),
            None::<P>,
            steps,
        ).0.phase is Starting ==> use_after(use_start(key, request), None::<P>, steps).1 is None,
    decreases steps.len(),
{
    if steps.len() > 0 {
        lemma_empty_slot_is_not_reused(key, request, steps.drop_last());
    }
}

/// The first thing that happens to a call is that its slot is looked at. Where the slot holds nothing, nothing
/// is found.
proof fn lemma_first_step_probes<P>(
    key: (SessionChannel, Seq<char>),
    request: Json,
    steps: Seq<(UseEvent, Option<P>)>,
)
    requires
        steps.len() > 0,
        can_happen(use_start(key, request), None::<P>, steps),
    ensures
        steps[0].0 == UseEvent::Probed(Probe::Absent),
    decreases steps.len(),
{
    if steps.len() == 1 {
        assert(steps.drop_last() =~= Seq::<(UseEvent, Option<P>)>::empty());
    } else {
        lemma_first_step_probes(key, request, steps.drop_last());
        assert(steps.drop_last()[0] == steps[0]);
    }
}

/// A call that failed, or whose response says that the session is of no more use, leaves its slot empty.
pub proof fn law_lost_sessions_leave_the_slot<P>(slot: Option<P>, call: CallTrace<P>)
    requires
        can_happen(use_start(call.key, call.request), slot, call.steps),
        call_result(slot, call) matches Some(result) && lost_session(result),
    ensures
        use_after(use_start(call.key, call.request), slot, call.steps).1 is None,
{
    let before = use_after(use_start(call.key, call.request), slot, call.steps.drop_last()).0;
    match call.steps.last().0 {
        UseEvent::Exchanged(Exchange::Line(line)) => match json_parsed(line@) {
            Ok(json) => lemma_tags_keep_the_flag(json, before.channel, before.reused),
            Err(_) => {},
        },
        _ => {},
    }
}

/// A call is about its own slot: those of other devices, and of the other channel, hold what they held,
/// whatever the call came to.
pub proof fn law_calls_leave_other_slots<P>(
    sessions: Map<(SessionChannel, Seq<char>), P>,
    calls: Seq<CallTrace<P>>,
    key: (SessionChannel, Seq<char>),
)
    requires
        forall|i: int| 0 <= i < calls.len() ==> (#[trigger] calls[i]).key != key,
    ensures
        held(sessions_after_all(sessions, calls), key) == held(sessions, key),
    decreases calls.len(),
{
    if calls.len() > 0 {
        assert forall|i: int| 0 <= i < calls.drop_last().len() implies (#[trigger] calls.drop_last()[i]).key != key by {
            assert(calls.drop_last()[i] == calls[i]);
        }
        law_calls_leave_other_slots(sessions, calls.drop_last(), key);
        assert(calls.last() == calls[calls.len() - 1]);
    }
}

/// After a call that failed, or whose response said that the session is of no more use, the next call on the
/// same channel of the same device starts a session of its own, and a response to it says that the session was
/// not there before. Calls on other slots in between change nothing about that.
pub proof fn law_next_call_starts_anew<P>(
    sessions: Map<(SessionChannel, Seq<char>), P>,
    first: CallTrace<P>,
    between: Seq<CallTrace<P>>,
    next: CallTrace<P>,
)
    requires
        can_happen(use_start(first.key, first.request), held(sessions, first.key), first.steps),
        call_result(held(sessions, first.key), first) matches Some(result) && lost_session(result),
        forall|i: int| 0 <= i < between.len() ==> (#[trigger] between[i]).key != first.key,
        next.key == first.key,
        ({
            let slot = held(sessions_after_all(sessions_after(sessions, first), between), next.key);
            &&& can_happen(use_start(next.key, next.request), slot, next.steps)
            &&& call_result(slot, next) is Some
        }),
    ensures
        ({
            let slot = held(sessions_after_all(sessions_after(sessions, first), between), next.key);
            &&& slot is None
            &&& use_next(use_start(next.key, next.request), UseEvent::Probed(Probe::Absent)).1 is Start
            &&& next.steps[0].0 == UseEvent::Probed(Probe::Absent)
            &&& call_result(slot, next) matches Some(Ok(json)) ==> (json is Object ==> flag_at(
                json,
                "session_reused"@,
            ) == Some(false))
        }),
{
    let slot = held(sessions_after_all(sessions_after(sessions, first), between), next.key);
    law_lost_sessions_leave_the_slot(held(sessions, first.key), first);
    law_calls_leave_other_slots(sessions_after(sessions, first), between, first.key);
    assert(slot is None);
    lemma_first_step_probes(next.key, next.request, next.steps);
    lemma_empty_slot_is_not_reused(next.key, next.request, next.steps.drop_last());
    let before = use_after(use_start(next.key, next.request), slot, next.steps.drop_last()).0;
    match next.steps.last().0 {
        UseEvent::Exchanged(Exchange::Line(line)) => match json_parsed(line@) {
            Ok(json) => {
                if json is Object {
                    law_results_tell_the_session(json, before.channel, false);
                }
            },
            Err(_) => {},
        },
        _ => {},
    }
}

/// A session that says it is ready is heard to be, for its own channel and device.
pub proof fn law_ready_is_heard(channel: SessionChannel, device_id: Seq<char>, peer: Peer)
    ensures
        is_ready(ready_json(channel, device_id, peer), channel, device_id),
{
    reveal_strlit("type");
    reveal_strlit("channel");
    reveal_strlit("device_id");
    reveal_strlit("protocol");
    reveal_strlit("idle_timeout_seconds");
    assert("type"@.len() == 4 && "channel"@.len() == 7 && "device_id"@.len() == 9);
    assert("protocol"@.len() == 8 && "idle_timeout_seconds"@.len() == 20);
}

/// A session that says it is ready is not taken for one of another channel or another device.
pub proof fn law_ready_is_not_mistaken(
    channel: SessionChannel,
    device_id: Seq<char>,
    peer: Peer,
    other_channel: SessionChannel,
    other_device: Seq<char>,
)
    requires
        is_ready(ready_json(channel, device_id, peer), other_channel, other_device),
    ensures
        channel == other_channel,
        device_id == other_device,
{
    law_ready_is_heard(channel, device_id, peer);
    reveal_strlit("terminal");
    reveal_strlit("file");
    assert("terminal"@.len() == 8 && "file"@.len() == 4);
}

/// A session leaves its slot exactly when it failed or said that it is of no more use; only a response can
/// keep it there.
pub proof fn law_failed_sessions_are_dropped(channel: SessionChannel, reused: bool, exchange: Exchange)
    ensures
        exchange_outcome(channel, reused, exchange).0 is Err ==> !exchange_outcome(channel, reused, exchange).1,
        exchange_outcome(channel, reused, exchange).1 ==> (exchange matches Exchange::Line(line) && json_parsed(
            line@,
        ) matches Ok(json) && !requires_reconnect(json)),
{
}

/// A tool's result tells whether the session was used again and which channel it has, whatever the session
/// said itself.
pub proof fn law_results_tell_the_session(json: Json, channel: SessionChannel, reused: bool)
    requires
        json is Object,
    ensures
        flag_at(tagged(json, channel, reused), "session_reused"@) == Some(reused),
        text_at(tagged(json, channel, reused), "session_channel"@) == Some(channel_name(channel)),
{
    reveal_strlit("session_reused");
    reveal_strlit("session_channel");
    reveal_strlit("connection_policy");
    assert("session_reused"@.len() == 14 && "session_channel"@.len() == 15 && "connection_policy"@.len() == 17);
}

/// A request goes to a session only if the session was running, or has just said that it is ready for the
/// channel and the device of the call; a call starts one session at most and gives the request to it once.
pub proof fn law_requests_go_to_ready_sessions(s: UseView, event: UseEvent)
    requires
        use_may_come(s.phase, event),
    ensures
        use_next(s, event).1 is Send ==> (event matches UseEvent::Probed(Probe::Running)) || (event
            matches UseEvent::Started(Start::Line(line)) && json_parsed(line@) matches Ok(json) && is_ready(
            json,
            s.channel,
            s.device_id,
        )),
        use_next(s, event).1 is Send ==> use_next(s, event).0.phase is Asking,
        use_next(s, event).1 is Start ==> s.phase is Probing && use_next(s, event).0.phase is Starting,
        s.phase is Asking ==> use_next(s, event).1 is Finish,
        use_next(s, event).1 is Finish <==> use_next(s, event).0.phase is Done,
{
}

/// What a session writes to say that it is ready is taken for that by a call for its channel and device.
pub proof fn law_ready_line_is_accepted(
    channel: SessionChannel,
    device_id: Seq<char>,
    peer: Peer,
    bytes: Seq<u8>,
    line: String,
)
    requires
        carries(bytes, ready_json(channel, device_id, peer)),
        line@ == decode_utf8(bytes.drop_last()),
    ensures
        start_fault(channel, device_id, Start::Line(line)) is None,
{
    law_ready_is_heard(channel, device_id, peer);
    law_flat_objects_are_readable(ready_json(channel, device_id, peer));
}

/// A session that runs is used again, and no other: where there is none, or it has exited, a new one is started; one
/// that cannot be looked at is an error in its own words.
pub proof fn law_only_running_sessions_are_used_again(s: UseView, words: String)
    requires
        s.phase is Probing,
    ensures
        ({
            let found = |probe: Probe| use_next(s, UseEvent::Probed(probe));
            &&& found(Probe::Running).1 is Send && found(Probe::Running).0.reused && found(Probe::Running).0.phase
                is Asking
            &&& found(Probe::Absent).1 is Start && !found(Probe::Absent).0.reused && found(Probe::Absent).0.phase
                is Starting
            &&& found(Probe::Exited).1 is Start && !found(Probe::Exited).0.reused && found(Probe::Exited).0.phase
                is Starting
            &&& found(Probe::Failed(words)).1 matches UseActionView::Finish(result, keep) && !keep && (result matches Err(
                text,
            ) && text == "failed to inspect "@ + channel_name(s.channel) + " session before request: "@ + words@)
            &&& found(Probe::Running).0.request == s.request && found(Probe::Absent).0.request == s.request
            &&& found(Probe::Running).0.device_id == s.device_id && found(Probe::Absent).0.device_id == s.device_id
            &&& found(Probe::Running).0.channel == s.channel && found(Probe::Absent).0.channel == s.channel
        }),
{
}

/// A session has started exactly where it says that it is ready, for the channel and the device of the call;
/// anything else that it says or does ends the call with an error and gives the session up.
pub proof fn law_started_sessions_say_so(s: UseView, line: String, words: String)
    requires
        s.phase is Starting,
    ensures
        ({
            let (t, action) = use_next(s, UseEvent::Started(Start::Line(line)));
            let ready = json_parsed(line@) matches Ok(json) && text_at(json, "type"@) == Some("ready"@) && text_at(
                json,
                "device_id"@,
            ) == Some(s.device_id) && text_at(json, "channel"@) == Some(
                if s.channel is Terminal {
                    "terminal"@
                } else {
                    "file"@
                },
            );
            &&& ready ==> action is Send && t.phase is Asking && t.request == s.request && t.reused == s.reused
            &&& !ready ==> (action matches UseActionView::Finish(result, keep) && result is Err && !keep)
        }),
        ({
            let gives_up = |start: Start|
                use_next(s, UseEvent::Started(start)).1 matches UseActionView::Finish(result, keep) && result is Err
                    && !keep;
            &&& gives_up(Start::SpawnFailed(words)) && gives_up(Start::ReadFailed(words))
            &&& gives_up(Start::NoStdin) && gives_up(Start::NoStdout)
            &&& gives_up(Start::TimedOut) && gives_up(Start::Exited)
        }),
{
}

/// The response of a session is what the call gives: every member of it, and beside them whether the session was
/// there before, its channel and how connections are kept. The session is kept exactly where the response does not
/// say that it is of no more use. Without a response there is an error, and the session is given up.
pub proof fn law_responses_are_the_results(
    s: UseView,
    line: String,
    members: Map<Seq<char>, Json>,
    key: Seq<char>,
    words: String,
    seconds: u64,
)
    requires
        s.phase is Asking,
    ensures
        json_parsed(line@) == Ok::<Json, Seq<char>>(Json::Object(members)) ==> (use_next(
            s,
            UseEvent::Exchanged(Exchange::Line(line)),
        ).1 matches UseActionView::Finish(result, keep) && result matches Ok(json) && flag_at(json, "session_reused"@)
            == Some(s.reused) && text_at(json, "session_channel"@) == Some(
            if s.channel is Terminal {
                "terminal"@
            } else {
                "file"@
            },
        ) && text_at(json, "connection_policy"@) == Some("reuse_until_disconnect_or_300s_idle"@) && keep == (flag_at(
            Json::Object(members),
            "reconnect_on_next_call"@,
        ) != Some(true)) && (key != "session_reused"@ && key != "session_channel"@ && key != "connection_policy"@
            ==> member(json, key) == member(Json::Object(members), key))),
        ({
            let gives_up = |exchange: Exchange|
                use_next(s, UseEvent::Exchanged(exchange)).1 matches UseActionView::Finish(result, keep) && result is Err
                    && !keep;
            &&& json_parsed(line@) is Err ==> gives_up(Exchange::Line(line))
            &&& gives_up(Exchange::WriteFailed(words)) && gives_up(Exchange::FlushFailed(words)) && gives_up(
                Exchange::ReadFailed(words),
            )
            &&& gives_up(Exchange::Closed) && gives_up(Exchange::TimedOut(seconds))
        }),
{
    lemma_keys();
}

/// A call carries its request: the line that is sent is one line that reads back as it.
pub proof fn law_sent_lines_carry_the_request(line: Seq<u8>, json: Json)
    requires
        carries(line, json),
        nests_within(json, 127),
    ensures
        line.len() > 0 && line.last() == 10,
        forall|i: int| 0 <= i < line.len() - 1 ==> #[trigger] line[i] != 10,
        json_parsed(decode_utf8(line.drop_last())) == Ok::<Json, Seq<char>>(json),
{
    assert forall|i: int| 0 <= i < line.len() - 1 implies #[trigger] line[i] != 10 by {
        assert(line.drop_last()[i] == line[i]);
    }
}

/// A slot holds what the call left in it: the session that was started once it is asked, the same one while it is
/// used again, and nothing after it was lost.
pub proof fn law_slots_hold_what_is_left<P>(slot: Option<P>, process: P, result: Result<Json, Seq<char>>)
    ensures
        slot_after(slot, None, UseActionView::Start) is None,
        slot_after(slot, Some(process), UseActionView::Send) == Some(process),
        slot_after(slot, None, UseActionView::Send) == slot,
        slot_after(slot, None, UseActionView::Finish(result, true)) == slot,
        slot_after(slot, Some(process), UseActionView::Finish(result, false)) is None,
{
}

/// A call starts with what was asked for, and what it does next is seen as what it is.
pub proof fn law_calls_are_seen_as_they_are(
    call: SessionUse,
    action: UseAction,
    key: (SessionChannel, Seq<char>),
    request: Json,
)
    ensures
        call@.channel == call.channel && call@.device_id == call.device_id@ && call@.request == json_of(call.request)
            && call@.phase == call.phase && call@.reused == call.reused,
        use_start(key, request).channel == key.0 && use_start(key, request).device_id == key.1,
        use_start(key, request).request == request && use_start(key, request).phase is Probing && !use_start(
            key,
            request,
        ).reused,
        match action {
            UseAction::Start => action@ is Start,
            UseAction::Send(_) => action@ is Send,
            UseAction::Finish(reply) => action@ matches UseActionView::Finish(result, keep) && keep == reply.keep && (
            match reply.result {
                Ok(value) => result == Ok::<Json, Seq<char>>(json_of(value)),
                Err(e) => result == Err::<Json, Seq<char>>(e@),
            }),
        },
{
}

/// Sessions and replies are seen as what they are.
pub proof fn law_replies_are_seen_as_they_are(key: SessionKey, value: serde_json::Value, words: String, keep: bool)
    ensures
        key_of(key) == (key.channel, key.device_id@),
        reply_told(SessionReply { result: Ok(value), keep }) == (Ok::<Json, Seq<char>>(json_of(value)), keep),
        reply_told(SessionReply { result: Err(words), keep }) == (Err::<Json, Seq<char>>(words@), keep),
{
}

/// Every failure of a session is told with the name of its channel and, where there are any, the words of the
/// failure.
pub proof fn law_session_failures_say_what_went_wrong(
    channel: SessionChannel,
    device_id: Seq<char>,
    reused: bool,
    words: String,
    line: String,
    seconds: u64,
)
    ensures
        ({
            let name = channel_name(channel);
            let fault = |start: Start| start_fault(channel, device_id, start);
            &&& fault(Start::SpawnFailed(words)) == Some("failed to start "@ + name + " session: "@ + words@)
            &&& fault(Start::NoStdin) == Some(name + " session has no stdin"@)
            &&& fault(Start::NoStdout) == Some(name + " session has no stdout"@)
            &&& fault(Start::TimedOut) == Some(
                name + " session did not become ready in "@ + decimal(45) + " seconds"@,
            )
            &&& fault(Start::ReadFailed(words)) == Some("failed to read "@ + name + " session readiness: "@ + words@)
            &&& fault(Start::Exited) == Some(name + " session exited before becoming ready"@)
            &&& json_parsed(line@) matches Err(why) ==> fault(Start::Line(line)) == Some(
                "invalid "@ + name + " session readiness JSON: "@ + why,
            )
            &&& json_parsed(line@) is Ok && fault(Start::Line(line)) is Some ==> fault(Start::Line(line)) == Some(
                name + " session readiness did not match device "@ + device_id,
            )
        }),
        ({
            let name = channel_name(channel);
            let outcome = |exchange: Exchange| exchange_outcome(channel, reused, exchange);
            let told = |text: Seq<char>| (Err::<Json, Seq<char>>(text), false);
            &&& outcome(Exchange::WriteFailed(words)) == told("failed to write "@ + name + " session request: "@ + words@)
            &&& outcome(Exchange::FlushFailed(words)) == told("failed to flush "@ + name + " session request: "@ + words@)
            &&& outcome(Exchange::ReadFailed(words)) == told("failed to read "@ + name + " session response: "@ + words@)
            &&& outcome(Exchange::Closed) == told(name + " session closed before returning a response"@)
            &&& outcome(Exchange::TimedOut(seconds)) == told(
                name + " session response exceeded "@ + decimal(seconds as nat) + " seconds"@,
            )
            &&& json_parsed(line@) matches Err(why) ==> outcome(Exchange::Line(line)) == told(
                "invalid "@ + name + " session response JSON: "@ + why,
            )
        }),
{
}

}
