//! File transfers that reconnect: when a transfer that was cut off goes on over a new connection, and when
//! that ends.

use vstd::prelude::*;
use vstd::string::*;

use crate::json::{
    count_at, count_field, flag_at, flag_field, flag_is_set, json_of, lemma_keys, member, set_count, set_flag, text_at,
    text_field, text_is, with, Json,
};
use crate::mcp::{file_request, parse_told};
use crate::message::Peer;
use crate::session::{completed_json, failed_json, interrupted_json, timed_out_json, TransferRequest};
use crate::text::{joined, text_in};
use crate::transfer::{Fault, FileTransferStats};

verus! {

/// The most connections that one transfer takes after the first.
pub const MAX_FILE_RESUME_RECONNECTS: u64 = 32;

/// The most connections in a row that bring a transfer no further.
pub const MAX_SAME_HIGH_WATER_RECONNECTS: u64 = 2;

// ---------------------------------------------------------------------------
// What a response says
// ---------------------------------------------------------------------------

/// The connection was lost, and the transfer can be resumed from a partial file that was kept.
pub open spec fn can_resume(json: Json) -> bool {
    &&& text_at(json, "stage"@) == Some("session_disconnected"@)
    &&& flag_at(json, "resume_supported"@) == Some(true)
    &&& flag_at(json, "partial_preserved"@) == Some(true)
}

/// Whether a response says that the connection was lost and the transfer can be resumed.
pub fn file_response_can_resume(value: &serde_json::Value) -> (r: bool)
    ensures
        r == can_resume(json_of(*value)),
{
    text_is(value, "stage", "session_disconnected") && flag_is_set(value, "resume_supported") && flag_is_set(
        value,
        "partial_preserved",
    )
}

/// The response says that the session is of no more use.
pub open spec fn requires_reconnect(json: Json) -> bool {
    flag_at(json, "reconnect_on_next_call"@) == Some(true)
}

/// Whether a response says that the session is of no more use.
pub fn response_requires_reconnect(value: &serde_json::Value) -> (r: bool)
    ensures
        r == requires_reconnect(json_of(*value)),
{
    flag_is_set(value, "reconnect_on_next_call")
}

/// Bytes went over the connection.
pub open spec fn moved_bytes(json: Json) -> bool {
    count_at(json, "attempt_bytes"@) matches Some(n) && n > 0
}

fn attempt_moved(value: &serde_json::Value) -> (r: bool)
    ensures
        r == moved_bytes(json_of(*value)),
{
    match count_field(value, "attempt_bytes") {
        Some(n) => n > 0,
        None => false,
    }
}

/// The transfer came further than `last_progress`, or bytes went over the connection.
pub open spec fn made_progress(json: Json, last_progress: u64) -> bool {
    ||| count_at(json, "progress_bytes"@) matches Some(n) && n > last_progress
    ||| moved_bytes(json)
}

/// Whether a response shows progress.
pub fn file_response_made_progress(value: &serde_json::Value, last_progress: u64) -> (r: bool)
    ensures
        r == made_progress(json_of(*value), last_progress),
{
    let further = match count_field(value, "progress_bytes") {
        Some(n) => n > last_progress,
        None => false,
    };
    further || attempt_moved(value)
}

/// Bytes went over the connection, but only such as had been there before: the transfer had gone beyond the
/// largest offset that the protocol can name, and came no further.
pub open spec fn only_replayed_tail(json: Json, last_progress: u64) -> bool {
    &&& last_progress > u32::MAX
    &&& count_at(json, "progress_bytes"@) matches Some(n) && n <= last_progress
    &&& moved_bytes(json)
}

/// Whether a response shows that only the tail beyond the largest offset was sent again.
pub fn file_response_only_replayed_u32_tail(value: &serde_json::Value, last_progress: u64) -> (r: bool)
    ensures
        r == only_replayed_tail(json_of(*value), last_progress),
{
    let no_further = match count_field(value, "progress_bytes") {
        Some(n) => n <= last_progress,
        None => false,
    };
    last_progress > u32::MAX as u64 && no_further && attempt_moved(value)
}

// ---------------------------------------------------------------------------
// The partial file of a download
// ---------------------------------------------------------------------------

/// Where the partial file of a request lies, if it is a download.
pub open spec fn partial_path_of(request: Json) -> Option<Seq<char>> {
    if text_at(request, "operation"@) == Some("pull"@) {
        match text_at(request, "local_path"@) {
            Some(path) => Some(path + ".download"@),
            None => None,
        }
    } else {
        None
    }
}

/// Where the partial file of a request lies, if it is a download: beside the destination.
pub fn partial_path(request: &serde_json::Value) -> (path: Option<String>)
    ensures
        text_in(path) == partial_path_of(json_of(*request)),
{
    if !text_is(request, "operation", "pull") {
        return None;
    }
    match text_field(request, "local_path") {
        Some(path) => Some(joined(path.as_str(), ".download")),
        None => None,
    }
}

/// The partial file of a download lies beside its destination; an upload has none.
pub proof fn law_partial_lies_beside(local_path: Seq<char>, remote_path: Seq<char>)
    ensures
        partial_path_of(file_request("pull"@, local_path, remote_path)) == Some(local_path + ".download"@),
        partial_path_of(file_request("push"@, local_path, remote_path)) is None,
{
    reveal_strlit("operation");
    reveal_strlit("local_path");
    reveal_strlit("remote_path");
    assert("operation"@.len() == 9 && "local_path"@.len() == 10 && "remote_path"@.len() == 11);
    reveal_strlit("push");
    reveal_strlit("pull");
    assert("push"@[2] != "pull"@[2]);
}

/// How far a request has come: the size of its partial file, or zero.
pub open spec fn request_progress(request: Json, partial_len: Option<u64>) -> u64 {
    match (partial_path_of(request), partial_len) {
        (Some(_), Some(len)) => len,
        _ => 0,
    }
}

/// How far a request has come. `partial_len` is the size of the file at the partial path, if there is one.
pub fn file_request_progress(request: &serde_json::Value, partial_len: Option<u64>) -> (progress: u64)
    ensures
        progress == request_progress(json_of(*request), partial_len),
{
    match partial_path(request) {
        Some(_) => match partial_len {
            Some(len) => len,
            None => 0,
        },
        None => 0,
    }
}

// ---------------------------------------------------------------------------
// Reconnecting
// ---------------------------------------------------------------------------

/// A transfer that may take several connections.
#[derive(Clone, Copy, Debug, PartialEq, Eq, Structural)]
pub struct FileCall {
    /// The connections after the first.
    pub reconnects: u64,
    /// The connections in a row that brought the transfer no further.
    pub same_high_water: u64,
    /// Whether the first connection was there before, once that is known.
    pub initial_reused: Option<bool>,
    /// How far the transfer has come.
    pub last_progress: u64,
}

/// What a transfer does after a response.
pub enum FileCallStep {
    /// Try again over a new connection.
    Again,
    /// The response is the result.
    Finish(serde_json::Value),
    /// There was no response: the error is the result.
    Fail(String),
}

/// What a transfer does after a response, as a value.
pub enum FileCallStepView {
    Again,
    Finish(Json),
    Fail(Seq<char>),
}

impl View for FileCallStep {
    type V = FileCallStepView;

    open spec fn view(&self) -> FileCallStepView {
        match self {
            FileCallStep::Again => FileCallStepView::Again,
            FileCallStep::Finish(value) => FileCallStepView::Finish(json_of(*value)),
            FileCallStep::Fail(error) => FileCallStepView::Fail(error@),
        }
    }
}

/// What holds of a transfer between connections.
pub open spec fn call_valid(s: FileCall) -> bool {
    &&& s.reconnects <= MAX_FILE_RESUME_RECONNECTS
    &&& s.same_high_water < MAX_SAME_HIGH_WATER_RECONNECTS
}

/// The transfer at its beginning.
pub open spec fn call_start(progress: u64) -> FileCall {
    FileCall { reconnects: 0, same_high_water: 0, initial_reused: None, last_progress: progress }
}

/// How far a response says that the transfer has come. `fallback` is what the partial file says.
pub open spec fn response_progress(json: Json, fallback: u64) -> int {
    match count_at(json, "progress_bytes"@) {
        Some(n) => n,
        None => fallback as int,
    }
}

/// The connections in a row that brought the transfer no further, after a response.
pub open spec fn same_high_water_after(s: FileCall, json: Json, fallback: u64) -> int {
    if can_resume(json) && only_replayed_tail(json, s.last_progress) {
        s.same_high_water + 1
    } else if response_progress(json, fallback) > s.last_progress {
        0
    } else {
        s.same_high_water as int
    }
}

/// Whether the first connection was there before, after a response.
pub open spec fn initial_reused_after(s: FileCall, json: Json) -> Option<bool> {
    match s.initial_reused {
        Some(reused) => Some(reused),
        None => flag_at(json, "session_reused"@),
    }
}

/// The transfer goes on over a new connection: the connection was lost, the transfer can be resumed, this
/// connection moved it, and neither limit is reached.
pub open spec fn goes_on(s: FileCall, json: Json, fallback: u64) -> bool {
    &&& can_resume(json)
    &&& made_progress(json, s.last_progress)
    &&& same_high_water_after(s, json, fallback) < MAX_SAME_HIGH_WATER_RECONNECTS
    &&& s.reconnects < MAX_FILE_RESUME_RECONNECTS
}

/// The result of a transfer: the response, with what the reconnecting came to.
pub open spec fn final_response(s: FileCall, json: Json, fallback: u64) -> Json {
    let same = same_high_water_after(s, json, fallback);
    let stuck = same >= MAX_SAME_HIGH_WATER_RECONNECTS;
    let moved = made_progress(json, s.last_progress);
    let counts = with(
        with(
            with(
                with(json, "resume_reconnects"@, Json::Number(Some(s.reconnects as int))),
                "automatic_resume_limit"@,
                Json::Number(Some(MAX_FILE_RESUME_RECONNECTS as int)),
            ),
            "same_high_water_reconnects"@,
            Json::Number(Some(same)),
        ),
        "same_high_water_limit"@,
        Json::Number(Some(MAX_SAME_HIGH_WATER_RECONNECTS as int)),
    );
    with(
        with(
            with(
                with(
                    with(counts, "chunk_fallback_required"@, Json::Bool(stuck)),
                    "initial_session_reused"@,
                    Json::Bool(initial_reused_after(s, json) == Some(true)),
                ),
                "replayed"@,
                Json::Bool(false),
            ),
            "resume_stalled"@,
            Json::Bool(can_resume(json) && (!moved || stuck)),
        ),
        "resume_exhausted"@,
        Json::Bool(can_resume(json) && moved && s.reconnects == MAX_FILE_RESUME_RECONNECTS),
    )
}

/// A transfer after what a connection gave, a response or an error, and what it does next.
pub open spec fn call_next(s: FileCall, reply: Result<Json, Seq<char>>, fallback: u64) -> (
    FileCall,
    FileCallStepView,
) {
    match reply {
        Err(error) => (s, FileCallStepView::Fail(error)),
        Ok(json) => if goes_on(s, json, fallback) {
            (
                FileCall {
                    reconnects: (s.reconnects + 1) as u64,
                    same_high_water: same_high_water_after(s, json, fallback) as u64,
                    initial_reused: initial_reused_after(s, json),
                    last_progress: if response_progress(json, fallback) > s.last_progress {
                        response_progress(json, fallback) as u64
                    } else {
                        s.last_progress
                    },
                },
                FileCallStepView::Again,
            )
        } else {
            (s, FileCallStepView::Finish(final_response(s, json, fallback)))
        },
    }
}

impl FileCall {
    /// A transfer that has come as far as `progress`.
    pub fn start(progress: u64) -> (s: FileCall)
        ensures
            s == call_start(progress),
            call_valid(s),
    {
        FileCall { reconnects: 0, same_high_water: 0, initial_reused: None, last_progress: progress }
    }

    /// Takes what a connection gave: a response, or the error that there was in its place. `fallback` is what
    /// the partial file says of the progress.
    pub fn call_file_session(&mut self, reply: Result<serde_json::Value, String>, fallback: u64) -> (step:
        FileCallStep)
        requires
            call_valid(*old(self)),
        ensures
            (*final(self), step@) == call_next(*old(self), parse_told(reply), fallback),
            call_valid(*final(self)),
            reply matches Ok(value) ==> {
                let json = json_of(value);
                let last = old(self).last_progress;
                let lost = text_at(json, "stage"@) == Some("session_disconnected"@) && flag_at(
                    json,
                    "resume_supported"@,
                ) == Some(true) && flag_at(json, "partial_preserved"@) == Some(true);
                let sent = count_at(json, "attempt_bytes"@) matches Some(n) && n > 0;
                let further = count_at(json, "progress_bytes"@) matches Some(n) && n > last;
                let only_the_tail = last > 0xffff_ffff && sent && (count_at(json, "progress_bytes"@) matches Some(n) && n
                    <= last);
                step is Again <==> lost && (sent || further) && old(self).reconnects < 32 && (only_the_tail
                    ==> old(self).same_high_water == 0)
            },
            reply matches Err(error) ==> (step matches FileCallStep::Fail(text) && text@ == error@),
    {
        let response = match reply {
            Ok(response) => response,
            Err(error) => return FileCallStep::Fail(error),
        };
        let initial_reused = match self.initial_reused {
            Some(reused) => Some(reused),
            None => flag_field(&response, "session_reused"),
        };
        let resumable = file_response_can_resume(&response);
        let progress: u64 = match count_field(&response, "progress_bytes") {
            Some(n) => n,
            None => fallback,
        };
        let moved = file_response_made_progress(&response, self.last_progress);
        let same: u64 = if resumable && file_response_only_replayed_u32_tail(&response, self.last_progress) {
            self.same_high_water + 1
        } else if progress > self.last_progress {
            0
        } else {
            self.same_high_water
        };
        let stuck = same >= MAX_SAME_HIGH_WATER_RECONNECTS;
        if resumable && moved && !stuck && self.reconnects < MAX_FILE_RESUME_RECONNECTS {
            self.initial_reused = initial_reused;
            self.same_high_water = same;
            if progress > self.last_progress {
                self.last_progress = progress;
            }
            self.reconnects = self.reconnects + 1;
            return FileCallStep::Again;
        }
        let mut value = response;
        set_count(&mut value, "resume_reconnects", self.reconnects);
        set_count(&mut value, "automatic_resume_limit", MAX_FILE_RESUME_RECONNECTS);
        set_count(&mut value, "same_high_water_reconnects", same);
        set_count(&mut value, "same_high_water_limit", MAX_SAME_HIGH_WATER_RECONNECTS);
        set_flag(&mut value, "chunk_fallback_required", stuck);
        set_flag(
            &mut value,
            "initial_session_reused",
            match initial_reused {
                Some(reused) => reused,
                None => false,
            },
        );
        set_flag(&mut value, "replayed", false);
        set_flag(&mut value, "resume_stalled", resumable && (!moved || stuck));
        set_flag(
            &mut value,
            "resume_exhausted",
            resumable && moved && self.reconnects == MAX_FILE_RESUME_RECONNECTS,
        );
        FileCallStep::Finish(value)
    }
}

// ---------------------------------------------------------------------------
// Laws
// ---------------------------------------------------------------------------

/// A transfer after the responses of several connections, each with what the partial file said, of which
/// all but the last led to another try.
pub open spec fn call_after(s: FileCall, responses: Seq<(Json, u64)>) -> FileCall
    decreases responses.len(),
{
    if responses.len() == 0 {
        s
    } else {
        let before = call_after(s, responses.drop_last());
        call_next(before, Ok(responses.last().0), responses.last().1).0
    }
}

/// Every response led to another try.
pub open spec fn all_again(s: FileCall, responses: Seq<(Json, u64)>) -> bool
    decreases responses.len(),
{
    responses.len() > 0 ==> {
        &&& all_again(s, responses.drop_last())
        &&& goes_on(call_after(s, responses.drop_last()), responses.last().0, responses.last().1)
    }
}

/// A transfer reconnects at most 32 times, counts each of them, and never falls back behind what it has
/// reached: however many responses led to another try, there are no more than 32 of them.
pub proof fn law_reconnects_are_bounded(progress: u64, responses: Seq<(Json, u64)>)
    requires
        all_again(call_start(progress), responses),
        forall|i: int|
            0 <= i < responses.len() ==> response_progress((#[trigger] responses[i]).0, responses[i].1) <= u64::MAX,
    ensures
        responses.len() <= MAX_FILE_RESUME_RECONNECTS,
        call_after(call_start(progress), responses).reconnects == responses.len(),
        call_after(call_start(progress), responses).last_progress >= progress,
        call_valid(call_after(call_start(progress), responses)),
    decreases responses.len(),
{
    if responses.len() > 0 {
        law_reconnects_are_bounded(progress, responses.drop_last());
        assert(responses.last() == responses[responses.len() - 1]);
        assert forall|i: int| 0 <= i < responses.drop_last().len() implies response_progress(
            (#[trigger] responses.drop_last()[i]).0,
            responses.drop_last()[i].1,
        ) <= u64::MAX by {
            assert(responses.drop_last()[i] == responses[i]);
        }
    }
}

/// There is another try only after the connection was lost, where the transfer can be resumed and only if
/// the lost connection moved it: neither other errors nor connections without progress are retried.
pub proof fn law_no_retry_without_progress(s: FileCall, json: Json, fallback: u64)
    ensures
        call_next(s, Ok(json), fallback).1 is Again ==> can_resume(json) && made_progress(json, s.last_progress)
            && s.reconnects < MAX_FILE_RESUME_RECONNECTS,
        !can_resume(json) ==> call_next(s, Ok(json), fallback).1 == FileCallStepView::Finish(
            final_response(s, json, fallback),
        ),
        !made_progress(json, s.last_progress) ==> call_next(s, Ok(json), fallback).1 is Finish,
{
}

/// Two connections in a row that only send the tail beyond the largest offset again end the tries.
pub proof fn law_two_replayed_tails_end(s: FileCall, first: Json, second: Json, one: u64, two: u64)
    requires
        can_resume(first),
        can_resume(second),
        only_replayed_tail(first, s.last_progress),
        only_replayed_tail(second, s.last_progress),
        call_valid(s),
    ensures
        call_next(s, Ok(first), one).1 is Again ==> call_next(call_next(s, Ok(first), one).0, Ok(second), two).1
            is Finish,
{
}

/// An error in place of a response is the result, whatever came before it: there is no other try.
pub proof fn law_errors_are_not_retried(s: FileCall, error: Seq<char>, fallback: u64)
    ensures
        call_next(s, Err(error), fallback) == (s, FileCallStepView::Fail(error)),
{
}

/// A transfer takes at least one connection and at most 33: after responses that all led to another try comes
/// one that does not. If it is a response, the result counts the connections after the first, which are no
/// more than the limit that it names beside them.
pub proof fn law_result_counts_the_reconnects(
    progress: u64,
    responses: Seq<(Json, u64)>,
    reply: Result<Json, Seq<char>>,
    fallback: u64,
)
    requires
        all_again(call_start(progress), responses),
        forall|i: int|
            0 <= i < responses.len() ==> response_progress((#[trigger] responses[i]).0, responses[i].1) <= u64::MAX,
        call_next(call_after(call_start(progress), responses), reply, fallback).1 !is Again,
    ensures
        1 <= responses.len() + 1 <= MAX_FILE_RESUME_RECONNECTS + 1,
        match call_next(call_after(call_start(progress), responses), reply, fallback).1 {
            FileCallStepView::Again => false,
            FileCallStepView::Fail(error) => reply == Err::<Json, Seq<char>>(error),
            FileCallStepView::Finish(json) => {
                &&& reply is Ok
                &&& reply->Ok_0 is Object ==> {
                    &&& count_at(json, "resume_reconnects"@) == Some(responses.len() as int)
                    &&& count_at(json, "automatic_resume_limit"@) == Some(MAX_FILE_RESUME_RECONNECTS as int)
                }
            },
        },
{
    law_reconnects_are_bounded(progress, responses);
    reveal_strlit("resume_reconnects");
    reveal_strlit("automatic_resume_limit");
    reveal_strlit("same_high_water_reconnects");
    reveal_strlit("same_high_water_limit");
    reveal_strlit("chunk_fallback_required");
    reveal_strlit("initial_session_reused");
    reveal_strlit("replayed");
    reveal_strlit("resume_stalled");
    reveal_strlit("resume_exhausted");
    assert("resume_reconnects"@.len() == 17 && "automatic_resume_limit"@.len() == 22);
    assert("same_high_water_reconnects"@.len() == 26 && "same_high_water_limit"@.len() == 21);
    assert("chunk_fallback_required"@.len() == 23 && "initial_session_reused"@.len() == 22);
    assert("replayed"@.len() == 8 && "resume_stalled"@.len() == 14 && "resume_exhausted"@.len() == 16);
    assert("automatic_resume_limit"@[0] != "initial_session_reused"@[0]);
}

/// The keys that decide about another try are different ones.
proof fn lemma_keys_differ()
    ensures
        "stage"@.len() == 5,
        "attempt_bytes"@.len() == 13,
        "progress_bytes"@.len() == 14,
        "resume_supported"@.len() == 16,
        "partial_preserved"@.len() == 17,
        "reconnect_on_next_call"@.len() == 22,
{
    reveal_strlit("stage");
    reveal_strlit("attempt_bytes");
    reveal_strlit("progress_bytes");
    reveal_strlit("resume_supported");
    reveal_strlit("partial_preserved");
    reveal_strlit("reconnect_on_next_call");
}

/// What a session answers about a transfer that failed is understood: it can be resumed exactly where the
/// connection was lost and partial files are kept, the bytes that are through and that went over the
/// connection are read back, and the session is given up.
pub proof fn law_failed_transfer_is_understood(
    device_id: Seq<char>,
    peer: Peer,
    request: TransferRequest,
    fault: Fault,
    resume_supported: bool,
    attempt_bytes: u64,
)
    ensures
        ({
            let json = failed_json(device_id, peer, request, fault, resume_supported, attempt_bytes);
            &&& can_resume(json) <==> (fault.progress is Some && resume_supported)
            &&& requires_reconnect(json)
            &&& moved_bytes(json) <==> attempt_bytes > 0
            &&& fault.progress matches Some(progress) ==> count_at(json, "progress_bytes"@) == Some(progress as int)
        }),
{
    lemma_keys_differ();
    reveal_strlit("session_disconnected");
    reveal_strlit("transfer_failed");
    assert("session_disconnected"@.len() != "transfer_failed"@.len());
}

/// What a session answers about a command that was interrupted makes the session be given up.
pub proof fn law_interrupted_command_is_understood(device_id: Seq<char>, peer: Peer, error: Seq<char>)
    ensures
        requires_reconnect(interrupted_json(device_id, peer, error)),
        !can_resume(interrupted_json(device_id, peer, error)),
{
    lemma_keys_differ();
    reveal_strlit("hostname");
    reveal_strlit("platform");
    reveal_strlit("device_id");
    reveal_strlit("operation");
    reveal_strlit("exit_code");
    reveal_strlit("stdout");
    reveal_strlit("stderr");
    reveal_strlit("duration_ms");
    reveal_strlit("ok");
    reveal_strlit("replayed");
}

/// What a session answers about a command whose time was over makes the session be given up, asks for no
/// other try, and tells what it should: the stage, the time that was taken, that the time was over, and that
/// there is no output.
pub proof fn law_timed_out_command_is_understood(device_id: Seq<char>, peer: Peer, duration_ms: int)
    requires
        0 <= duration_ms,
    ensures
        ({
            let json = timed_out_json(device_id, peer, duration_ms);
            &&& requires_reconnect(json)
            &&& !can_resume(json)
            &&& text_at(json, "stage"@) == Some("command_timeout"@)
            &&& flag_at(json, "ok"@) == Some(false)
            &&& flag_at(json, "timed_out"@) == Some(true)
            &&& flag_at(json, "output_complete"@) == Some(false)
            &&& count_at(json, "duration_ms"@) == Some(duration_ms)
            &&& text_at(json, "stdout"@) == Some(""@)
            &&& text_at(json, "stderr"@) == Some(""@)
        }),
{
    lemma_keys_differ();
    reveal_strlit("stdout");
    reveal_strlit("stderr");
    reveal_strlit("duration_ms");
    reveal_strlit("output_complete");
    reveal_strlit("timed_out");
    reveal_strlit("ok");
    reveal_strlit("session_disconnected");
    reveal_strlit("command_timeout");
    assert("stdout"@.len() == 6 && "stderr"@.len() == 6 && "stdout"@[3] != "stderr"@[3]);
    assert("duration_ms"@.len() == 11 && "output_complete"@.len() == 15);
    assert("timed_out"@.len() == 9 && "ok"@.len() == 2);
    assert("session_disconnected"@.len() != "command_timeout"@.len());
}

/// What a session answers about a complete transfer lets the session live on and asks for no other try.
pub proof fn law_completed_transfer_is_understood(
    device_id: Seq<char>,
    peer: Peer,
    request: TransferRequest,
    stats: FileTransferStats,
)
    ensures
        !requires_reconnect(completed_json(device_id, peer, request, stats)),
        !can_resume(completed_json(device_id, peer, request, stats)),
        flag_at(completed_json(device_id, peer, request, stats), "ok"@) == Some(true),
        count_at(completed_json(device_id, peer, request, stats), "resumed_from"@) == Some(
            stats.resumed_from as int,
        ),
{
    lemma_keys_differ();
    reveal_strlit("hostname");
    reveal_strlit("platform");
    reveal_strlit("device_id");
    reveal_strlit("operation");
    reveal_strlit("local_path");
    reveal_strlit("remote_path");
    reveal_strlit("resumed_from");
    reveal_strlit("ok");
    assert("resumed_from"@.len() == 12 && "ok"@.len() == 2);
}

// ---------------------------------------------------------------------------
// Laws on what is owed
// ---------------------------------------------------------------------------

/// A transfer that was cut off is taken up again: where the connection was lost, partial files are kept, the lost
/// connection moved bytes or brought the transfer further, fewer than two connections in a row only sent the
/// tail again and fewer than 32 were made after the first, there is another try, whatever else the response
/// says. Where one of these does not hold, there is none.
pub proof fn law_cut_off_transfers_go_on(s: FileCall, json: Json, fallback: u64)
    requires
        call_valid(s),
    ensures
        ({
            let lost = text_at(json, "stage"@) == Some("session_disconnected"@) && flag_at(json, "resume_supported"@)
                == Some(true) && flag_at(json, "partial_preserved"@) == Some(true);
            let sent = count_at(json, "attempt_bytes"@) matches Some(n) && n > 0;
            let further = count_at(json, "progress_bytes"@) matches Some(n) && n > s.last_progress;
            let not_further = count_at(json, "progress_bytes"@) matches Some(n) && n <= s.last_progress;
            let only_the_tail = s.last_progress > 0xffff_ffff && not_further && sent;
            let again = lost && (sent || further) && s.reconnects < 32 && (only_the_tail ==> s.same_high_water == 0);
            let (t, step) = call_next(s, Ok(json), fallback);
            &&& again <==> step is Again
            &&& !again <==> step is Finish
            &&& again ==> t.reconnects == s.reconnects + 1
            &&& again && only_the_tail ==> t.same_high_water == s.same_high_water + 1
            &&& again && further ==> t.same_high_water == 0
        }),
{
}

/// How far a transfer has come is told by the response, or by the partial file where the response says nothing
/// of it, and never falls back. Whether the first connection was there before is told by the first response that
/// says so.
pub proof fn law_progress_is_kept(s: FileCall, json: Json, fallback: u64)
    requires
        call_next(s, Ok(json), fallback).1 is Again,
        count_at(json, "progress_bytes"@) matches Some(n) ==> n <= u64::MAX,
    ensures
        ({
            let t = call_next(s, Ok(json), fallback).0;
            let told = match count_at(json, "progress_bytes"@) {
                Some(n) => n,
                None => fallback as int,
            };
            &&& t.last_progress >= s.last_progress
            &&& told > s.last_progress ==> t.last_progress == told
            &&& told <= s.last_progress ==> t.last_progress == s.last_progress
            &&& s.initial_reused is Some ==> t.initial_reused == s.initial_reused
            &&& s.initial_reused is None ==> t.initial_reused == flag_at(json, "session_reused"@)
        }),
{
}

/// The result of a transfer is the last response, with what the reconnecting came to: how many connections were
/// made and how many may be, whether it was the tail that could not be got over, whether the transfer stopped
/// for want of progress or because no more connections may be made, whether the first connection was there
/// before, and that nothing was replayed.
pub proof fn law_result_tells_the_reconnecting(s: FileCall, members: Map<Seq<char>, Json>, fallback: u64, key: Seq<char>)
    requires
        call_valid(s),
        call_next(s, Ok(Json::Object(members)), fallback).1 is Finish,
    ensures
        ({
            let json = Json::Object(members);
            let lost = text_at(json, "stage"@) == Some("session_disconnected"@) && flag_at(json, "resume_supported"@)
                == Some(true) && flag_at(json, "partial_preserved"@) == Some(true);
            let sent = count_at(json, "attempt_bytes"@) matches Some(n) && n > 0;
            let further = count_at(json, "progress_bytes"@) matches Some(n) && n > s.last_progress;
            let not_further = count_at(json, "progress_bytes"@) matches Some(n) && n <= s.last_progress;
            let stuck = lost && s.last_progress > 0xffff_ffff && not_further && sent && s.same_high_water == 1;
            let result = call_next(s, Ok(json), fallback).1->Finish_0;
            &&& count_at(result, "resume_reconnects"@) == Some(s.reconnects as int)
            &&& count_at(result, "automatic_resume_limit"@) == Some(32int)
            &&& count_at(result, "same_high_water_limit"@) == Some(2int)
            &&& flag_at(result, "chunk_fallback_required"@) == Some(stuck)
            &&& stuck ==> count_at(result, "same_high_water_reconnects"@) == Some(2int)
            &&& flag_at(result, "resume_stalled"@) == Some(lost && (!(sent || further) || stuck))
            &&& flag_at(result, "resume_exhausted"@) == Some(lost && (sent || further) && s.reconnects == 32)
            &&& flag_at(result, "replayed"@) == Some(false)
            &&& flag_at(result, "initial_session_reused"@) == Some(
                match s.initial_reused {
                    Some(reused) => reused,
                    None => flag_at(json, "session_reused"@) == Some(true),
                },
            )
            &&& ![
                "resume_reconnects"@,
                "automatic_resume_limit"@,
                "same_high_water_reconnects"@,
                "same_high_water_limit"@,
                "chunk_fallback_required"@,
                "initial_session_reused"@,
                "replayed"@,
                "resume_stalled"@,
                "resume_exhausted"@,
            ]@.contains(key) ==> member(result, key) == member(json, key)
        }),
{
    lemma_keys();
    let keys = [
        "resume_reconnects"@,
        "automatic_resume_limit"@,
        "same_high_water_reconnects"@,
        "same_high_water_limit"@,
        "chunk_fallback_required"@,
        "initial_session_reused"@,
        "replayed"@,
        "resume_stalled"@,
        "resume_exhausted"@,
    ]@;
    assert(keys[0] == "resume_reconnects"@ && keys[1] == "automatic_resume_limit"@ && keys[2]
        == "same_high_water_reconnects"@ && keys[3] == "same_high_water_limit"@ && keys[4]
        == "chunk_fallback_required"@ && keys[5] == "initial_session_reused"@ && keys[6] == "replayed"@ && keys[7]
        == "resume_stalled"@ && keys[8] == "resume_exhausted"@);
}

/// A response asks for a new connection exactly where it says so itself.
pub proof fn law_reconnect_is_asked_for(members: Map<Seq<char>, Json>, flag: bool)
    ensures
        requires_reconnect(with(Json::Object(members), "reconnect_on_next_call"@, Json::Bool(flag))) == flag,
        !members.dom().contains("reconnect_on_next_call"@) ==> !requires_reconnect(Json::Object(members)),
{
}

/// A transfer begins with what is on disk: the size of the partial file beside the destination of a download,
/// and nothing for an upload or where there is no such file.
pub proof fn law_transfer_begins_with_what_is_here(
    local_path: Seq<char>,
    remote_path: Seq<char>,
    len: u64,
    partial_len: Option<u64>,
    progress: u64,
)
    ensures
        request_progress(file_request("pull"@, local_path, remote_path), Some(len)) == len,
        request_progress(file_request("pull"@, local_path, remote_path), None) == 0,
        request_progress(file_request("push"@, local_path, remote_path), partial_len) == 0,
        call_start(progress).last_progress == progress,
        call_start(progress).reconnects == 0 && call_start(progress).same_high_water == 0,
        call_start(progress).initial_reused is None,
        call_valid(call_start(progress)),
{
    law_partial_lies_beside(local_path, remote_path);
}

/// What a transfer does next is seen as what it is.
pub proof fn law_file_calls_are_seen_as_they_are(value: serde_json::Value, words: String)
    ensures
        FileCallStep::Again@ is Again,
        FileCallStep::Finish(value)@ == FileCallStepView::Finish(json_of(value)),
        FileCallStep::Fail(words)@ == FileCallStepView::Fail(words@),
{
}

/// Where the partial file of any request lies: beside the local path where the request is a download that names one,
/// and nowhere otherwise, whatever else the request holds.
pub proof fn law_only_downloads_have_partial_files(request: Json, local_path: Seq<char>, partial_len: u64)
    ensures
        text_at(request, "operation"@) == Some("pull"@) && text_at(request, "local_path"@) == Some(local_path)
            ==> partial_path_of(request) == Some(local_path + ".download"@) && request_progress(
            request,
            Some(partial_len),
        ) == partial_len,
        text_at(request, "operation"@) != Some("pull"@) || text_at(request, "local_path"@) is None ==> partial_path_of(
            request,
        ) is None && request_progress(request, Some(partial_len)) == 0,
{
}

/// Connections in a row that only sent the tail again are counted: one more of them adds one, one that brought the
/// transfer further starts the count anew, and any other leaves it as it is. The result tells the count.
pub proof fn law_stuck_connections_are_counted(s: FileCall, members: Map<Seq<char>, Json>, fallback: u64)
    requires
        call_valid(s),
    ensures
        ({
            let json = Json::Object(members);
            let (t, step) = call_next(s, Ok(json), fallback);
            let lost = text_at(json, "stage"@) == Some("session_disconnected"@) && flag_at(json, "resume_supported"@)
                == Some(true) && flag_at(json, "partial_preserved"@) == Some(true);
            let sent = count_at(json, "attempt_bytes"@) matches Some(n) && n > 0;
            let not_further = count_at(json, "progress_bytes"@) matches Some(n) && n <= s.last_progress;
            let told = match count_at(json, "progress_bytes"@) {
                Some(n) => n,
                None => fallback as int,
            };
            let count = if lost && sent && not_further && s.last_progress > 0xffff_ffff {
                s.same_high_water + 1
            } else if told > s.last_progress {
                0
            } else {
                s.same_high_water as int
            };
            &&& step is Again ==> t.same_high_water == count
            &&& step matches FileCallStepView::Finish(result) ==> t == s && count_at(
                result,
                "same_high_water_reconnects"@,
            ) == Some(count)
        }),
{
    lemma_keys();
}

}
