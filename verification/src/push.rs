//! The upload of one file.

use vstd::prelude::*;
use vstd::string::*;

use crate::message::{
    error_box, is_error_box, login_refusal, malformed, malformed_text, refused_login, respond_to_test_delay, Digest,
    FileReply, Incoming, PeerMessage,
};
use crate::text::{decimal, joined, joined3};
use crate::transfer::{
    confirmed, confirmed_offset, disconnected, disconnected_at, failed, lost, protocol_resume_offset, report,
    resume_offset, stall_message, stall_text, stall_time, stalled_at, Fault, FileTransferStats, TransferError,
    FILE_JOB_ID,
};

verus! {

// ---------------------------------------------------------------------------
// Before the upload
// ---------------------------------------------------------------------------

/// What is wrong with the two paths of an upload: the source must be a file whose path is UTF-8, the
/// destination must be named.
pub open spec fn push_paths_fault(
    local: Seq<char>,
    is_file: Result<bool, Seq<char>>,
    remote: Seq<char>,
    is_utf8: bool,
) -> Option<Fault> {
    match is_file {
        Err(error) => Some(failed("Cannot read local file "@ + local + ": "@ + error)),
        Ok(false) => Some(failed("Push source is not a file: "@ + local)),
        Ok(true) => if remote.len() == 0 {
            Some(failed("Remote destination path cannot be empty"@))
        } else if !is_utf8 {
            Some(failed("Local source path is not valid UTF-8"@))
        } else {
            None
        },
    }
}

/// Checks the paths of an upload. `is_file` is what the file system says of the source.
pub fn check_push_paths(local: &str, is_file: &Result<bool, String>, remote: &str, is_utf8: bool) -> (r: Result<
    (),
    TransferError,
>)
    ensures
        match push_paths_fault(local@, crate::text::told(*is_file), remote@, is_utf8) {
            Some(fault) => report(r) == Err::<(), Fault>(fault),
            None => r is Ok,
        },
{
    match is_file {
        Err(error) => {
            let mut text = joined3("Cannot read local file ", local, ": ");
            text.append(error.as_str());
            Err(TransferError::Failed(text))
        },
        Ok(false) => Err(TransferError::Failed(joined("Push source is not a file: ", local))),
        Ok(true) => {
            if remote.is_empty() {
                Err(TransferError::Failed("Remote destination path cannot be empty".to_owned()))
            } else if !is_utf8 {
                Err(TransferError::Failed("Local source path is not valid UTF-8".to_owned()))
            } else {
                Ok(())
            }
        },
    }
}

/// Checks that the source of an upload is one file.
pub fn check_push_files(count: usize, local: &str) -> (r: Result<(), TransferError>)
    ensures
        count == 1 ==> r is Ok,
        count != 1 ==> report(r) == Err::<(), Fault>(
            failed("Only single-file uploads are supported: "@ + local@),
        ),
{
    if count != 1 {
        return Err(TransferError::Failed(joined("Only single-file uploads are supported: ", local)));
    }
    Ok(())
}

// ---------------------------------------------------------------------------
// The upload
// ---------------------------------------------------------------------------

/// An upload that is under way. Times are in milliseconds on its own clock.
#[derive(Clone, Copy, Debug, PartialEq, Eq, Structural)]
pub struct Push {
    /// The size of the file.
    pub total_size: u64,
    /// The remote device keeps partial files.
    pub resume: bool,
    /// What the file reader last counted as sent.
    pub transferred: u64,
    /// The bytes that were sent over this connection.
    pub attempt_bytes: u64,
    /// How far into the file the upload is.
    pub finished_size: u64,
    /// The offset from which the upload was resumed.
    pub resumed_from: u64,
    /// Everything has been sent.
    pub local_done: bool,
    /// When the upload last progressed.
    pub last_progress: u64,
}

/// What was being sent when sending failed.
#[derive(Clone, Copy, Debug, PartialEq, Eq, Structural)]
pub enum PushSend {
    Request,
    Echo,
    Confirmation,
    Keepalive,
}

/// What happens to an upload.
pub enum PushEvent {
    /// Something arrived, or the connection ended.
    Incoming(Incoming),
    /// The file reader sent what it could. It has counted `transferred` bytes sent and stands at `finished`;
    /// where it is through, `reading` is false.
    Sent { transferred: u64, finished: u64, reading: bool },
    /// The file reader could not read or send.
    ReadFailed(String),
    /// A message could not be sent while the file reader stood at `finished`.
    SendFailed { sending: PushSend, error: String, finished: u64 },
    /// The time for which the upload may stall is over.
    Stalled,
}

/// What an upload does next.
#[derive(Clone, Copy, Debug, PartialEq, Eq, Structural)]
pub enum PushStep {
    /// Wait for the next event.
    Wait,
    /// Send the probe of the delay back.
    Echo,
    /// Hand the peer's confirmation on to the file reader.
    Apply,
    /// Have the file reader start at `offset`, and confirm this to the peer.
    Confirm { file_num: i32, offset: u32 },
    /// The upload is complete.
    Done,
}

/// What a message means for an upload: the next step, whether it is progress, and the offset that it
/// settles.
pub open spec fn push_message(s: Push, message: PeerMessage) -> Result<(PushStep, bool, Option<u64>), Fault> {
    match message {
        PeerMessage::TestDelay { from_client } => if from_client {
            Ok((PushStep::Wait, false, None))
        } else {
            Ok((PushStep::Echo, false, None))
        },
        PeerMessage::SendConfirm { id, offset } => if id != FILE_JOB_ID {
            Ok((PushStep::Wait, false, None))
        } else if s.local_done {
            Err(failed("Push confirmation arrived after the job ended"@))
        } else {
            match confirmed(offset, s.total_size) {
                Ok(start) => Ok((PushStep::Apply, true, Some(start))),
                Err(fault) => Err(fault),
            }
        },
        PeerMessage::File(FileReply::Digest(digest)) => if digest.id != FILE_JOB_ID {
            Ok((PushStep::Wait, false, None))
        } else if s.local_done {
            Err(failed("Push digest arrived after the job ended"@))
        } else if s.resume && digest.is_identical {
            match resume_offset(digest.transferred_size, s.total_size) {
                Ok(offset) => Ok(
                    (PushStep::Confirm { file_num: digest.file_num, offset }, true, Some(offset as u64)),
                ),
                Err(fault) => Err(fault),
            }
        } else {
            Ok((PushStep::Confirm { file_num: digest.file_num, offset: 0 }, true, Some(0)))
        },
        PeerMessage::File(FileReply::Done { id }) => if id != FILE_JOB_ID {
            Ok((PushStep::Wait, false, None))
        } else if !s.local_done {
            Err(failed("Remote completed upload before all local data was sent"@))
        } else {
            Ok((PushStep::Done, true, None))
        },
        PeerMessage::File(FileReply::Error { id, error }) => if id != FILE_JOB_ID {
            Ok((PushStep::Wait, false, None))
        } else {
            Err(failed("Remote upload failed: "@ + error@))
        },
        PeerMessage::Login(reply) => match login_refusal(reply) {
            Some(text) => Err(failed(text)),
            None => Ok((PushStep::Wait, false, None)),
        },
        PeerMessage::MessageBox { kind, text } => if is_error_box(kind@) {
            Err(failed("Remote upload failed: "@ + text@))
        } else {
            Ok((PushStep::Wait, false, None))
        },
        _ => Ok((PushStep::Wait, false, None)),
    }
}

/// An upload after a message at `now`.
pub open spec fn push_moved(s: Push, now: u64, progress: bool, offset: Option<u64>) -> Push {
    Push {
        resumed_from: match offset {
            Some(o) => if o > s.resumed_from {
                o
            } else {
                s.resumed_from
            },
            None => s.resumed_from,
        },
        last_progress: if progress {
            now
        } else {
            s.last_progress
        },
        ..s
    }
}

/// An upload after the file reader sent what it could.
pub open spec fn push_sent(s: Push, now: u64, transferred: u64, finished: u64, reading: bool) -> Push {
    let current = if reading {
        transferred
    } else {
        0
    };
    let moved = if reading {
        transferred
    } else if s.resumed_from < s.total_size {
        (s.total_size - s.resumed_from) as u64
    } else {
        0
    };
    Push {
        transferred: current,
        attempt_bytes: if moved > s.attempt_bytes {
            moved
        } else {
            s.attempt_bytes
        },
        finished_size: if reading {
            finished
        } else {
            s.total_size
        },
        local_done: !reading,
        last_progress: if current != s.transferred || !reading {
            now
        } else {
            s.last_progress
        },
        ..s
    }
}

/// How a failure to send ends an upload.
pub open spec fn push_send_fault(s: Push, sending: PushSend, error: Seq<char>, finished: u64) -> Fault {
    match sending {
        PushSend::Request => lost("push_request"@, error, 0),
        PushSend::Echo => lost("push_test_delay"@, error, finished),
        PushSend::Confirmation => lost("push_confirm"@, error, finished),
        PushSend::Keepalive => lost("push_keepalive"@, error, s.finished_size),
    }
}

/// An upload after an event at `now`, and what it does next. An error leaves it as it was.
pub open spec fn push_next(s: Push, now: u64, event: PushEvent) -> (Push, Result<PushStep, Fault>) {
    match event {
        PushEvent::Incoming(Incoming::Message(message)) => match push_message(s, message) {
            Ok((step, progress, offset)) => (push_moved(s, now, progress, offset), Ok(step)),
            Err(fault) => (s, Err(fault)),
        },
        PushEvent::Incoming(Incoming::Malformed(error)) => (
            s,
            Err(failed(malformed_text("[push] invalid message"@, error@))),
        ),
        PushEvent::Incoming(Incoming::StreamError(error)) => (
            s,
            Err(lost("push"@, "stream error: "@ + error@, s.finished_size)),
        ),
        PushEvent::Incoming(Incoming::Closed) => (
            s,
            Err(lost("push"@, "connection closed by peer"@, s.finished_size)),
        ),
        PushEvent::Sent { transferred, finished, reading } => (
            push_sent(s, now, transferred, finished, reading),
            Ok(PushStep::Wait),
        ),
        PushEvent::ReadFailed(error) => (s, Err(lost("push_send"@, error@, s.finished_size))),
        PushEvent::SendFailed { sending, error, finished } => (
            s,
            Err(push_send_fault(s, sending, error@, finished)),
        ),
        PushEvent::Stalled => (s, Err(lost("push"@, stall_text(), s.finished_size))),
    }
}

/// What a message means for an upload, before it moves the state.
pub struct PushMessage {
    pub step: PushStep,
    pub progress: bool,
    pub offset: Option<u64>,
}

/// A reading of a message as a value.
pub open spec fn push_reading(r: Result<PushMessage, TransferError>) -> Result<(PushStep, bool, Option<u64>), Fault> {
    match r {
        Ok(m) => Ok((m.step, m.progress, m.offset)),
        Err(e) => Err(e@),
    }
}

/// Nothing to do and no progress.
fn idle() -> (m: PushMessage)
    ensures
        m.step == PushStep::Wait && !m.progress && m.offset is None,
{
    PushMessage { step: PushStep::Wait, progress: false, offset: None }
}

/// What a message means for an upload.
pub fn handle_push_message(s: &Push, message: &PeerMessage) -> (r: Result<PushMessage, TransferError>)
    ensures
        push_reading(r) == push_message(*s, *message),
{
    match message {
        PeerMessage::TestDelay { from_client } => {
            if respond_to_test_delay(*from_client) {
                Ok(PushMessage { step: PushStep::Echo, progress: false, offset: None })
            } else {
                Ok(idle())
            }
        },
        PeerMessage::SendConfirm { id, offset } => {
            if *id != FILE_JOB_ID {
                Ok(idle())
            } else if s.local_done {
                Err(TransferError::Failed("Push confirmation arrived after the job ended".to_owned()))
            } else {
                match confirmed_offset(*offset, s.total_size) {
                    Ok(start) => Ok(PushMessage { step: PushStep::Apply, progress: true, offset: Some(start) }),
                    Err(error) => Err(error),
                }
            }
        },
        PeerMessage::File(FileReply::Digest(digest)) => {
            if digest.id != FILE_JOB_ID {
                Ok(idle())
            } else if s.local_done {
                Err(TransferError::Failed("Push digest arrived after the job ended".to_owned()))
            } else {
                let offset: u32 = if s.resume && digest.is_identical {
                    match protocol_resume_offset(digest.transferred_size, s.total_size) {
                        Ok(offset) => offset,
                        Err(error) => {
                            return Err(error);
                        },
                    }
                } else {
                    0
                };
                Ok(
                    PushMessage {
                        step: PushStep::Confirm { file_num: digest.file_num, offset },
                        progress: true,
                        offset: Some(offset as u64),
                    },
                )
            }
        },
        PeerMessage::File(FileReply::Done { id }) => {
            if *id != FILE_JOB_ID {
                Ok(idle())
            } else if !s.local_done {
                Err(TransferError::Failed("Remote completed upload before all local data was sent".to_owned()))
            } else {
                Ok(PushMessage { step: PushStep::Done, progress: true, offset: None })
            }
        },
        PeerMessage::File(FileReply::Error { id, error }) => {
            if *id != FILE_JOB_ID {
                Ok(idle())
            } else {
                Err(TransferError::Failed(joined("Remote upload failed: ", error.as_str())))
            }
        },
        PeerMessage::Login(reply) => match refused_login(reply) {
            Some(text) => Err(TransferError::Failed(text)),
            None => Ok(idle()),
        },
        PeerMessage::MessageBox { kind, text } => {
            if error_box(kind.as_str()) {
                Err(TransferError::Failed(joined("Remote upload failed: ", text.as_str())))
            } else {
                Ok(idle())
            }
        },
        _ => Ok(idle()),
    }
}

impl Push {
    /// An upload that begins at `now`.
    pub fn start(total_size: u64, resume: bool, now: u64) -> (s: Push)
        ensures
            s == push_start(total_size, resume, now),
    {
        Push {
            total_size,
            resume,
            transferred: 0,
            attempt_bytes: 0,
            finished_size: 0,
            resumed_from: 0,
            local_done: false,
            last_progress: now,
        }
    }

    /// When the upload counts as stalled, unless it progresses before.
    pub fn deadline(&self) -> (at: u64)
        ensures
            at == stalled_at(self.last_progress),
    {
        stall_time(self.last_progress)
    }

    /// Takes an event at `now` and gives what to do next.
    pub fn step(&mut self, now: u64, event: &PushEvent) -> (r: Result<PushStep, TransferError>)
        ensures
            (*final(self), report(r)) == push_next(*old(self), now, *event),
    {
        match event {
            PushEvent::Incoming(Incoming::Message(message)) => match handle_push_message(self, message) {
                Ok(reading) => {
                    if let Some(offset) = reading.offset {
                        if offset > self.resumed_from {
                            self.resumed_from = offset;
                        }
                    }
                    if reading.progress {
                        self.last_progress = now;
                    }
                    Ok(reading.step)
                },
                Err(error) => Err(error),
            },
            PushEvent::Incoming(Incoming::Malformed(error)) => Err(
                TransferError::Failed(malformed("[push] invalid message", error.as_str())),
            ),
            PushEvent::Incoming(Incoming::StreamError(error)) => Err(
                disconnected_at("push", joined("stream error: ", error.as_str()).as_str(), self.finished_size),
            ),
            PushEvent::Incoming(Incoming::Closed) => Err(
                disconnected_at("push", "connection closed by peer", self.finished_size),
            ),
            PushEvent::Sent { transferred, finished, reading } => {
                let current: u64 = if *reading {
                    *transferred
                } else {
                    0
                };
                let moved: u64 = if *reading {
                    *transferred
                } else if self.resumed_from < self.total_size {
                    self.total_size - self.resumed_from
                } else {
                    0
                };
                if moved > self.attempt_bytes {
                    self.attempt_bytes = moved;
                }
                self.finished_size = if *reading {
                    *finished
                } else {
                    self.total_size
                };
                if current != self.transferred || !*reading {
                    self.transferred = current;
                    self.last_progress = now;
                }
                self.local_done = !*reading;
                Ok(PushStep::Wait)
            },
            PushEvent::ReadFailed(error) => Err(disconnected_at("push_send", error.as_str(), self.finished_size)),
            PushEvent::SendFailed { sending, error, finished } => Err(
                match sending {
                    PushSend::Request => disconnected("push_request", error.as_str()),
                    PushSend::Echo => disconnected_at("push_test_delay", error.as_str(), *finished),
                    PushSend::Confirmation => disconnected_at("push_confirm", error.as_str(), *finished),
                    PushSend::Keepalive => disconnected_at("push_keepalive", error.as_str(), self.finished_size),
                },
            ),
            PushEvent::Stalled => Err(disconnected_at("push", stall_message().as_str(), self.finished_size)),
        }
    }

    /// What a complete upload moved.
    pub fn stats(&self) -> (stats: FileTransferStats)
        ensures
            stats == (FileTransferStats { bytes: self.total_size, resumed_from: self.resumed_from }),
    {
        FileTransferStats { bytes: self.total_size, resumed_from: self.resumed_from }
    }
}

// ---------------------------------------------------------------------------
// Laws
// ---------------------------------------------------------------------------

/// An upload that begins at `now`.
pub open spec fn push_start(total_size: u64, resume: bool, now: u64) -> Push {
    Push {
        total_size,
        resume,
        transferred: 0,
        attempt_bytes: 0,
        finished_size: 0,
        resumed_from: 0,
        local_done: false,
        last_progress: now,
    }
}

/// An upload after a sequence of events, each with its time.
pub open spec fn push_after(s: Push, events: Seq<(u64, PushEvent)>) -> Push
    decreases events.len(),
{
    if events.len() == 0 {
        s
    } else {
        push_next(push_after(s, events.drop_last()), events.last().0, events.last().1).0
    }
}

/// What holds of every upload.
pub open spec fn push_valid(s: Push) -> bool {
    &&& s.resumed_from <= s.total_size
    &&& s.resumed_from <= u32::MAX
    &&& s.local_done ==> s.finished_size == s.total_size
}

/// Whatever happens to an upload, it is resumed from an offset within the file that the protocol can name,
/// it is through locally only where all of the file has been sent, and the size of the file and whether it
/// can be resumed stay what they were.
pub proof fn law_push_stays_valid(total_size: u64, resume: bool, start: u64, events: Seq<(u64, PushEvent)>)
    ensures
        push_valid(push_after(push_start(total_size, resume, start), events)),
        push_after(push_start(total_size, resume, start), events).total_size == total_size,
        push_after(push_start(total_size, resume, start), events).resume == resume,
    decreases events.len(),
{
    if events.len() > 0 {
        law_push_stays_valid(total_size, resume, start, events.drop_last());
    }
}

/// An upload succeeds only once everything has been sent and the peer has said that it is done.
pub proof fn law_push_success_needs_both_sides(s: Push, now: u64, event: PushEvent)
    requires
        push_next(s, now, event).1 == Ok::<PushStep, Fault>(PushStep::Done),
    ensures
        s.local_done,
        event matches PushEvent::Incoming(Incoming::Message(PeerMessage::File(FileReply::Done { id })))
            && id == FILE_JOB_ID,
{
}

/// Only the loss of the connection counts as a disconnect: its end, a failure to send over it, or a stall.
pub proof fn law_push_disconnects(s: Push, now: u64, event: PushEvent)
    ensures
        push_next(s, now, event).1 matches Err(fault) ==> (fault.progress is Some <==> (event
            matches PushEvent::Incoming(Incoming::StreamError(_)) || event matches PushEvent::Incoming(
            Incoming::Closed,
        ) || event is ReadFailed || event is SendFailed || event is Stalled)),
{
}

/// The time at which an upload counts as stalled moves only when an event makes progress, and then it is
/// 300 seconds after that event.
pub proof fn law_push_stall_time(s: Push, now: u64, event: PushEvent)
    ensures
        ({
            let t = push_next(s, now, event).0;
            t.last_progress == s.last_progress || t.last_progress == now
        }),
        now <= u64::MAX - 300_000 && push_next(s, now, event).0.last_progress == now ==> stalled_at(
            push_next(s, now, event).0.last_progress,
        ) == now + 300_000,
{
}

/// The message says of the uploaded file itself what can end the upload, or that the device has failed.
pub open spec fn push_can_end(message: PeerMessage) -> bool {
    match message {
        PeerMessage::SendConfirm { id, .. } => id == FILE_JOB_ID,
        PeerMessage::File(FileReply::Digest(digest)) => digest.id == FILE_JOB_ID,
        PeerMessage::File(FileReply::Done { id }) => id == FILE_JOB_ID,
        PeerMessage::File(FileReply::Error { id, .. }) => id == FILE_JOB_ID,
        PeerMessage::Login(reply) => login_refusal(reply) is Some,
        PeerMessage::MessageBox { kind, .. } => is_error_box(kind@),
        _ => false,
    }
}

/// An upload goes on whatever else happens: only an error or a stall ends it, however long it takes.
pub proof fn law_push_ends_for_a_reason(s: Push, now: u64, event: PushEvent)
    ensures
        event is Sent ==> push_next(s, now, event).1 is Ok,
        event matches PushEvent::Incoming(Incoming::Message(message)) ==> (!push_can_end(message) ==> push_next(
            s,
            now,
            event,
        ).1 is Ok),
{
}

/// A message that arrives.
pub open spec fn arrives(message: PeerMessage) -> PushEvent {
    PushEvent::Incoming(Incoming::Message(message))
}

/// The receiver's confirmation starts the upload where the receiver says: at the offset that it names, or at the
/// beginning where it names none. One behind the end of the file, or one that comes too late, is an error.
pub proof fn law_receiver_confirms_the_offset(s: Push, now: u64, id: i32, offset: Option<u32>)
    ensures
        ({
            let (t, step) = push_next(s, now, arrives(PeerMessage::SendConfirm { id, offset }));
            let start = match offset {
                Some(o) => o as u64,
                None => 0u64,
            };
            &&& id != 1 ==> t == s && step == Ok::<PushStep, Fault>(PushStep::Wait)
            &&& id == 1 && !s.local_done && start <= s.total_size ==> {
                &&& step == Ok::<PushStep, Fault>(PushStep::Apply)
                &&& t.resumed_from == if start > s.resumed_from {
                    start
                } else {
                    s.resumed_from
                }
                &&& t.last_progress == now
                &&& t.total_size == s.total_size && t.finished_size == s.finished_size && t.attempt_bytes
                    == s.attempt_bytes && t.local_done == s.local_done && t.transferred == s.transferred
            }
            &&& id == 1 && (s.local_done || start > s.total_size) ==> t == s && (step matches Err(fault)
                && fault.progress is None)
        }),
{
}

/// What the receiver has already is not sent again: where partial files are kept and what it has is a true
/// beginning of the file, the upload goes on after that, up to the largest offset that fits in 32 bits; else it
/// starts at the beginning. The receiver is told the file and the offset.
pub proof fn law_upload_goes_on_after_what_is_there(s: Push, now: u64, digest: Digest)
    ensures
        ({
            let (t, step) = push_next(s, now, arrives(PeerMessage::File(FileReply::Digest(digest))));
            let kept = if s.resume && digest.is_identical {
                digest.transferred_size as int
            } else {
                0
            };
            &&& digest.id != 1 ==> t == s && step == Ok::<PushStep, Fault>(PushStep::Wait)
            &&& digest.id == 1 && !s.local_done && kept <= s.total_size ==> {
                &&& step matches Ok(PushStep::Confirm { file_num, offset }) && file_num == digest.file_num && offset
                    as int == (if kept <= 0xffff_ffff {
                    kept
                } else {
                    0xffff_ffff
                }) && t.resumed_from as int == (if offset > s.resumed_from {
                    offset as int
                } else {
                    s.resumed_from as int
                })
                &&& t.last_progress == now
                &&& t.total_size == s.total_size && t.finished_size == s.finished_size && t.local_done
                    == s.local_done && t.attempt_bytes == s.attempt_bytes && t.transferred == s.transferred
            }
            &&& digest.id == 1 && (s.local_done || kept > s.total_size) ==> t == s && (step matches Err(fault)
                && fault.progress is None)
        }),
{
}

/// The upload is complete exactly when the receiver says that it is done and everything has been sent; a
/// receiver that is done before is an error.
pub proof fn law_upload_is_complete_on_both_sides(s: Push, now: u64, id: i32)
    ensures
        ({
            let (t, step) = push_next(s, now, arrives(PeerMessage::File(FileReply::Done { id })));
            &&& id != 1 ==> t == s && step == Ok::<PushStep, Fault>(PushStep::Wait)
            &&& id == 1 && s.local_done ==> step == Ok::<PushStep, Fault>(PushStep::Done) && t.last_progress == now
                && t.total_size == s.total_size && t.resumed_from == s.resumed_from
            &&& id == 1 && !s.local_done ==> t == s && (step matches Err(fault) && fault.progress is None)
        }),
{
}

/// What the file reader sends is counted: while it reads, the upload is as far as the reader and has moved as
/// many bytes as the reader counted; once it is through, the upload is at the end of the file and has moved all
/// that lies behind the offset from which it was resumed. A new count, and the end, are progress.
pub proof fn law_sent_bytes_are_counted(s: Push, now: u64, transferred: u64, finished: u64, reading: bool)
    ensures
        ({
            let (t, step) = push_next(s, now, PushEvent::Sent { transferred, finished, reading });
            let moved = if reading {
                transferred as int
            } else if s.resumed_from <= s.total_size {
                s.total_size - s.resumed_from
            } else {
                0
            };
            &&& step == Ok::<PushStep, Fault>(PushStep::Wait)
            &&& t.local_done == !reading
            &&& t.finished_size == if reading {
                finished
            } else {
                s.total_size
            }
            &&& t.attempt_bytes as int == if moved > s.attempt_bytes {
                moved
            } else {
                s.attempt_bytes as int
            }
            &&& reading && transferred != s.transferred ==> t.last_progress == now
            &&& !reading ==> t.last_progress == now
            &&& reading && transferred == s.transferred ==> t.last_progress == s.last_progress
            &&& reading ==> t.transferred == transferred
            &&& t.total_size == s.total_size && t.resume == s.resume && t.resumed_from == s.resumed_from
        }),
{
}

/// An error of the device, a refused login and an error box end the upload with the device's words; a probe of
/// the delay is sent back exactly where it is not an answer; no other message does anything.
pub proof fn law_device_errors_end_the_upload(s: Push, now: u64, id: i32, words: String, kind: String)
    ensures
        ({
            let r = push_next(s, now, arrives(PeerMessage::File(FileReply::Error { id, error: words })));
            &&& r.0 == s
            &&& id != 1 ==> r.1 == Ok::<PushStep, Fault>(PushStep::Wait)
            &&& id == 1 ==> r.1 == Err::<PushStep, Fault>(failed("Remote upload failed: "@ + words@))
        }),
        ({
            let r = push_next(s, now, arrives(PeerMessage::Login(crate::message::LoginReply::Error(words))));
            &&& r.0 == s
            &&& words@.len() > 0 ==> r.1 == Err::<PushStep, Fault>(failed("Login failed: "@ + words@))
            &&& words@.len() == 0 ==> r.1 == Ok::<PushStep, Fault>(PushStep::Wait)
        }),
        ({
            let r = push_next(s, now, arrives(PeerMessage::MessageBox { kind, text: words }));
            &&& r.0 == s
            &&& kind@ == "error"@ ==> r.1 == Err::<PushStep, Fault>(failed("Remote upload failed: "@ + words@))
            &&& kind@ != "error"@ ==> r.1 == Ok::<PushStep, Fault>(PushStep::Wait)
        }),
        push_next(s, now, arrives(PeerMessage::TestDelay { from_client: false })) == (
            s,
            Ok::<PushStep, Fault>(PushStep::Echo),
        ),
        push_next(s, now, arrives(PeerMessage::TestDelay { from_client: true })) == (
            s,
            Ok::<PushStep, Fault>(PushStep::Wait),
        ),
        push_next(s, now, arrives(PeerMessage::Other)) == (s, Ok::<PushStep, Fault>(PushStep::Wait)),
{
}

/// A lost connection is reported with how far into the file the upload was, so that it can go on from there.
pub proof fn law_lost_uploads_tell_the_progress(s: Push, now: u64, words: String, sending: PushSend, finished: u64)
    ensures
        push_next(s, now, PushEvent::Incoming(Incoming::Closed)).1 matches Err(fault) && fault.progress == Some(
            s.finished_size,
        ),
        push_next(s, now, PushEvent::Incoming(Incoming::StreamError(words))).1 matches Err(fault) && fault.progress
            == Some(s.finished_size),
        push_next(s, now, PushEvent::Stalled).1 matches Err(fault) && fault.progress == Some(s.finished_size),
        push_next(s, now, PushEvent::ReadFailed(words)).1 matches Err(fault) && fault.progress == Some(s.finished_size),
        push_next(s, now, PushEvent::SendFailed { sending, error: words, finished }).1 matches Err(fault)
            && fault.progress == Some(
            match sending {
                PushSend::Request => 0,
                PushSend::Keepalive => s.finished_size,
                _ => finished,
            },
        ),
        push_next(s, now, PushEvent::Incoming(Incoming::Malformed(words))).1 matches Err(fault) && fault.progress
            is None,
{
}

/// An upload may begin exactly where its source is a regular file with a path in UTF-8 and its destination is
/// named, and it begins with nothing sent.
pub proof fn law_upload_begins(
    local: Seq<char>,
    is_file: Result<bool, Seq<char>>,
    remote: Seq<char>,
    is_utf8: bool,
    total_size: u64,
    resume: bool,
    now: u64,
)
    ensures
        push_paths_fault(local, is_file, remote, is_utf8) is None <==> is_file == Ok::<bool, Seq<char>>(true)
            && remote.len() > 0 && is_utf8,
        push_paths_fault(local, is_file, remote, is_utf8) matches Some(fault) ==> fault.progress is None,
        ({
            let s = push_start(total_size, resume, now);
            &&& s.total_size == total_size && s.resume == resume
            &&& s.finished_size == 0 && s.resumed_from == 0 && s.attempt_bytes == 0 && s.transferred == 0
            &&& !s.local_done
            &&& s.last_progress == now
        }),
{
}

/// What a message means for an upload is seen as what it is.
pub proof fn law_readings_are_seen_as_they_are(m: PushMessage, error: TransferError)
    ensures
        push_reading(Ok(m)) == Ok::<(PushStep, bool, Option<u64>), Fault>((m.step, m.progress, m.offset)),
        push_reading(Err(error)) == Err::<(PushStep, bool, Option<u64>), Fault>(error@),
{
}

/// Every error of an upload says what went wrong: the step at which a connection was lost and how, and what was
/// wrong with a message or the paths, each in its own words.
pub proof fn law_upload_errors_say_what_went_wrong(
    s: Push,
    now: u64,
    words: String,
    finished: u64,
    offset: Option<u32>,
    digest: Digest,
    local: Seq<char>,
    remote: Seq<char>,
    is_utf8: bool,
)
    ensures
        ({
            let after = |event: PushEvent| push_next(s, now, event);
            let read = |incoming: Incoming| after(PushEvent::Incoming(incoming));
            let told = |text: Seq<char>, progress: Option<u64>| (s, Err::<PushStep, Fault>(Fault { text, progress }));
            let unsent = |sending: PushSend| after(PushEvent::SendFailed { sending, error: words, finished });
            &&& read(Incoming::Closed) == told("[push] connection closed by peer"@, Some(s.finished_size))
            &&& read(Incoming::StreamError(words)) == told("[push] stream error: "@ + words@, Some(s.finished_size))
            &&& read(Incoming::Malformed(words)) == told("[push] invalid message: "@ + words@, None)
            &&& after(PushEvent::Stalled) == told(
                "[push] made no progress for "@ + decimal(300) + " seconds"@,
                Some(s.finished_size),
            )
            &&& after(PushEvent::ReadFailed(words)) == told("[push_send] "@ + words@, Some(s.finished_size))
            &&& unsent(PushSend::Request) == told("[push_request] "@ + words@, Some(0))
            &&& unsent(PushSend::Echo) == told("[push_test_delay] "@ + words@, Some(finished))
            &&& unsent(PushSend::Confirmation) == told("[push_confirm] "@ + words@, Some(finished))
            &&& unsent(PushSend::Keepalive) == told("[push_keepalive] "@ + words@, Some(s.finished_size))
        }),
        ({
            let heard = |message: PeerMessage| push_next(s, now, PushEvent::Incoming(Incoming::Message(message))).1;
            let told = |text: Seq<char>| Err::<PushStep, Fault>(Fault { text, progress: None });
            &&& s.local_done ==> heard(PeerMessage::SendConfirm { id: 1, offset }) == told(
                "Push confirmation arrived after the job ended"@,
            )
            &&& s.local_done && digest.id == 1 ==> heard(PeerMessage::File(FileReply::Digest(digest))) == told(
                "Push digest arrived after the job ended"@,
            )
            &&& !s.local_done ==> heard(PeerMessage::File(FileReply::Done { id: 1 })) == told(
                "Remote completed upload before all local data was sent"@,
            )
        }),
        ({
            let fault = |is_file: Result<bool, Seq<char>>| push_paths_fault(local, is_file, remote, is_utf8);
            let told = |text: Seq<char>| Some(Fault { text, progress: None });
            &&& fault(Err(words@)) == told("Cannot read local file "@ + local + ": "@ + words@)
            &&& fault(Ok(false)) == told("Push source is not a file: "@ + local)
            &&& remote.len() == 0 ==> fault(Ok(true)) == told("Remote destination path cannot be empty"@)
            &&& remote.len() > 0 && !is_utf8 ==> fault(Ok(true)) == told("Local source path is not valid UTF-8"@)
        }),
{
    reveal_strlit("[");
    reveal_strlit("push");
    reveal_strlit("push_send");
    reveal_strlit("push_request");
    reveal_strlit("push_test_delay");
    reveal_strlit("push_confirm");
    reveal_strlit("push_keepalive");
    reveal_strlit("] ");
    reveal_strlit(": ");
    reveal_strlit("connection closed by peer");
    reveal_strlit("stream error: ");
    reveal_strlit("made no progress for ");
    reveal_strlit("[push] invalid message");
    reveal_strlit("[push] connection closed by peer");
    reveal_strlit("[push] stream error: ");
    reveal_strlit("[push] invalid message: ");
    reveal_strlit("[push] made no progress for ");
    reveal_strlit("[push_send] ");
    reveal_strlit("[push_request] ");
    reveal_strlit("[push_test_delay] ");
    reveal_strlit("[push_confirm] ");
    reveal_strlit("[push_keepalive] ");
    let w = words@;
    assert("["@ + "push"@ + "] "@ + "connection closed by peer"@ =~= "[push] connection closed by peer"@);
    assert("["@ + "push"@ + "] "@ + ("stream error: "@ + w) =~= "[push] stream error: "@ + w);
    assert("[push] invalid message"@ + ": "@ + w =~= "[push] invalid message: "@ + w);
    assert("["@ + "push"@ + "] "@ + ("made no progress for "@ + decimal(300) + " seconds"@)
        =~= "[push] made no progress for "@ + decimal(300) + " seconds"@);
    assert("["@ + "push_send"@ + "] "@ + w =~= "[push_send] "@ + w);
    assert("["@ + "push_request"@ + "] "@ + w =~= "[push_request] "@ + w);
    assert("["@ + "push_test_delay"@ + "] "@ + w =~= "[push_test_delay] "@ + w);
    assert("["@ + "push_confirm"@ + "] "@ + w =~= "[push_confirm] "@ + w);
    assert("["@ + "push_keepalive"@ + "] "@ + w =~= "[push_keepalive] "@ + w);
}

/// What is no progress leaves the time of the last progress as it is: messages for other jobs, and those that an
/// upload does nothing with.
pub proof fn law_only_progress_counts(s: Push, now: u64, id: i32, offset: Option<u32>, words: String, from_client: bool)
    requires
        id != 1,
    ensures
        ({
            let heard = |message: PeerMessage| push_next(s, now, PushEvent::Incoming(Incoming::Message(message)));
            &&& heard(PeerMessage::SendConfirm { id, offset }) == (s, Ok::<PushStep, Fault>(PushStep::Wait))
            &&& heard(PeerMessage::File(FileReply::Done { id })) == (s, Ok::<PushStep, Fault>(PushStep::Wait))
            &&& heard(PeerMessage::File(FileReply::Error { id, error: words })) == (
                s,
                Ok::<PushStep, Fault>(PushStep::Wait),
            )
            &&& heard(PeerMessage::Other) == (s, Ok::<PushStep, Fault>(PushStep::Wait))
            &&& heard(PeerMessage::TestDelay { from_client }).0 == s
        }),
{
}

/// A message that is not about the upload leaves it as it is, whatever the message is: one of a terminal, of the
/// handshake, of a download, an accepted login, or none of the known.
pub proof fn law_other_messages_leave_the_upload(s: Push, now: u64, message: PeerMessage)
    requires
        match message {
            PeerMessage::TestDelay { from_client } => from_client,
            PeerMessage::SendConfirm { id, offset } => id != 1,
            PeerMessage::File(reply) => reply is Other || reply is Dir || reply is Block,
            PeerMessage::Login(reply) => !(reply is Error),
            PeerMessage::MessageBox { kind, text } => kind@ != "error"@,
            _ => true,
        },
    ensures
        push_next(s, now, PushEvent::Incoming(Incoming::Message(message))) == (s, Ok::<PushStep, Fault>(PushStep::Wait)),
{
}

}
