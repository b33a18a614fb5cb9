//! The download of one file.

use vstd::prelude::*;
use vstd::string::*;

use crate::message::{
    error_box, is_error_box, login_refusal, malformed, malformed_text, refused_login, respond_to_test_delay, Digest,
    Entry, FileReply, Incoming, PeerMessage,
};
use crate::text::{decimal, joined, joined3, joined4, number_text};
use crate::transfer::{
    disconnected, disconnected_at, failed, lost, protocol_resume_offset, report, resume_offset, stall_message,
    stall_text, stall_time, stalled_at, Fault, FileTransferStats, TransferError, FILE_JOB_ID,
};

verus! {

// ---------------------------------------------------------------------------
// Before the download
// ---------------------------------------------------------------------------

/// What is wrong with the two paths of a download: the source must be named, the destination must not be a
/// directory and its path must be UTF-8.
pub open spec fn pull_paths_fault(remote: Seq<char>, local: Seq<char>, is_dir: bool, is_utf8: bool) -> Option<Fault> {
    if remote.len() == 0 {
        Some(failed("Remote source path cannot be empty"@))
    } else if is_dir {
        Some(failed("Pull destination is a directory: "@ + local))
    } else if !is_utf8 {
        Some(failed("Local destination path is not valid UTF-8"@))
    } else {
        None
    }
}

/// Checks the paths of a download. `is_dir` is what the file system says of the destination.
pub fn check_pull_paths(remote: &str, local: &str, is_dir: bool, is_utf8: bool) -> (r: Result<(), TransferError>)
    ensures
        match pull_paths_fault(remote@, local@, is_dir, is_utf8) {
            Some(fault) => report(r) == Err::<(), Fault>(fault),
            None => r is Ok,
        },
{
    if remote.is_empty() {
        Err(TransferError::Failed("Remote source path cannot be empty".to_owned()))
    } else if is_dir {
        Err(TransferError::Failed(joined("Pull destination is a directory: ", local)))
    } else if !is_utf8 {
        Err(TransferError::Failed("Local destination path is not valid UTF-8".to_owned()))
    } else {
        Ok(())
    }
}

// ---------------------------------------------------------------------------
// The download
// ---------------------------------------------------------------------------

/// A download that is under way. Times are in milliseconds on its own clock.
#[derive(Clone, Copy, Debug, PartialEq, Eq, Structural)]
pub struct Pull {
    /// The remote device keeps partial files, and so does this one.
    pub resume: bool,
    /// The size of the file, once the peer has told it.
    pub expected_size: Option<u64>,
    /// The offset from which the download was resumed.
    pub resumed_from: u64,
    /// The bytes that came over this connection.
    pub attempt_bytes: u64,
    /// When the download last progressed.
    pub last_progress: u64,
}

/// What was being sent when sending failed.
#[derive(Clone, Copy, Debug, PartialEq, Eq, Structural)]
pub enum PullSend {
    Request,
    Echo,
    Confirmation,
    Keepalive,
}

/// A partial file that is already here: whether it is the beginning of the file in question, and its size.
#[derive(Clone, Copy, Debug, PartialEq, Eq, Structural)]
pub struct Partial {
    pub is_identical: bool,
    pub transferred_size: u64,
}

/// What happens to a download.
pub enum PullEvent {
    /// Something arrived, or the connection ended, while the file writer stood at `finished`.
    Incoming { incoming: Incoming, finished: u64 },
    /// The file writer compared the peer's digest with what is here: with a partial file, or with none.
    Compared { file_num: i32, file_size: u64, partial: Option<Partial> },
    /// The file writer failed.
    WriteFailed(String),
    /// A message could not be sent while the file writer stood at `finished`.
    SendFailed { sending: PullSend, error: String, finished: u64 },
    /// The time for which the download may stall is over, and the file writer stands at `finished`.
    Stalled { finished: u64 },
}

/// What a download does next.
#[derive(Clone, Copy, Debug, PartialEq, Eq, Structural)]
pub enum PullStep {
    /// Wait for the next event.
    Wait,
    /// Send the probe of the delay back.
    Echo,
    /// Have the file writer expect the one file of the listing.
    Expect,
    /// Have the file writer compare the digest with what is here.
    Compare,
    /// Have the file writer start at `offset`, and confirm this to the peer.
    Confirm { file_num: i32, offset: u32 },
    /// Have the file writer write the block.
    Write,
    /// The download is complete: so large is the file.
    Done { size: u64 },
}

/// The size that a listing of one regular file gives.
pub open spec fn listed_size(s: Pull, entries: Seq<Entry>) -> Result<u64, Fault> {
    if s.expected_size is Some {
        Err(failed("Remote sent duplicate file metadata for pull job"@))
    } else if entries.len() != 1 {
        Err(
            failed(
                "Pull supports one file, but the remote path contains "@ + decimal(entries.len()) + " entries"@,
            ),
        )
    } else if !entries[0].is_file {
        Err(failed("Remote source is not a regular file"@))
    } else {
        Ok(entries[0].size)
    }
}

/// The offset from which a download goes on: that of a partial file that is the beginning of the file and
/// no larger than it, else zero.
pub open spec fn start_offset(file_size: u64, partial: Option<Partial>) -> u32 {
    match partial {
        Some(p) => if p.is_identical && 0 < p.transferred_size <= file_size {
            match resume_offset(p.transferred_size, file_size) {
                Ok(offset) => offset,
                Err(_) => 0,
            }
        } else {
            0
        },
        None => 0,
    }
}

/// What a message means for a download at `now`.
pub open spec fn pull_message(s: Pull, now: u64, message: PeerMessage) -> (Pull, Result<PullStep, Fault>) {
    match message {
        PeerMessage::TestDelay { from_client } => if from_client {
            (s, Ok(PullStep::Wait))
        } else {
            (s, Ok(PullStep::Echo))
        },
        PeerMessage::File(FileReply::Dir { id, entries }) => if id != FILE_JOB_ID {
            (s, Ok(PullStep::Wait))
        } else {
            match listed_size(s, entries@) {
                Ok(size) => (Pull { expected_size: Some(size), last_progress: now, ..s }, Ok(PullStep::Expect)),
                Err(fault) => (s, Err(fault)),
            }
        },
        PeerMessage::File(FileReply::Digest(digest)) => if digest.id != FILE_JOB_ID {
            (s, Ok(PullStep::Wait))
        } else {
            (s, Ok(PullStep::Compare))
        },
        PeerMessage::File(FileReply::Block { id, bytes }) => if id != FILE_JOB_ID {
            (s, Ok(PullStep::Wait))
        } else if s.expected_size is None {
            (s, Err(failed("Remote sent file data before file metadata"@)))
        } else {
            (
                Pull {
                    attempt_bytes: if bytes > u64::MAX - s.attempt_bytes {
                        u64::MAX
                    } else {
                        (s.attempt_bytes + bytes) as u64
                    },
                    last_progress: now,
                    ..s
                },
                Ok(PullStep::Write),
            )
        },
        PeerMessage::File(FileReply::Done { id }) => if id != FILE_JOB_ID {
            (s, Ok(PullStep::Wait))
        } else {
            match s.expected_size {
                Some(size) => (s, Ok(PullStep::Done { size })),
                None => (s, Err(failed("Remote completed pull without file metadata"@))),
            }
        },
        PeerMessage::File(FileReply::Error { id, error }) => if id != FILE_JOB_ID {
            (s, Ok(PullStep::Wait))
        } else {
            (s, Err(failed("Remote download failed: "@ + error@)))
        },
        PeerMessage::Login(reply) => match login_refusal(reply) {
            Some(text) => (s, Err(failed(text))),
            None => (s, Ok(PullStep::Wait)),
        },
        PeerMessage::MessageBox { kind, text } => if is_error_box(kind@) {
            (s, Err(failed("Remote download failed: "@ + text@)))
        } else {
            (s, Ok(PullStep::Wait))
        },
        _ => (s, Ok(PullStep::Wait)),
    }
}

/// How a failure to send ends a download.
pub open spec fn pull_send_fault(sending: PullSend, error: Seq<char>, finished: u64) -> Fault {
    match sending {
        PullSend::Request => lost("pull_request"@, error, 0),
        PullSend::Echo => lost("pull_test_delay"@, error, finished),
        PullSend::Confirmation => lost("pull_confirm"@, error, finished),
        PullSend::Keepalive => lost("pull_keepalive"@, error, finished),
    }
}

/// A download after an event at `now`, and what it does next. An error leaves it as it was.
pub open spec fn pull_next(s: Pull, now: u64, event: PullEvent) -> (Pull, Result<PullStep, Fault>) {
    match event {
        PullEvent::Incoming { incoming: Incoming::Message(message), finished } => pull_message(s, now, message),
        PullEvent::Incoming { incoming: Incoming::Malformed(error), finished } => (
            s,
            Err(failed(malformed_text("[pull] invalid message"@, error@))),
        ),
        PullEvent::Incoming { incoming: Incoming::StreamError(error), finished } => (
            s,
            Err(lost("pull"@, "stream error: "@ + error@, finished)),
        ),
        PullEvent::Incoming { incoming: Incoming::Closed, finished } => (
            s,
            Err(lost("pull"@, "connection closed by peer"@, finished)),
        ),
        PullEvent::Compared { file_num, file_size, partial } => {
            let offset = start_offset(file_size, partial);
            (
                Pull {
                    resumed_from: if offset as u64 > s.resumed_from {
                        offset as u64
                    } else {
                        s.resumed_from
                    },
                    last_progress: now,
                    ..s
                },
                Ok(PullStep::Confirm { file_num, offset }),
            )
        },
        PullEvent::WriteFailed(error) => (s, Err(failed(error@))),
        PullEvent::SendFailed { sending, error, finished } => (
            s,
            Err(pull_send_fault(sending, error@, finished)),
        ),
        PullEvent::Stalled { finished } => (s, Err(lost("pull"@, stall_text(), finished))),
    }
}

/// A download that begins at `now`.
pub open spec fn pull_start(resume: bool, now: u64) -> Pull {
    Pull { resume, expected_size: None, resumed_from: 0, attempt_bytes: 0, last_progress: now }
}

impl Pull {
    /// A download that begins at `now`.
    pub fn start(resume: bool, now: u64) -> (s: Pull)
        ensures
            s == pull_start(resume, now),
    {
        Pull { resume, expected_size: None, resumed_from: 0, attempt_bytes: 0, last_progress: now }
    }

    /// When the download counts as stalled, unless it progresses before.
    pub fn deadline(&self) -> (at: u64)
        ensures
            at == stalled_at(self.last_progress),
    {
        stall_time(self.last_progress)
    }

    fn listed(&self, entries: &Vec<Entry>) -> (r: Result<u64, TransferError>)
        ensures
            report(r) == listed_size(*self, entries@),
    {
        if self.expected_size.is_some() {
            return Err(TransferError::Failed("Remote sent duplicate file metadata for pull job".to_owned()));
        }
        if entries.len() != 1 {
            return Err(
                TransferError::Failed(
                    joined3(
                        "Pull supports one file, but the remote path contains ",
                        number_text(entries.len() as u64).as_str(),
                        " entries",
                    ),
                ),
            );
        }
        if !entries[0].is_file {
            return Err(TransferError::Failed("Remote source is not a regular file".to_owned()));
        }
        Ok(entries[0].size)
    }

    fn message(&mut self, now: u64, message: &PeerMessage) -> (r: Result<PullStep, TransferError>)
        ensures
            (*final(self), report(r)) == pull_message(*old(self), now, *message),
    {
        match message {
            PeerMessage::TestDelay { from_client } => {
                if respond_to_test_delay(*from_client) {
                    Ok(PullStep::Echo)
                } else {
                    Ok(PullStep::Wait)
                }
            },
            PeerMessage::File(FileReply::Dir { id, entries }) => {
                if *id != FILE_JOB_ID {
                    return Ok(PullStep::Wait);
                }
                match self.listed(entries) {
                    Ok(size) => {
                        self.expected_size = Some(size);
                        self.last_progress = now;
                        Ok(PullStep::Expect)
                    },
                    Err(error) => Err(error),
                }
            },
            PeerMessage::File(FileReply::Digest(digest)) => {
                if digest.id != FILE_JOB_ID {
                    Ok(PullStep::Wait)
                } else {
                    Ok(PullStep::Compare)
                }
            },
            PeerMessage::File(FileReply::Block { id, bytes }) => {
                if *id != FILE_JOB_ID {
                    Ok(PullStep::Wait)
                } else if self.expected_size.is_none() {
                    Err(TransferError::Failed("Remote sent file data before file metadata".to_owned()))
                } else {
                    if *bytes > u64::MAX - self.attempt_bytes {
                        self.attempt_bytes = u64::MAX;
                    } else {
                        self.attempt_bytes = self.attempt_bytes + *bytes;
                    }
                    self.last_progress = now;
                    Ok(PullStep::Write)
                }
            },
            PeerMessage::File(FileReply::Done { id }) => {
                if *id != FILE_JOB_ID {
                    return Ok(PullStep::Wait);
                }
                match self.expected_size {
                    Some(size) => Ok(PullStep::Done { size }),
                    None => Err(TransferError::Failed("Remote completed pull without file metadata".to_owned())),
                }
            },
            PeerMessage::File(FileReply::Error { id, error }) => {
                if *id != FILE_JOB_ID {
                    Ok(PullStep::Wait)
                } else {
                    Err(TransferError::Failed(joined("Remote download failed: ", error.as_str())))
                }
            },
            PeerMessage::Login(reply) => match refused_login(reply) {
                Some(text) => Err(TransferError::Failed(text)),
                None => Ok(PullStep::Wait),
            },
            PeerMessage::MessageBox { kind, text } => {
                if error_box(kind.as_str()) {
                    Err(TransferError::Failed(joined("Remote download failed: ", text.as_str())))
                } else {
                    Ok(PullStep::Wait)
                }
            },
            _ => Ok(PullStep::Wait),
        }
    }

    /// Takes an event at `now` and gives what to do next.
    pub fn step(&mut self, now: u64, event: &PullEvent) -> (r: Result<PullStep, TransferError>)
        ensures
            (*final(self), report(r)) == pull_next(*old(self), now, *event),
    {
        match event {
            PullEvent::Incoming { incoming, finished } => match incoming {
                Incoming::Message(message) => self.message(now, message),
                Incoming::Malformed(error) => Err(
                    TransferError::Failed(malformed("[pull] invalid message", error.as_str())),
                ),
                Incoming::StreamError(error) => Err(
                    disconnected_at("pull", joined("stream error: ", error.as_str()).as_str(), *finished),
                ),
                Incoming::Closed => Err(disconnected_at("pull", "connection closed by peer", *finished)),
            },
            PullEvent::Compared { file_num, file_size, partial } => {
                let mut offset: u32 = 0;
                if let Some(p) = partial {
                    if p.is_identical && 0 < p.transferred_size && p.transferred_size <= *file_size {
                        match protocol_resume_offset(p.transferred_size, *file_size) {
                            Ok(o) => {
                                offset = o;
                            },
                            Err(error) => {
                                return Err(error);
                            },
                        }
                    }
                }
                if offset as u64 > self.resumed_from {
                    self.resumed_from = offset as u64;
                }
                self.last_progress = now;
                Ok(PullStep::Confirm { file_num: *file_num, offset })
            },
            PullEvent::WriteFailed(error) => Err(TransferError::Failed(error.as_str().to_owned())),
            PullEvent::SendFailed { sending, error, finished } => Err(
                match sending {
                    PullSend::Request => disconnected("pull_request", error.as_str()),
                    PullSend::Echo => disconnected_at("pull_test_delay", error.as_str(), *finished),
                    PullSend::Confirmation => disconnected_at("pull_confirm", error.as_str(), *finished),
                    PullSend::Keepalive => disconnected_at("pull_keepalive", error.as_str(), *finished),
                },
            ),
            PullEvent::Stalled { finished } => Err(
                disconnected_at("pull", stall_message().as_str(), *finished),
            ),
        }
    }

    /// Whether the partial file goes away when the download fails: only where it could not be resumed.
    pub fn drops_partial(&self) -> (r: bool)
        ensures
            r == !self.resume,
    {
        !self.resume
    }

    /// Compares the file that a complete download of `size` bytes left at `local` with what was expected.
    /// `found` is what the file system says of it: whether it is a file, and its size.
    pub fn finish(&self, local: &str, size: u64, found: &Result<(bool, u64), String>) -> (r: Result<
        FileTransferStats,
        TransferError,
    >)
        ensures
            report(r) == download_outcome(*self, local@, size, crate::text::told(*found)),
    {
        match found {
            Err(error) => Err(
                TransferError::Failed(
                    joined4("Downloaded file was not finalized at ", local, ": ", error.as_str()),
                ),
            ),
            Ok((is_file, len)) => {
                if !*is_file || *len != size {
                    let mut text = joined4(
                        "Downloaded file size mismatch at ",
                        local,
                        ": expected ",
                        number_text(size).as_str(),
                    );
                    text.append(", got ");
                    text.append(number_text(*len).as_str());
                    Err(TransferError::Failed(text))
                } else {
                    Ok(FileTransferStats { bytes: size, resumed_from: self.resumed_from })
                }
            },
        }
    }
}

/// How a complete download of `size` bytes ends, given what the file system says of the file: a regular
/// file of that size is a success.
pub open spec fn download_outcome(
    s: Pull,
    local: Seq<char>,
    size: u64,
    found: Result<(bool, u64), Seq<char>>,
) -> Result<FileTransferStats, Fault> {
    match found {
        Err(error) => Err(failed("Downloaded file was not finalized at "@ + local + ": "@ + error)),
        Ok((is_file, len)) => if is_file && len == size {
            Ok(FileTransferStats { bytes: size, resumed_from: s.resumed_from })
        } else {
            Err(
                failed(
                    "Downloaded file size mismatch at "@ + local + ": expected "@ + decimal(size as nat)
                        + ", got "@ + decimal(len as nat),
                ),
            )
        },
    }
}

// ---------------------------------------------------------------------------
// Laws
// ---------------------------------------------------------------------------

/// A download after a sequence of events, each with its time.
pub open spec fn pull_after(s: Pull, events: Seq<(u64, PullEvent)>) -> Pull
    decreases events.len(),
{
    if events.len() == 0 {
        s
    } else {
        pull_next(pull_after(s, events.drop_last()), events.last().0, events.last().1).0
    }
}

/// The size of the file is settled once: after any events that follow, it is what it was.
pub proof fn law_pull_size_is_settled_once(s: Pull, events: Seq<(u64, PullEvent)>)
    requires
        s.expected_size is Some,
    ensures
        pull_after(s, events).expected_size == s.expected_size,
    decreases events.len(),
{
    if events.len() > 0 {
        law_pull_size_is_settled_once(s, events.drop_last());
    }
}

/// Whatever happens to a download, the offset from which it was resumed is one that the protocol can name,
/// and whether it can be resumed stays what it was.
pub proof fn law_pull_stays_valid(resume: bool, start: u64, events: Seq<(u64, PullEvent)>)
    ensures
        pull_after(pull_start(resume, start), events).resumed_from <= u32::MAX,
        pull_after(pull_start(resume, start), events).resume == resume,
    decreases events.len(),
{
    if events.len() > 0 {
        law_pull_stays_valid(resume, start, events.drop_last());
    }
}

/// A download resumes within what is here and within the file, and starts over where what is here is not
/// the beginning of the file.
pub proof fn law_pull_offset(file_size: u64, partial: Option<Partial>)
    ensures
        start_offset(file_size, partial) <= file_size,
        partial matches Some(p) ==> start_offset(file_size, partial) <= p.transferred_size,
        partial is None ==> start_offset(file_size, partial) == 0,
        partial matches Some(p) ==> (!p.is_identical || p.transferred_size > file_size ==> start_offset(
            file_size,
            partial,
        ) == 0),
{
}

/// Data are written, and a download completes, only once the size of the file is known.
pub proof fn law_pull_needs_metadata(s: Pull, now: u64, event: PullEvent)
    requires
        pull_next(s, now, event).1 matches Ok(step) && (step is Write || step is Done),
    ensures
        s.expected_size is Some,
        pull_next(s, now, event).1 matches Ok(PullStep::Done { size }) ==> s.expected_size == Some(size),
{
}

/// A download succeeds only with a regular file of the size that the peer told.
pub proof fn law_pull_success_is_the_whole_file(
    s: Pull,
    local: Seq<char>,
    size: u64,
    found: Result<(bool, u64), Seq<char>>,
)
    requires
        download_outcome(s, local, size, found) is Ok,
    ensures
        found == Ok::<(bool, u64), Seq<char>>((true, size)),
        download_outcome(s, local, size, found) matches Ok(stats) && stats.bytes == size && stats.resumed_from
            == s.resumed_from,
{
}

/// Only the loss of the connection counts as a disconnect: its end, a failure to send over it, or a stall.
pub proof fn law_pull_disconnects(s: Pull, now: u64, event: PullEvent)
    ensures
        pull_next(s, now, event).1 matches Err(fault) ==> (fault.progress is Some <==> (event
            matches PullEvent::Incoming { incoming: Incoming::StreamError(_), finished } || event
            matches PullEvent::Incoming { incoming: Incoming::Closed, finished } || event is SendFailed || event
            is Stalled)),
{
}

/// The time at which a download counts as stalled moves only when an event makes progress, and then it is
/// 300 seconds after that event.
pub proof fn law_pull_stall_time(s: Pull, now: u64, event: PullEvent)
    ensures
        ({
            let t = pull_next(s, now, event).0;
            t.last_progress == s.last_progress || t.last_progress == now
        }),
        now <= u64::MAX - 300_000 && pull_next(s, now, event).0.last_progress == now ==> stalled_at(
            pull_next(s, now, event).0.last_progress,
        ) == now + 300_000,
{
}

/// The message says of the downloaded file itself what can end the download, or that the device has failed.
pub open spec fn pull_can_end(message: PeerMessage) -> bool {
    match message {
        PeerMessage::File(FileReply::Dir { id, .. }) => id == FILE_JOB_ID,
        PeerMessage::File(FileReply::Block { id, .. }) => id == FILE_JOB_ID,
        PeerMessage::File(FileReply::Done { id }) => id == FILE_JOB_ID,
        PeerMessage::File(FileReply::Error { id, .. }) => id == FILE_JOB_ID,
        PeerMessage::Login(reply) => login_refusal(reply) is Some,
        PeerMessage::MessageBox { kind, .. } => is_error_box(kind@),
        _ => false,
    }
}

/// A download goes on whatever else happens: only an error or a stall ends it, however long it takes. Once
/// the size of the file is known, no block of it ends it.
pub proof fn law_pull_ends_for_a_reason(s: Pull, now: u64, event: PullEvent)
    ensures
        event is Compared ==> pull_next(s, now, event).1 is Ok,
        event matches PullEvent::Incoming { incoming: Incoming::Message(message), finished } ==> (!pull_can_end(
            message,
        ) ==> pull_next(s, now, event).1 is Ok),
        s.expected_size is Some ==> (event matches PullEvent::Incoming {
            incoming: Incoming::Message(PeerMessage::File(FileReply::Block { id, bytes })),
            finished,
        } ==> pull_next(s, now, event).1 is Ok),
{
}

/// A message that arrives.
pub open spec fn arrives(message: PeerMessage, finished: u64) -> PullEvent {
    PullEvent::Incoming { incoming: Incoming::Message(message), finished }
}

/// The first listing of one regular file settles the size of the download: it is the size of that file, as the
/// device told it. Any other listing for the download is an error, and one for another job changes nothing.
pub proof fn law_listing_settles_the_size(s: Pull, now: u64, id: i32, entries: Vec<Entry>, finished: u64)
    ensures
        ({
            let (t, step) = pull_next(s, now, arrives(PeerMessage::File(FileReply::Dir { id, entries }), finished));
            &&& id != 1 ==> t == s && step == Ok::<PullStep, Fault>(PullStep::Wait)
            &&& id == 1 && s.expected_size is None && entries@.len() == 1 && entries@[0].is_file ==> {
                &&& step == Ok::<PullStep, Fault>(PullStep::Expect)
                &&& t.expected_size == Some(entries@[0].size)
                &&& t.last_progress == now
                &&& t.resume == s.resume && t.resumed_from == s.resumed_from && t.attempt_bytes == s.attempt_bytes
            }
            &&& id == 1 && (s.expected_size is Some || entries@.len() != 1 || !entries@[0].is_file) ==> t == s && (step
                matches Err(fault) && fault.progress is None)
        }),
{
}

/// A download that completes does so with the size that the device listed: from the listing on, whatever else
/// happens, the end of the download reports that size, and a regular file of that size is a success that
/// reports it.
pub proof fn law_download_completes_with_the_listed_size(
    s: Pull,
    at: u64,
    entries: Vec<Entry>,
    finished: u64,
    events: Seq<(u64, PullEvent)>,
    now: u64,
    last: u64,
    local: Seq<char>,
)
    requires
        s.expected_size is None,
        entries@.len() == 1,
        entries@[0].is_file,
    ensures
        ({
            let listed = pull_next(s, at, arrives(PeerMessage::File(FileReply::Dir { id: 1, entries }), finished)).0;
            let t = pull_after(listed, events);
            let size = entries@[0].size;
            &&& t.expected_size == Some(size)
            &&& pull_next(t, now, arrives(PeerMessage::File(FileReply::Done { id: 1 }), last)).1 == Ok::<
                PullStep,
                Fault,
            >(PullStep::Done { size })
            &&& download_outcome(t, local, size, Ok((true, size))) == Ok::<FileTransferStats, Fault>(
                FileTransferStats { bytes: size, resumed_from: t.resumed_from },
            )
        }),
{
    let listed = pull_next(s, at, arrives(PeerMessage::File(FileReply::Dir { id: 1, entries }), finished)).0;
    law_listing_settles_the_size(s, at, 1, entries, finished);
    law_pull_size_is_settled_once(listed, events);
}

/// Blocks of the file are written one by one and counted, each is progress; the end of the file completes the
/// download. Both need the listing first, and neither is about another job.
pub proof fn law_blocks_are_written_and_counted(s: Pull, now: u64, id: i32, bytes: u64, finished: u64)
    ensures
        ({
            let (t, step) = pull_next(s, now, arrives(PeerMessage::File(FileReply::Block { id, bytes }), finished));
            &&& id != 1 ==> t == s && step == Ok::<PullStep, Fault>(PullStep::Wait)
            &&& id == 1 && s.expected_size is None ==> t == s && step is Err
            &&& id == 1 && s.expected_size is Some ==> {
                &&& step == Ok::<PullStep, Fault>(PullStep::Write)
                &&& t.last_progress == now
                &&& s.attempt_bytes + bytes <= u64::MAX ==> t.attempt_bytes == s.attempt_bytes + bytes
                &&& s.attempt_bytes + bytes > u64::MAX ==> t.attempt_bytes == u64::MAX
                &&& t.expected_size == s.expected_size && t.resumed_from == s.resumed_from && t.resume == s.resume
            }
        }),
        ({
            let (t, step) = pull_next(s, now, arrives(PeerMessage::File(FileReply::Done { id }), finished));
            &&& t == s
            &&& id != 1 ==> step == Ok::<PullStep, Fault>(PullStep::Wait)
            &&& id == 1 ==> match s.expected_size {
                Some(size) => step == Ok::<PullStep, Fault>(PullStep::Done { size }),
                None => step matches Err(fault) && fault.progress is None,
            }
        }),
{
}

/// What the device says of a file is compared with what is here, and the download goes on after as much of it
/// as is here already: after a partial file that is a true beginning of the file, up to the largest offset that
/// fits in 32 bits, and from the beginning of the file otherwise. The device is told the file and the offset.
pub proof fn law_download_goes_on_after_what_is_here(
    s: Pull,
    now: u64,
    digest: Digest,
    finished: u64,
    file_num: i32,
    file_size: u64,
    partial: Option<Partial>,
)
    ensures
        ({
            let (t, step) = pull_next(s, now, arrives(PeerMessage::File(FileReply::Digest(digest)), finished));
            &&& t == s
            &&& step == Ok::<PullStep, Fault>(
                if digest.id == 1 {
                    PullStep::Compare
                } else {
                    PullStep::Wait
                },
            )
        }),
        ({
            let (t, step) = pull_next(s, now, PullEvent::Compared { file_num, file_size, partial });
            let kept = match partial {
                Some(p) => if p.is_identical && p.transferred_size <= file_size {
                    p.transferred_size as int
                } else {
                    0
                },
                None => 0,
            };
            &&& step matches Ok(PullStep::Confirm { file_num: told, offset }) && told == file_num && offset as int == (
            if kept <= 0xffff_ffff {
                kept
            } else {
                0xffff_ffff
            }) && t.resumed_from as int == (if offset > s.resumed_from {
                offset as int
            } else {
                s.resumed_from as int
            })
            &&& t.last_progress == now
            &&& t.expected_size == s.expected_size && t.attempt_bytes == s.attempt_bytes && t.resume == s.resume
        }),
{
}

/// An error of the device, a refused login and an error box end the download with the device's words; a probe
/// of the delay is sent back exactly where it is not an answer; no other message does anything.
pub proof fn law_device_errors_end_the_download(s: Pull, now: u64, id: i32, words: String, kind: String, finished: u64)
    ensures
        ({
            let r = pull_next(s, now, arrives(PeerMessage::File(FileReply::Error { id, error: words }), finished));
            &&& r.0 == s
            &&& id != 1 ==> r.1 == Ok::<PullStep, Fault>(PullStep::Wait)
            &&& id == 1 ==> r.1 == Err::<PullStep, Fault>(failed("Remote download failed: "@ + words@))
        }),
        ({
            let r = pull_next(
                s,
                now,
                arrives(PeerMessage::Login(crate::message::LoginReply::Error(words)), finished),
            );
            &&& r.0 == s
            &&& words@.len() > 0 ==> r.1 == Err::<PullStep, Fault>(failed("Login failed: "@ + words@))
            &&& words@.len() == 0 ==> r.1 == Ok::<PullStep, Fault>(PullStep::Wait)
        }),
        ({
            let r = pull_next(s, now, arrives(PeerMessage::MessageBox { kind, text: words }, finished));
            &&& r.0 == s
            &&& kind@ == "error"@ ==> r.1 == Err::<PullStep, Fault>(failed("Remote download failed: "@ + words@))
            &&& kind@ != "error"@ ==> r.1 == Ok::<PullStep, Fault>(PullStep::Wait)
        }),
        pull_next(s, now, arrives(PeerMessage::TestDelay { from_client: false }, finished)) == (
            s,
            Ok::<PullStep, Fault>(PullStep::Echo),
        ),
        pull_next(s, now, arrives(PeerMessage::TestDelay { from_client: true }, finished)) == (
            s,
            Ok::<PullStep, Fault>(PullStep::Wait),
        ),
        pull_next(s, now, arrives(PeerMessage::Other, finished)) == (s, Ok::<PullStep, Fault>(PullStep::Wait)),
{
}

/// A lost connection is reported with as much as the file writer had by then, or nothing where the request
/// itself was lost, so that the download can go on from there; a failure to write is not one.
pub proof fn law_lost_downloads_tell_the_progress(
    s: Pull,
    now: u64,
    words: String,
    sending: PullSend,
    finished: u64,
)
    ensures
        pull_next(s, now, PullEvent::Incoming { incoming: Incoming::Closed, finished }).1 matches Err(fault)
            && fault.progress == Some(finished),
        pull_next(s, now, PullEvent::Incoming { incoming: Incoming::StreamError(words), finished }).1 matches Err(fault)
            && fault.progress == Some(finished),
        pull_next(s, now, PullEvent::Stalled { finished }).1 matches Err(fault) && fault.progress == Some(finished),
        pull_next(s, now, PullEvent::SendFailed { sending, error: words, finished }).1 matches Err(fault)
            && fault.progress == Some(
            if sending is Request {
                0
            } else {
                finished
            },
        ),
        pull_next(s, now, PullEvent::WriteFailed(words)).1 == Err::<PullStep, Fault>(failed(words@)),
        pull_next(s, now, PullEvent::Incoming { incoming: Incoming::Malformed(words), finished }).1 matches Err(fault)
            && fault.progress is None,
{
}

/// A download may begin exactly where its source is named and its destination is a path in UTF-8 that is no
/// directory, and it begins with nothing.
pub proof fn law_download_begins(
    remote: Seq<char>,
    local: Seq<char>,
    is_dir: bool,
    is_utf8: bool,
    resume: bool,
    now: u64,
)
    ensures
        pull_paths_fault(remote, local, is_dir, is_utf8) is None <==> remote.len() > 0 && !is_dir && is_utf8,
        pull_paths_fault(remote, local, is_dir, is_utf8) matches Some(fault) ==> fault.progress is None,
        ({
            let s = pull_start(resume, now);
            &&& s.resume == resume
            &&& s.expected_size is None
            &&& s.resumed_from == 0 && s.attempt_bytes == 0
            &&& s.last_progress == now
        }),
{
}

/// Only a regular file of the expected size is a complete download; anything else on disk, or nothing, is an
/// error that no new connection can mend.
pub proof fn law_only_the_whole_file_is_a_success(
    s: Pull,
    local: Seq<char>,
    size: u64,
    found: Result<(bool, u64), Seq<char>>,
)
    ensures
        download_outcome(s, local, size, found) is Ok <==> found == Ok::<(bool, u64), Seq<char>>((true, size)),
        download_outcome(s, local, size, found) matches Err(fault) ==> fault.progress is None,
{
}

/// Every error of a download says what went wrong: the step at which a connection was lost and how, and what was
/// wrong with a listing, a message, the paths or the file that came out, each in its own words.
pub proof fn law_download_errors_say_what_went_wrong(
    s: Pull,
    now: u64,
    words: String,
    entries: Vec<Entry>,
    finished: u64,
    remote: Seq<char>,
    local: Seq<char>,
    size: u64,
    is_file: bool,
    len: u64,
)
    ensures
        ({
            let after = |event: PullEvent| pull_next(s, now, event);
            let read = |incoming: Incoming| after(PullEvent::Incoming { incoming, finished });
            let told = |text: Seq<char>, progress: Option<u64>| (s, Err::<PullStep, Fault>(Fault { text, progress }));
            let unsent = |sending: PullSend| after(PullEvent::SendFailed { sending, error: words, finished });
            &&& read(Incoming::Closed) == told("[pull] connection closed by peer"@, Some(finished))
            &&& read(Incoming::StreamError(words)) == told("[pull] stream error: "@ + words@, Some(finished))
            &&& read(Incoming::Malformed(words)) == told("[pull] invalid message: "@ + words@, None)
            &&& after(PullEvent::Stalled { finished }) == told(
                "[pull] made no progress for "@ + decimal(300) + " seconds"@,
                Some(finished),
            )
            &&& unsent(PullSend::Request) == told("[pull_request] "@ + words@, Some(0))
            &&& unsent(PullSend::Echo) == told("[pull_test_delay] "@ + words@, Some(finished))
            &&& unsent(PullSend::Confirmation) == told("[pull_confirm] "@ + words@, Some(finished))
            &&& unsent(PullSend::Keepalive) == told("[pull_keepalive] "@ + words@, Some(finished))
        }),
        ({
            let listed = pull_next(s, now, arrives(PeerMessage::File(FileReply::Dir { id: 1, entries }), finished)).1;
            let told = |text: Seq<char>| listed == Err::<PullStep, Fault>(Fault { text, progress: None });
            if s.expected_size is Some {
                told("Remote sent duplicate file metadata for pull job"@)
            } else if entries@.len() != 1 {
                told("Pull supports one file, but the remote path contains "@ + decimal(entries@.len()) + " entries"@)
            } else {
                !entries@[0].is_file ==> told("Remote source is not a regular file"@)
            }
        }),
        s.expected_size is None ==> pull_next(
            s,
            now,
            arrives(PeerMessage::File(FileReply::Block { id: 1, bytes: size }), finished),
        ).1 == Err::<PullStep, Fault>(
            Fault { text: "Remote sent file data before file metadata"@, progress: None },
        ),
        s.expected_size is None ==> pull_next(
            s,
            now,
            arrives(PeerMessage::File(FileReply::Done { id: 1 }), finished),
        ).1 == Err::<PullStep, Fault>(
            Fault { text: "Remote completed pull without file metadata"@, progress: None },
        ),
        ({
            let fault = |is_dir: bool, is_utf8: bool| pull_paths_fault(remote, local, is_dir, is_utf8);
            let told = |text: Seq<char>| Some(Fault { text, progress: None });
            if remote.len() == 0 {
                fault(is_file, true) == told("Remote source path cannot be empty"@)
            } else {
                fault(true, is_file) == told("Pull destination is a directory: "@ + local) && fault(false, false)
                    == told("Local destination path is not valid UTF-8"@)
            }
        }),
        download_outcome(s, local, size, Err(words@)) == Err::<FileTransferStats, Fault>(
            Fault { text: "Downloaded file was not finalized at "@ + local + ": "@ + words@, progress: None },
        ),
        !is_file || len != size ==> download_outcome(s, local, size, Ok((is_file, len))) == Err::<
            FileTransferStats,
            Fault,
        >(
            Fault {
                text: "Downloaded file size mismatch at "@ + local + ": expected "@ + decimal(size as nat) + ", got "@
                    + decimal(len as nat),
                progress: None,
            },
        ),
{
    reveal_strlit("[");
    reveal_strlit("pull");
    reveal_strlit("pull_request");
    reveal_strlit("pull_test_delay");
    reveal_strlit("pull_confirm");
    reveal_strlit("pull_keepalive");
    reveal_strlit("] ");
    reveal_strlit(": ");
    reveal_strlit("connection closed by peer");
    reveal_strlit("stream error: ");
    reveal_strlit("made no progress for ");
    reveal_strlit("[pull] invalid message");
    reveal_strlit("[pull] connection closed by peer");
    reveal_strlit("[pull] stream error: ");
    reveal_strlit("[pull] invalid message: ");
    reveal_strlit("[pull] made no progress for ");
    reveal_strlit("[pull_request] ");
    reveal_strlit("[pull_test_delay] ");
    reveal_strlit("[pull_confirm] ");
    reveal_strlit("[pull_keepalive] ");
    let w = words@;
    assert("["@ + "pull"@ + "] "@ + "connection closed by peer"@ =~= "[pull] connection closed by peer"@);
    assert("["@ + "pull"@ + "] "@ + ("stream error: "@ + w) =~= "[pull] stream error: "@ + w);
    assert("[pull] invalid message"@ + ": "@ + w =~= "[pull] invalid message: "@ + w);
    assert("["@ + "pull"@ + "] "@ + ("made no progress for "@ + decimal(300) + " seconds"@)
        =~= "[pull] made no progress for "@ + decimal(300) + " seconds"@);
    assert("["@ + "pull_request"@ + "] "@ + w =~= "[pull_request] "@ + w);
    assert("["@ + "pull_test_delay"@ + "] "@ + w =~= "[pull_test_delay] "@ + w);
    assert("["@ + "pull_confirm"@ + "] "@ + w =~= "[pull_confirm] "@ + w);
    assert("["@ + "pull_keepalive"@ + "] "@ + w =~= "[pull_keepalive] "@ + w);
}

/// A message that is not about the download leaves it as it is, whatever the message is: one of a terminal, of the
/// handshake, a confirmation, an accepted login, or none of the known.
pub proof fn law_other_messages_leave_the_download(s: Pull, now: u64, message: PeerMessage, finished: u64)
    requires
        match message {
            PeerMessage::TestDelay { from_client } => from_client,
            PeerMessage::File(reply) => reply is Other,
            PeerMessage::Login(reply) => !(reply is Error),
            PeerMessage::MessageBox { kind, text } => kind@ != "error"@,
            _ => true,
        },
    ensures
        pull_next(s, now, arrives(message, finished)) == (s, Ok::<PullStep, Fault>(PullStep::Wait)),
{
}

}
