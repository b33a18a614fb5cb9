//! Upload and download of one file: how far a transfer may resume, what each message and each lapse of
//! time means for it, and how it ends.
//!
//! A transfer is a state that takes one event at a time. Each event moves the state and gives the next
//! thing to do, or the error that ends the transfer. Reading and writing files, sending and waiting are
//! left to the caller.

use vstd::prelude::*;
use vstd::string::*;

use crate::text::{decimal, joined3, joined4, number_text};

verus! {

/// The number under which the one file of a transfer goes.
pub const FILE_JOB_ID: i32 = 1;

/// The first version of the remote software that keeps partial files.
pub const FILE_RESUME_MIN_VERSION: &'static str = "1.4.2";

/// The protocol version that is told to the remote device.
pub const RUSTDESK_PROTOCOL_VERSION: &'static str = "1.4.9";

/// How long a transfer may go without progress, in seconds.
pub const TRANSFER_IDLE_SECONDS: u64 = 300;

/// How often a connection is kept alive, in seconds.
pub const KEEPALIVE_SECONDS: u64 = 15;

// ---------------------------------------------------------------------------
// Errors
// ---------------------------------------------------------------------------

/// Why a transfer ended without success.
pub enum TransferError {
    /// The connection was lost after so many bytes.
    Disconnected { detail: String, progress_bytes: u64 },
    /// Anything else.
    Failed(String),
}

/// An error as a value: its words, and the bytes that were through where the connection was lost.
pub struct Fault {
    pub text: Seq<char>,
    pub progress: Option<u64>,
}

impl View for TransferError {
    type V = Fault;

    open spec fn view(&self) -> Fault {
        match self {
            TransferError::Disconnected { detail, progress_bytes } => Fault {
                text: detail@,
                progress: Some(*progress_bytes),
            },
            TransferError::Failed(text) => Fault { text: text@, progress: None },
        }
    }
}

/// What a step of a transfer reports.
pub open spec fn report<T>(r: Result<T, TransferError>) -> Result<T, Fault> {
    match r {
        Ok(v) => Ok(v),
        Err(e) => Err(e@),
    }
}

/// A lost connection.
pub open spec fn lost(operation: Seq<char>, detail: Seq<char>, progress: u64) -> Fault {
    Fault { text: "["@ + operation + "] "@ + detail, progress: Some(progress) }
}

/// An error other than a lost connection.
pub open spec fn failed(text: Seq<char>) -> Fault {
    Fault { text, progress: None }
}

/// A connection that was lost before anything was through.
pub fn disconnected(operation: &str, detail: &str) -> (error: TransferError)
    ensures
        error@ == lost(operation@, detail@, 0),
{
    disconnected_at(operation, detail, 0)
}

/// A connection that was lost after `progress_bytes` bytes.
pub fn disconnected_at(operation: &str, detail: &str, progress_bytes: u64) -> (error: TransferError)
    ensures
        error@ == lost(operation@, detail@, progress_bytes),
{
    TransferError::Disconnected { detail: joined4("[", operation, "] ", detail), progress_bytes }
}

/// Whether a transfer ended because the connection was lost.
pub fn is_transfer_disconnected(error: &TransferError) -> (r: bool)
    ensures
        r == (error@.progress is Some),
{
    match error {
        TransferError::Disconnected { .. } => true,
        TransferError::Failed(_) => false,
    }
}

/// The bytes that were through when the connection was lost, if it was.
pub fn transfer_disconnect_progress(error: &TransferError) -> (r: Option<u64>)
    ensures
        r == error@.progress,
{
    match error {
        TransferError::Disconnected { progress_bytes, .. } => Some(*progress_bytes),
        TransferError::Failed(_) => None,
    }
}

/// The words of an error.
pub fn error_text(error: &TransferError) -> (text: String)
    ensures
        text@ == error@.text,
{
    match error {
        TransferError::Disconnected { detail, .. } => detail.as_str().to_owned(),
        TransferError::Failed(text) => text.as_str().to_owned(),
    }
}

// ---------------------------------------------------------------------------
// Resume offsets
// ---------------------------------------------------------------------------

/// What a transfer moved: the size of the file, and the offset from which it was resumed.
#[derive(Clone, Copy, Debug, PartialEq, Eq, Structural)]
pub struct FileTransferStats {
    pub bytes: u64,
    pub resumed_from: u64,
}

/// Whether the remote device keeps partial files: its version is the first that does, or a later one.
/// Versions are compared by their numbers.
pub fn file_resume_supported(remote_version: i64, minimum_version: i64) -> (r: bool)
    ensures
        r == (remote_version >= minimum_version),
{
    remote_version >= minimum_version
}

/// The offset that the receiver of an upload confirms: the one it names, or zero.
pub open spec fn confirmed(offset: Option<u32>, total_size: u64) -> Result<u64, Fault> {
    let start = match offset {
        Some(o) => o as u64,
        None => 0,
    };
    if start > total_size {
        Err(
            failed(
                "Remote resume offset "@ + decimal(start as nat) + " exceeds upload size "@ + decimal(
                    total_size as nat,
                ),
            ),
        )
    } else {
        Ok(start)
    }
}

/// The offset that the receiver of an upload confirms. One beyond the end of the file is an error.
pub fn confirmed_offset(offset: Option<u32>, total_size: u64) -> (r: Result<u64, TransferError>)
    ensures
        report(r) == confirmed(offset, total_size),
{
    let start: u64 = match offset {
        Some(o) => o as u64,
        None => 0,
    };
    if start > total_size {
        return Err(
            TransferError::Failed(
                joined4(
                    "Remote resume offset ",
                    number_text(start).as_str(),
                    " exceeds upload size ",
                    number_text(total_size).as_str(),
                ),
            ),
        );
    }
    Ok(start)
}

/// The offset at which a partial file of `transferred_size` bytes resumes: its size, or the largest offset
/// that the protocol can name.
pub open spec fn resume_offset(transferred_size: u64, total_size: u64) -> Result<u32, Fault> {
    if transferred_size > total_size {
        Err(
            failed(
                "Resume size "@ + decimal(transferred_size as nat) + " exceeds file size "@ + decimal(
                    total_size as nat,
                ),
            ),
        )
    } else if transferred_size > u32::MAX {
        Ok(u32::MAX)
    } else {
        Ok(transferred_size as u32)
    }
}

/// The offset at which a partial file resumes. A partial file larger than the whole is an error.
pub fn protocol_resume_offset(transferred_size: u64, total_size: u64) -> (r: Result<u32, TransferError>)
    ensures
        report(r) == resume_offset(transferred_size, total_size),
{
    if transferred_size > total_size {
        return Err(
            TransferError::Failed(
                joined4(
                    "Resume size ",
                    number_text(transferred_size).as_str(),
                    " exceeds file size ",
                    number_text(total_size).as_str(),
                ),
            ),
        );
    }
    if transferred_size > u32::MAX as u64 {
        Ok(u32::MAX)
    } else {
        Ok(transferred_size as u32)
    }
}

/// A resumed transfer never skips data that is missing and never starts over what the protocol can skip:
/// the offset lies within the partial file, within the whole file, and is that of the partial file up to
/// the largest offset that fits in 32 bits.
pub proof fn law_resume_offset(transferred_size: u64, total_size: u64)
    requires
        transferred_size <= total_size,
    ensures
        resume_offset(transferred_size, total_size) matches Ok(offset) && offset <= transferred_size && offset
            <= total_size && (transferred_size <= u32::MAX ==> offset == transferred_size) && (transferred_size
            > u32::MAX ==> offset == u32::MAX),
{
}

// ---------------------------------------------------------------------------
// Time
// ---------------------------------------------------------------------------

/// When a transfer counts as stalled that last progressed at `last_progress`, in milliseconds on the
/// transfer's clock.
pub open spec fn stalled_at(last_progress: u64) -> u64 {
    if last_progress > u64::MAX - 1000 * TRANSFER_IDLE_SECONDS {
        u64::MAX
    } else {
        (last_progress + 1000 * TRANSFER_IDLE_SECONDS) as u64
    }
}

/// When a transfer counts as stalled that last progressed at `last_progress`.
pub fn stall_time(last_progress: u64) -> (at: u64)
    ensures
        at == stalled_at(last_progress),
{
    if last_progress > u64::MAX - 1000 * TRANSFER_IDLE_SECONDS {
        u64::MAX
    } else {
        last_progress + 1000 * TRANSFER_IDLE_SECONDS
    }
}

/// How a stall is reported.
pub open spec fn stall_text() -> Seq<char> {
    "made no progress for "@ + decimal(TRANSFER_IDLE_SECONDS as nat) + " seconds"@
}

/// How a stall is reported.
pub fn stall_message() -> (text: String)
    ensures
        text@ == stall_text(),
{
    joined3("made no progress for ", number_text(TRANSFER_IDLE_SECONDS).as_str(), " seconds")
}

// ---------------------------------------------------------------------------
// Laws
// ---------------------------------------------------------------------------

/// The error of a lost connection tells how much was through; any other error tells nothing of that. Both keep
/// the words that they were given, after the name of the step where there is one.
pub proof fn law_errors_keep_their_words(operation: Seq<char>, detail: Seq<char>, progress: u64)
    ensures
        lost(operation, detail, progress).progress == Some(progress),
        lost(operation, detail, progress).text == seq!['['] + operation + seq![']', ' '] + detail,
        failed(detail).progress is None,
        failed(detail).text == detail,
{
    reveal_strlit("[");
    reveal_strlit("] ");
    assert("["@ =~= seq!['[']);
    assert("] "@ =~= seq![']', ' ']);
}

/// The receiver of an upload decides where it goes on: the offset that it names is taken as it is, none counts
/// as the beginning, and one that lies behind the end of the file is refused.
pub proof fn law_confirmed_offset(offset: Option<u32>, total_size: u64)
    ensures
        offset is None ==> confirmed(offset, total_size) == Ok::<u64, Fault>(0),
        offset matches Some(o) ==> (o <= total_size ==> confirmed(offset, total_size) == Ok::<u64, Fault>(o as u64)),
        offset matches Some(o) ==> (o > total_size ==> (confirmed(offset, total_size) matches Err(fault)
            && fault.progress is None)),
{
}

/// A partial file that is larger than the whole cannot be resumed; any other resumes at its own size, or at
/// the largest offset that fits in 32 bits where it is larger than that.
pub proof fn law_resume_offset_is_the_size(transferred_size: u64, total_size: u64)
    ensures
        resume_offset(transferred_size, total_size) is Ok <==> transferred_size <= total_size,
        resume_offset(transferred_size, total_size) matches Ok(offset) ==> offset as int == if transferred_size
            <= 0xffff_ffff {
            transferred_size as int
        } else {
            0xffff_ffff
        },
        resume_offset(transferred_size, total_size) matches Err(fault) ==> fault.progress is None,
{
}

/// A transfer stalls 300 seconds after it last progressed, or never where the clock does not go that far.
pub proof fn law_stall_time(last_progress: u64)
    ensures
        last_progress + 300_000 <= u64::MAX ==> stalled_at(last_progress) == last_progress + 300_000,
        last_progress + 300_000 > u64::MAX ==> stalled_at(last_progress) == u64::MAX,
{
}

/// An error holds what it was made of, as it is reported.
pub proof fn law_errors_hold_what_they_were_made_of(error: TransferError)
    ensures
        match error {
            TransferError::Disconnected { detail, progress_bytes } => error@.text == detail@ && error@.progress == Some(
                progress_bytes,
            ),
            TransferError::Failed(text) => error@.text == text@ && error@.progress is None,
        },
{
}

/// What a step of a transfer reports is its value or its error, nothing else.
pub proof fn law_steps_report_what_they_give<T>(value: T, error: TransferError)
    ensures
        report(Ok::<T, TransferError>(value)) == Ok::<T, Fault>(value),
        report(Err::<T, TransferError>(error)) == Err::<T, Fault>(error@),
        stall_text() == "made no progress for "@ + decimal(300) + " seconds"@,
{
}

/// An offset beyond the end is refused with both numbers.
pub proof fn law_offsets_beyond_the_end_are_told(offset: u32, transferred_size: u64, total_size: u64)
    ensures
        offset > total_size ==> confirmed(Some(offset), total_size) == Err::<u64, Fault>(
            Fault {
                text: "Remote resume offset "@ + decimal(offset as nat) + " exceeds upload size "@ + decimal(
                    total_size as nat,
                ),
                progress: None,
            },
        ),
        transferred_size > total_size ==> resume_offset(transferred_size, total_size) == Err::<u32, Fault>(
            Fault {
                text: "Resume size "@ + decimal(transferred_size as nat) + " exceeds file size "@ + decimal(
                    total_size as nat,
                ),
                progress: None,
            },
        ),
{
}

}
