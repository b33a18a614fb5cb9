//! The two sessions that another program drives over lines of JSON: commands over one terminal, and file
//! transfers.
//!
//! A session says that it is ready, then answers requests one by one. It ends when the requests end, when
//! none has come for 300 seconds, or when the connection is lost.

use vstd::prelude::*;
use vstd::string::*;

use crate::exec::{exec_request_fault, validate_exec_request};
use crate::handshake::Mode;
use crate::json::{
    count_at, flag_at, from_integer, insert, json_of, lemma_keys, member, no_members, object, set_count, set_flag,
    set_text, text_at, with, Json,
};
use crate::message::{
    closed_by_peer, closed_text, error_box, is_error_box, login_refusal, malformed, malformed_text, refused_login,
    respond_to_test_delay, stream_error, stream_error_text, Incoming, Peer, PeerMessage, TerminalReply,
};
use crate::text::{integer_text, joined, joined3, signed_decimal, text_eq, told};
use crate::transfer::{
    error_text, is_transfer_disconnected, transfer_disconnect_progress, Fault, FileTransferStats, TransferError,
};

verus! {

/// How long a session may go without a request, in seconds.
pub const SESSION_IDLE_SECONDS: u64 = 300;

/// The version of the lines that a session exchanges.
pub const SESSION_PROTOCOL: u64 = 1;

/// What a session is for.
#[derive(Clone, Copy, Debug, PartialEq, Eq, Structural)]
pub enum SessionChannel {
    Terminal,
    File,
}

/// The action of the wrapper script that starts a session.
pub open spec fn channel_action(channel: SessionChannel) -> Seq<char> {
    match channel {
        SessionChannel::Terminal => "session"@,
        SessionChannel::File => "file-session"@,
    }
}

/// The name of a channel.
pub open spec fn channel_name(channel: SessionChannel) -> Seq<char> {
    match channel {
        SessionChannel::Terminal => "terminal"@,
        SessionChannel::File => "file"@,
    }
}

impl SessionChannel {
    /// The action of the wrapper script that starts a session.
    pub fn wrapper_action(self) -> (action: &'static str)
        ensures
            action@ == channel_action(self),
    {
        match self {
            SessionChannel::Terminal => "session",
            SessionChannel::File => "file-session",
        }
    }

    /// The name of the channel.
    pub fn name(self) -> (name: &'static str)
        ensures
            name@ == channel_name(self),
    {
        match self {
            SessionChannel::Terminal => "terminal",
            SessionChannel::File => "file",
        }
    }
}

// ---------------------------------------------------------------------------
// Time
// ---------------------------------------------------------------------------

/// When a session ends whose last request was done at `last_request`, in milliseconds on its own clock.
pub open spec fn idle_at(last_request: u64) -> u64 {
    if last_request > u64::MAX - 1000 * SESSION_IDLE_SECONDS {
        u64::MAX
    } else {
        (last_request + 1000 * SESSION_IDLE_SECONDS) as u64
    }
}

/// When a session ends whose last request was done at `last_request`.
pub fn idle_time(last_request: u64) -> (at: u64)
    ensures
        at == idle_at(last_request),
{
    if last_request > u64::MAX - 1000 * SESSION_IDLE_SECONDS {
        u64::MAX
    } else {
        last_request + 1000 * SESSION_IDLE_SECONDS
    }
}

/// A session ends 300 seconds after its last request, and no earlier.
pub proof fn law_session_idle_time(last_request: u64)
    requires
        last_request <= u64::MAX - 300_000,
    ensures
        idle_at(last_request) == last_request + 300_000,
{
}

// ---------------------------------------------------------------------------
// Ready
// ---------------------------------------------------------------------------

/// An object that tells about the remote device.
pub open spec fn about_device(device_id: Seq<char>, peer: Peer) -> Json {
    with(
        with(
            with(no_members(), "hostname"@, Json::Text(peer.hostname@)),
            "platform"@,
            Json::Text(peer.platform@),
        ),
        "device_id"@,
        Json::Text(device_id),
    )
}

fn describe(device_id: &str, peer: &Peer) -> (value: serde_json::Value)
    ensures
        json_of(value) == about_device(device_id@, *peer),
{
    let mut value = object();
    set_text(&mut value, "hostname", peer.hostname.as_str());
    set_text(&mut value, "platform", peer.platform.as_str());
    set_text(&mut value, "device_id", device_id);
    value
}

/// What a session says once it is ready.
pub open spec fn ready_json(channel: SessionChannel, device_id: Seq<char>, peer: Peer) -> Json {
    with(
        with(
            with(
                with(
                    about_device(device_id, peer),
                    "protocol"@,
                    Json::Number(Some(SESSION_PROTOCOL as int)),
                ),
                "idle_timeout_seconds"@,
                Json::Number(Some(SESSION_IDLE_SECONDS as int)),
            ),
            "channel"@,
            Json::Text(channel_name(channel)),
        ),
        "type"@,
        Json::Text("ready"@),
    )
}

/// What a session says once it is ready.
pub fn ready_reply(channel: SessionChannel, device_id: &str, peer: &Peer) -> (value: serde_json::Value)
    ensures
        json_of(value) == ready_json(channel, device_id@, *peer),
{
    let mut value = describe(device_id, peer);
    set_count(&mut value, "protocol", SESSION_PROTOCOL);
    set_count(&mut value, "idle_timeout_seconds", SESSION_IDLE_SECONDS);
    set_text(&mut value, "channel", channel.name());
    set_text(&mut value, "type", "ready");
    value
}

// ---------------------------------------------------------------------------
// Requests
// ---------------------------------------------------------------------------

/// A request to run a command.
pub struct CommandSessionRequest {
    pub command: String,
    pub timeout_seconds: u64,
}

/// A request to transfer a file.
pub struct FileSessionRequest {
    pub operation: String,
    pub local_path: String,
    pub remote_path: String,
}

/// What the lines of requests give next.
pub enum Input<R> {
    /// A request.
    Request(R),
    /// A line that is no request, and why.
    Malformed(String),
    /// There are no more requests.
    End,
    /// The lines cannot be read.
    Failed(String),
}

/// An answer that a request is not accepted.
pub open spec fn rejection(stage: Seq<char>, error: Seq<char>) -> Json {
    with(
        with(with(no_members(), "ok"@, Json::Bool(false)), "stage"@, Json::Text(stage)),
        "error"@,
        Json::Text(error),
    )
}

/// An answer that a request is not accepted.
pub fn reject(stage: &str, error: &str) -> (value: serde_json::Value)
    ensures
        json_of(value) == rejection(stage@, error@),
{
    let mut value = object();
    set_flag(&mut value, "ok", false);
    set_text(&mut value, "stage", stage);
    set_text(&mut value, "error", error);
    value
}

/// What a command session does with a line.
pub enum CommandStep {
    /// Write the answer and go on.
    Reply(serde_json::Value),
    /// Run the command.
    Run { command: String, timeout_seconds: u64 },
    /// Close the terminal and end.
    Close,
}

/// What a command session does with a line, as a value.
pub enum CommandStepView {
    Reply(Json),
    Run { command: Seq<char>, timeout_seconds: u64 },
    Close,
}

/// What a command session does with a line.
pub open spec fn command_step(input: Input<CommandSessionRequest>) -> Result<CommandStepView, Seq<char>> {
    match input {
        Input::Failed(error) => Err(malformed_text("[session_stdin] failed to read request"@, error@)),
        Input::End => Ok(CommandStepView::Close),
        Input::Malformed(error) => Ok(
            CommandStepView::Reply(rejection("validate_request"@, "invalid session request JSON: "@ + error@)),
        ),
        Input::Request(request) => match exec_request_fault(request.command@, request.timeout_seconds) {
            Some(fault) => Ok(CommandStepView::Reply(rejection("validate_command"@, fault))),
            None => Ok(
                CommandStepView::Run { command: request.command@, timeout_seconds: request.timeout_seconds },
            ),
        },
    }
}

/// A step of a command session as a value.
pub open spec fn command_told(r: Result<CommandStep, String>) -> Result<CommandStepView, Seq<char>> {
    match r {
        Ok(CommandStep::Reply(value)) => Ok(CommandStepView::Reply(json_of(value))),
        Ok(CommandStep::Run { command, timeout_seconds }) => Ok(
            CommandStepView::Run { command: command@, timeout_seconds },
        ),
        Ok(CommandStep::Close) => Ok(CommandStepView::Close),
        Err(e) => Err(e@),
    }
}

/// Takes a line of a command session. A line that is no request, or asks for what cannot be, is answered;
/// the session goes on.
pub fn take_command(input: Input<CommandSessionRequest>) -> (r: Result<CommandStep, String>)
    ensures
        command_told(r) == command_step(input),
{
    match input {
        Input::Failed(error) => Err(malformed("[session_stdin] failed to read request", error.as_str())),
        Input::End => Ok(CommandStep::Close),
        Input::Malformed(error) => Ok(
            CommandStep::Reply(
                reject("validate_request", joined("invalid session request JSON: ", error.as_str()).as_str()),
            ),
        ),
        Input::Request(request) => match validate_exec_request(request.command.as_str(), request.timeout_seconds) {
            Err(fault) => Ok(CommandStep::Reply(reject("validate_command", fault.as_str()))),
            Ok(_) => Ok(
                CommandStep::Run { command: request.command, timeout_seconds: request.timeout_seconds },
            ),
        },
    }
}

/// What a file session does with a line.
pub enum FileStep {
    /// Write the answer and go on.
    Reply(serde_json::Value),
    /// Upload the local file.
    Push { local_path: String, remote_path: String },
    /// Download the remote file.
    Pull { remote_path: String, local_path: String },
    /// End.
    Close,
}

/// What a file session does with a line, as a value.
pub enum FileStepView {
    Reply(Json),
    Push { local_path: Seq<char>, remote_path: Seq<char> },
    Pull { remote_path: Seq<char>, local_path: Seq<char> },
    Close,
}

/// What a file session does with a line.
pub open spec fn file_step(input: Input<FileSessionRequest>) -> Result<FileStepView, Seq<char>> {
    match input {
        Input::Failed(error) => Err(malformed_text("[file_session_stdin] failed to read request"@, error@)),
        Input::End => Ok(FileStepView::Close),
        Input::Malformed(error) => Ok(
            FileStepView::Reply(rejection("validate_request"@, "invalid file-session request JSON: "@ + error@)),
        ),
        Input::Request(request) => if request.local_path@.len() == 0 || request.remote_path@.len() == 0 {
            Ok(FileStepView::Reply(rejection("validate_path"@, "local_path and remote_path cannot be empty"@)))
        } else if request.operation@ == "push"@ {
            Ok(FileStepView::Push { local_path: request.local_path@, remote_path: request.remote_path@ })
        } else if request.operation@ == "pull"@ {
            Ok(FileStepView::Pull { remote_path: request.remote_path@, local_path: request.local_path@ })
        } else {
            Ok(FileStepView::Reply(rejection("validate_operation"@, "operation must be push or pull"@)))
        },
    }
}

/// A step of a file session as a value.
pub open spec fn file_told(r: Result<FileStep, String>) -> Result<FileStepView, Seq<char>> {
    match r {
        Ok(FileStep::Reply(value)) => Ok(FileStepView::Reply(json_of(value))),
        Ok(FileStep::Push { local_path, remote_path }) => Ok(
            FileStepView::Push { local_path: local_path@, remote_path: remote_path@ },
        ),
        Ok(FileStep::Pull { remote_path, local_path }) => Ok(
            FileStepView::Pull { remote_path: remote_path@, local_path: local_path@ },
        ),
        Ok(FileStep::Close) => Ok(FileStepView::Close),
        Err(e) => Err(e@),
    }
}

/// Takes a line of a file session.
pub fn take_file_request(input: Input<FileSessionRequest>) -> (r: Result<FileStep, String>)
    ensures
        file_told(r) == file_step(input),
{
    match input {
        Input::Failed(error) => Err(malformed("[file_session_stdin] failed to read request", error.as_str())),
        Input::End => Ok(FileStep::Close),
        Input::Malformed(error) => Ok(
            FileStep::Reply(
                reject("validate_request", joined("invalid file-session request JSON: ", error.as_str()).as_str()),
            ),
        ),
        Input::Request(request) => {
            if request.local_path.as_str().is_empty() || request.remote_path.as_str().is_empty() {
                Ok(FileStep::Reply(reject("validate_path", "local_path and remote_path cannot be empty")))
            } else if text_eq(request.operation.as_str(), "push") {
                Ok(FileStep::Push { local_path: request.local_path, remote_path: request.remote_path })
            } else if text_eq(request.operation.as_str(), "pull") {
                Ok(FileStep::Pull { remote_path: request.remote_path, local_path: request.local_path })
            } else {
                Ok(FileStep::Reply(reject("validate_operation", "operation must be push or pull")))
            }
        },
    }
}

// ---------------------------------------------------------------------------
// Results of commands
// ---------------------------------------------------------------------------

/// A command that ran.
pub struct CapturedCommand {
    pub exit_code: i32,
    pub stdout: String,
    pub stderr: String,
    pub duration_ms: u128,
}

/// The answer for a command that ran.
pub struct ExecResult {
    pub ok: bool,
    pub operation: &'static str,
    pub device_id: String,
    pub hostname: String,
    pub platform: String,
    pub exit_code: i32,
    pub stdout: String,
    pub stderr: String,
    pub duration_ms: u128,
    pub stage: &'static str,
}

/// The answer is the one for a command that ran: it is a success exactly where the command exited with zero.
pub open spec fn answers_command(
    result: ExecResult,
    device_id: Seq<char>,
    peer: Peer,
    captured: CapturedCommand,
) -> bool {
    &&& result.ok == (captured.exit_code == 0)
    &&& result.operation@ == "exec"@
    &&& result.device_id@ == device_id
    &&& result.hostname@ == peer.hostname@
    &&& result.platform@ == peer.platform@
    &&& result.exit_code == captured.exit_code
    &&& result.stdout@ == captured.stdout@
    &&& result.stderr@ == captured.stderr@
    &&& result.duration_ms == captured.duration_ms
    &&& result.stage@ == "command_completed"@
}

/// The answer for a command that ran.
pub fn exec_result(device_id: &str, peer: &Peer, captured: CapturedCommand) -> (result: ExecResult)
    ensures
        answers_command(result, device_id@, *peer, captured),
{
    ExecResult {
        ok: captured.exit_code == 0,
        operation: "exec",
        device_id: device_id.to_owned(),
        hostname: peer.hostname.as_str().to_owned(),
        platform: peer.platform.as_str().to_owned(),
        exit_code: captured.exit_code,
        stdout: captured.stdout,
        stderr: captured.stderr,
        duration_ms: captured.duration_ms,
        stage: "command_completed",
    }
}

/// How a run of the program ended that did not fail: what it did, and where that was one command what came of
/// it.
pub enum RunEnd {
    Terminal,
    Exec(CapturedCommand),
    Session,
    FileSession,
    Push,
    Pull,
}

/// What the run was for.
pub open spec fn end_mode(end: RunEnd) -> Mode {
    match end {
        RunEnd::Terminal => Mode::Terminal,
        RunEnd::Exec(_) => Mode::Exec,
        RunEnd::Session => Mode::Session,
        RunEnd::FileSession => Mode::FileSession,
        RunEnd::Push => Mode::Push,
        RunEnd::Pull => Mode::Pull,
    }
}

/// What a run that did not fail leaves to be told.
pub enum RunOutcome {
    /// Nothing more.
    Completed,
    /// The answer for the command.
    Command(ExecResult),
}

/// What a run that did not fail leaves to be told: the answer exactly where it was for one command, else
/// nothing.
pub fn run_outcome(device_id: &str, peer: &Peer, end: RunEnd) -> (outcome: RunOutcome)
    ensures
        outcome is Command <==> end_mode(end) is Exec,
        outcome matches RunOutcome::Command(result) ==> result.ok == (result.exit_code == 0),
        outcome matches RunOutcome::Command(result) ==> (end matches RunEnd::Exec(captured) && answers_command(
            result,
            device_id@,
            *peer,
            captured,
        )),
{
    match end {
        RunEnd::Exec(captured) => RunOutcome::Command(exec_result(device_id, peer, captured)),
        RunEnd::Terminal | RunEnd::Session | RunEnd::FileSession | RunEnd::Push | RunEnd::Pull => RunOutcome::Completed,
    }
}

/// The answer for a command that was interrupted. It says that the command is not run again, and that the
/// next one needs a new connection.
pub open spec fn interrupted_json(device_id: Seq<char>, peer: Peer, error: Seq<char>) -> Json {
    let start = with(
        with(
            with(
                with(
                    with(
                        with(about_device(device_id, peer), "operation"@, Json::Text("exec"@)),
                        "exit_code"@,
                        Json::Number(Some(-1)),
                    ),
                    "stdout"@,
                    Json::Text(""@),
                ),
                "stderr"@,
                Json::Text(error),
            ),
            "duration_ms"@,
            Json::Number(Some(0)),
        ),
        "ok"@,
        Json::Bool(false),
    );
    with(
        with(
            with(start, "stage"@, Json::Text("session_disconnected"@)),
            "replayed"@,
            Json::Bool(false),
        ),
        "reconnect_on_next_call"@,
        Json::Bool(true),
    )
}

/// The answer for a command that was interrupted.
pub fn interrupted_reply(device_id: &str, peer: &Peer, error: &str) -> (value: serde_json::Value)
    ensures
        json_of(value) == interrupted_json(device_id@, *peer, error@),
{
    let mut value = describe(device_id, peer);
    set_text(&mut value, "operation", "exec");
    insert(&mut value, "exit_code", from_integer(-1));
    set_text(&mut value, "stdout", "");
    set_text(&mut value, "stderr", error);
    set_count(&mut value, "duration_ms", 0);
    set_flag(&mut value, "ok", false);
    set_text(&mut value, "stage", "session_disconnected");
    set_flag(&mut value, "replayed", false);
    set_flag(&mut value, "reconnect_on_next_call", true);
    value
}

/// The answer for a command whose time was over before its result came. It tells the time that was taken,
/// and that nothing of the output is known: that comes whole or not at all. The command is not run again,
/// and the next one needs a new connection.
pub open spec fn timed_out_json(device_id: Seq<char>, peer: Peer, duration_ms: int) -> Json {
    let start = with(
        with(
            with(about_device(device_id, peer), "operation"@, Json::Text("exec"@)),
            "exit_code"@,
            Json::Number(Some(-1)),
        ),
        "replayed"@,
        Json::Bool(false),
    );
    let output = with(
        with(
            with(with(start, "stdout"@, Json::Text(""@)), "stderr"@, Json::Text(""@)),
            "duration_ms"@,
            Json::Number(Some(duration_ms)),
        ),
        "output_complete"@,
        Json::Bool(false),
    );
    with(
        with(
            with(
                with(output, "timed_out"@, Json::Bool(true)),
                "stage"@,
                Json::Text("command_timeout"@),
            ),
            "ok"@,
            Json::Bool(false),
        ),
        "reconnect_on_next_call"@,
        Json::Bool(true),
    )
}

/// The answer for a command whose time was over before its result came.
pub fn timed_out_reply(device_id: &str, peer: &Peer, duration_ms: u64) -> (value: serde_json::Value)
    ensures
        json_of(value) == timed_out_json(device_id@, *peer, duration_ms as int),
{
    let mut value = describe(device_id, peer);
    set_text(&mut value, "operation", "exec");
    insert(&mut value, "exit_code", from_integer(-1));
    set_flag(&mut value, "replayed", false);
    set_text(&mut value, "stdout", "");
    set_text(&mut value, "stderr", "");
    set_count(&mut value, "duration_ms", duration_ms);
    set_flag(&mut value, "output_complete", false);
    set_flag(&mut value, "timed_out", true);
    set_text(&mut value, "stage", "command_timeout");
    set_flag(&mut value, "ok", false);
    set_flag(&mut value, "reconnect_on_next_call", true);
    value
}

// ---------------------------------------------------------------------------
// Results of transfers
// ---------------------------------------------------------------------------

/// A transfer that is asked for.
pub struct TransferRequest {
    /// It is an upload.
    pub upload: bool,
    pub local_path: String,
    pub remote_path: String,
}

/// The name of a transfer's direction.
pub open spec fn operation_name(upload: bool) -> Seq<char> {
    if upload {
        "push"@
    } else {
        "pull"@
    }
}

/// What every answer about a transfer tells.
pub open spec fn about_transfer(device_id: Seq<char>, peer: Peer, request: TransferRequest) -> Json {
    with(
        with(
            with(
                about_device(device_id, peer),
                "operation"@,
                Json::Text(operation_name(request.upload)),
            ),
            "local_path"@,
            Json::Text(request.local_path@),
        ),
        "remote_path"@,
        Json::Text(request.remote_path@),
    )
}

fn describe_transfer(device_id: &str, peer: &Peer, request: &TransferRequest) -> (value: serde_json::Value)
    ensures
        json_of(value) == about_transfer(device_id@, *peer, *request),
{
    let mut value = describe(device_id, peer);
    set_text(
        &mut value,
        "operation",
        if request.upload {
            "push"
        } else {
            "pull"
        },
    );
    set_text(&mut value, "local_path", request.local_path.as_str());
    set_text(&mut value, "remote_path", request.remote_path.as_str());
    value
}

/// The answer for a complete transfer.
pub open spec fn completed_json(
    device_id: Seq<char>,
    peer: Peer,
    request: TransferRequest,
    stats: FileTransferStats,
) -> Json {
    with(
        with(
            with(
                about_transfer(device_id, peer, request),
                "resumed_from"@,
                Json::Number(Some(stats.resumed_from as int)),
            ),
            "stage"@,
            Json::Text("transfer_completed"@),
        ),
        "ok"@,
        Json::Bool(true),
    )
}

/// The answer for a complete transfer: what was asked for, and the offset from which the transfer was resumed.
pub fn completed_reply(device_id: &str, peer: &Peer, request: &TransferRequest, stats: FileTransferStats) -> (value:
    serde_json::Value)
    ensures
        json_of(value) == completed_json(device_id@, *peer, *request, stats),
{
    let mut value = describe_transfer(device_id, peer, request);
    set_count(&mut value, "resumed_from", stats.resumed_from);
    set_text(&mut value, "stage", "transfer_completed");
    set_flag(&mut value, "ok", true);
    value
}

/// The stage at which a transfer ended without success.
pub open spec fn failure_stage(fault: Fault) -> Seq<char> {
    if fault.progress is Some {
        "session_disconnected"@
    } else {
        "transfer_failed"@
    }
}

/// The answer for a transfer that failed: what was asked for and why it failed, whether the connection was
/// lost, whether the transfer can be resumed and what is through, and that the next one needs a new
/// connection.
pub open spec fn failed_json(
    device_id: Seq<char>,
    peer: Peer,
    request: TransferRequest,
    fault: Fault,
    resume_supported: bool,
    attempt_bytes: u64,
) -> Json {
    let start = with(
        with(
            with(about_transfer(device_id, peer, request), "ok"@, Json::Bool(false)),
            "error"@,
            Json::Text(fault.text),
        ),
        "replayed"@,
        Json::Bool(false),
    );
    let told = with(
        with(
            with(
                with(
                    with(start, "stage"@, Json::Text(failure_stage(fault))),
                    "resume_supported"@,
                    Json::Bool(resume_supported),
                ),
                "partial_preserved"@,
                Json::Bool(resume_supported),
            ),
            "attempt_bytes"@,
            Json::Number(Some(attempt_bytes as int)),
        ),
        "reconnect_on_next_call"@,
        Json::Bool(true),
    );
    match fault.progress {
        Some(progress) => with(told, "progress_bytes"@, Json::Number(Some(progress as int))),
        None => told,
    }
}

/// The answer for a transfer that failed. A partial file is kept where it can be resumed.
pub fn failed_reply(
    device_id: &str,
    peer: &Peer,
    request: &TransferRequest,
    error: &TransferError,
    resume_supported: bool,
    attempt_bytes: u64,
) -> (value: serde_json::Value)
    ensures
        json_of(value) == failed_json(device_id@, *peer, *request, error@, resume_supported, attempt_bytes),
{
    let mut value = describe_transfer(device_id, peer, request);
    set_flag(&mut value, "ok", false);
    set_text(&mut value, "error", error_text(error).as_str());
    set_flag(&mut value, "replayed", false);
    set_text(
        &mut value,
        "stage",
        if is_transfer_disconnected(error) {
            "session_disconnected"
        } else {
            "transfer_failed"
        },
    );
    set_flag(&mut value, "resume_supported", resume_supported);
    set_flag(&mut value, "partial_preserved", resume_supported);
    set_count(&mut value, "attempt_bytes", attempt_bytes);
    set_flag(&mut value, "reconnect_on_next_call", true);
    if let Some(progress) = transfer_disconnect_progress(error) {
        set_count(&mut value, "progress_bytes", progress);
    }
    value
}

// ---------------------------------------------------------------------------
// Between requests
// ---------------------------------------------------------------------------

/// What happens to a session between requests.
pub enum IdleEvent {
    Incoming(Incoming),
    /// The connection could not be kept alive.
    KeepaliveFailed(String),
    /// A probe of the delay could not be sent back.
    EchoFailed(String),
    /// No request has come for as long as a session may go without one.
    Expired,
}

/// What a session does between requests.
#[derive(Clone, Copy, Debug, PartialEq, Eq, Structural)]
pub enum IdleStep {
    Wait,
    /// Send the probe of the delay back.
    Echo,
    /// End, and close the terminal where there is one.
    Close,
}

/// What a message means for a session between requests.
pub open spec fn idle_message(channel: SessionChannel, message: PeerMessage) -> Result<IdleStep, Seq<char>> {
    match message {
        PeerMessage::Terminal(TerminalReply::Closed { exit_code }) => match channel {
            SessionChannel::Terminal => Err(
                "[session_idle] terminal closed (session exit code: "@ + signed_decimal(exit_code as int) + ")"@,
            ),
            SessionChannel::File => Ok(IdleStep::Wait),
        },
        PeerMessage::Terminal(TerminalReply::Error(text)) => match channel {
            SessionChannel::Terminal => Err("Terminal error: "@ + text@),
            SessionChannel::File => Ok(IdleStep::Wait),
        },
        PeerMessage::TestDelay { from_client } => if from_client {
            Ok(IdleStep::Wait)
        } else {
            Ok(IdleStep::Echo)
        },
        PeerMessage::Login(reply) => match login_refusal(reply) {
            Some(text) => Err(text),
            None => Ok(IdleStep::Wait),
        },
        PeerMessage::MessageBox { kind, text } => if is_error_box(kind@) {
            match channel {
                SessionChannel::Terminal => Err("Remote session failed: "@ + text@),
                SessionChannel::File => Err("Remote file session failed: "@ + text@),
            }
        } else {
            Ok(IdleStep::Wait)
        },
        _ => Ok(IdleStep::Wait),
    }
}

/// What an event means for a session between requests.
pub open spec fn idle_next(channel: SessionChannel, event: IdleEvent) -> Result<IdleStep, Seq<char>> {
    match event {
        IdleEvent::Expired => Ok(IdleStep::Close),
        IdleEvent::EchoFailed(error) => Err(error@),
        IdleEvent::KeepaliveFailed(error) => match channel {
            SessionChannel::Terminal => Err(
                malformed_text("[session_keepalive] failed to keep session alive"@, error@),
            ),
            SessionChannel::File => Err(
                malformed_text("[file_session_keepalive] failed to keep session alive"@, error@),
            ),
        },
        IdleEvent::Incoming(Incoming::StreamError(error)) => match channel {
            SessionChannel::Terminal => Err(stream_error_text("session_idle"@, error@)),
            SessionChannel::File => Err(stream_error_text("file_session_idle"@, error@)),
        },
        IdleEvent::Incoming(Incoming::Closed) => match channel {
            SessionChannel::Terminal => Err(closed_text("session_idle"@)),
            SessionChannel::File => Err(closed_text("file_session_idle"@)),
        },
        IdleEvent::Incoming(Incoming::Malformed(error)) => match channel {
            SessionChannel::Terminal => Err(malformed_text("[session_idle] invalid message"@, error@)),
            SessionChannel::File => Err(malformed_text("[file_session_idle] invalid message"@, error@)),
        },
        IdleEvent::Incoming(Incoming::Message(message)) => idle_message(channel, message),
    }
}

fn take_idle_message(channel: SessionChannel, message: &PeerMessage) -> (r: Result<IdleStep, String>)
    ensures
        told(r) == idle_message(channel, *message),
{
    match message {
        PeerMessage::Terminal(TerminalReply::Closed { exit_code }) => match channel {
            SessionChannel::Terminal => Err(
                joined3(
                    "[session_idle] terminal closed (session exit code: ",
                    integer_text(*exit_code).as_str(),
                    ")",
                ),
            ),
            SessionChannel::File => Ok(IdleStep::Wait),
        },
        PeerMessage::Terminal(TerminalReply::Error(text)) => match channel {
            SessionChannel::Terminal => Err(joined("Terminal error: ", text.as_str())),
            SessionChannel::File => Ok(IdleStep::Wait),
        },
        PeerMessage::TestDelay { from_client } => {
            if respond_to_test_delay(*from_client) {
                Ok(IdleStep::Echo)
            } else {
                Ok(IdleStep::Wait)
            }
        },
        PeerMessage::Login(reply) => match refused_login(reply) {
            Some(text) => Err(text),
            None => Ok(IdleStep::Wait),
        },
        PeerMessage::MessageBox { kind, text } => {
            if error_box(kind.as_str()) {
                match channel {
                    SessionChannel::Terminal => Err(joined("Remote session failed: ", text.as_str())),
                    SessionChannel::File => Err(joined("Remote file session failed: ", text.as_str())),
                }
            } else {
                Ok(IdleStep::Wait)
            }
        },
        _ => Ok(IdleStep::Wait),
    }
}

/// Takes an event between requests.
pub fn take_idle(channel: SessionChannel, event: &IdleEvent) -> (r: Result<IdleStep, String>)
    ensures
        told(r) == idle_next(channel, *event),
{
    match event {
        IdleEvent::Expired => Ok(IdleStep::Close),
        IdleEvent::EchoFailed(error) => Err(error.as_str().to_owned()),
        IdleEvent::KeepaliveFailed(error) => match channel {
            SessionChannel::Terminal => Err(
                malformed("[session_keepalive] failed to keep session alive", error.as_str()),
            ),
            SessionChannel::File => Err(
                malformed("[file_session_keepalive] failed to keep session alive", error.as_str()),
            ),
        },
        IdleEvent::Incoming(Incoming::StreamError(error)) => match channel {
            SessionChannel::Terminal => Err(stream_error("session_idle", error.as_str())),
            SessionChannel::File => Err(stream_error("file_session_idle", error.as_str())),
        },
        IdleEvent::Incoming(Incoming::Closed) => match channel {
            SessionChannel::Terminal => Err(closed_by_peer("session_idle")),
            SessionChannel::File => Err(closed_by_peer("file_session_idle")),
        },
        IdleEvent::Incoming(Incoming::Malformed(error)) => match channel {
            SessionChannel::Terminal => Err(malformed("[session_idle] invalid message", error.as_str())),
            SessionChannel::File => Err(malformed("[file_session_idle] invalid message", error.as_str())),
        },
        IdleEvent::Incoming(Incoming::Message(message)) => take_idle_message(channel, message),
    }
}

// ---------------------------------------------------------------------------
// Laws
// ---------------------------------------------------------------------------

/// The two channels have different names and are started by different actions of the wrapper script.
pub proof fn law_channels(channel: SessionChannel)
    ensures
        channel is Terminal ==> channel_name(channel) == "terminal"@ && channel_action(channel) == "session"@,
        channel is File ==> channel_name(channel) == "file"@ && channel_action(channel) == "file-session"@,
{
}

/// A request to run a command that can be is run as it is: the command and the time that were asked for. One that
/// cannot be is answered with what is wrong with it. A line that is no request is answered in the words of the
/// reader, the end of the requests ends the session, and requests that cannot be read fail it.
pub proof fn law_command_requests_are_taken_as_given(request: CommandSessionRequest, words: String)
    ensures
        ({
            let blank = forall|i: int| 0 <= i < request.command@.len() ==> crate::text::is_space(
                #[trigger] request.command@[i],
            );
            let accepted = 1 <= request.timeout_seconds <= 300 && !blank && vstd::utf8::encode_utf8(
                request.command@,
            ).len() <= 16384;
            let step = command_step(Input::Request(request));
            &&& accepted ==> step == Ok::<CommandStepView, Seq<char>>(
                CommandStepView::Run { command: request.command@, timeout_seconds: request.timeout_seconds },
            )
            &&& !accepted ==> (step matches Ok(CommandStepView::Reply(json)) && text_at(json, "stage"@) == Some(
                "validate_command"@,
            ) && flag_at(json, "ok"@) == Some(false) && text_at(json, "error"@) is Some)
        }),
        command_step(Input::Malformed(words)) matches Ok(CommandStepView::Reply(json)) && text_at(json, "stage"@)
            == Some("validate_request"@) && flag_at(json, "ok"@) == Some(false) && text_at(json, "error"@) == Some(
            "invalid session request JSON: "@ + words@,
        ),
        command_step(Input::End) == Ok::<CommandStepView, Seq<char>>(CommandStepView::Close),
        command_step(Input::Failed(words)) is Err,
{
    lemma_keys();
}

/// A request to move a file is taken as it is: what it calls a push is an upload of exactly its local file to
/// exactly its remote path, what it calls a pull a download of exactly its remote file to exactly its local path.
/// A request without one of the paths, or for anything else, is answered with what is wrong with it, and so is a
/// line that is no request.
pub proof fn law_file_requests_are_taken_as_given(request: FileSessionRequest, words: String)
    ensures
        ({
            let named = request.local_path@.len() > 0 && request.remote_path@.len() > 0;
            let step = file_step(Input::Request(request));
            &&& named && request.operation@ == "push"@ ==> step == Ok::<FileStepView, Seq<char>>(
                FileStepView::Push { local_path: request.local_path@, remote_path: request.remote_path@ },
            )
            &&& named && request.operation@ == "pull"@ ==> step == Ok::<FileStepView, Seq<char>>(
                FileStepView::Pull { remote_path: request.remote_path@, local_path: request.local_path@ },
            )
            &&& !named ==> (step matches Ok(FileStepView::Reply(json)) && text_at(json, "stage"@) == Some(
                "validate_path"@,
            ) && flag_at(json, "ok"@) == Some(false))
            &&& named && request.operation@ != "push"@ && request.operation@ != "pull"@ ==> (step matches Ok(
                FileStepView::Reply(json),
            ) && text_at(json, "stage"@) == Some("validate_operation"@) && flag_at(json, "ok"@) == Some(false))
        }),
        file_step(Input::Malformed(words)) matches Ok(FileStepView::Reply(json)) && text_at(json, "stage"@) == Some(
            "validate_request"@,
        ) && flag_at(json, "ok"@) == Some(false) && text_at(json, "error"@) == Some(
            "invalid file-session request JSON: "@ + words@,
        ),
        file_step(Input::End) == Ok::<FileStepView, Seq<char>>(FileStepView::Close),
        file_step(Input::Failed(words)) is Err,
{
    lemma_keys();
    reveal_strlit("push");
    reveal_strlit("pull");
    assert("push"@[2] != "pull"@[2]);
}

/// An answer that refuses a request says so, where, and why, in the words that it was given.
pub proof fn law_rejections_say_why(stage: Seq<char>, error: Seq<char>)
    ensures
        flag_at(rejection(stage, error), "ok"@) == Some(false),
        text_at(rejection(stage, error), "stage"@) == Some(stage),
        text_at(rejection(stage, error), "error"@) == Some(error),
{
    lemma_keys();
}

/// The answer says of which device it is.
pub open spec fn names_device(json: Json, device_id: Seq<char>, peer: Peer) -> bool {
    &&& text_at(json, "device_id"@) == Some(device_id)
    &&& text_at(json, "hostname"@) == Some(peer.hostname@)
    &&& text_at(json, "platform"@) == Some(peer.platform@)
}

/// A session that is ready says for which channel and which device, which lines it speaks and how long it waits.
pub proof fn law_ready_says_for_what(channel: SessionChannel, device_id: Seq<char>, peer: Peer)
    ensures
        ({
            let json = ready_json(channel, device_id, peer);
            &&& text_at(json, "type"@) == Some("ready"@)
            &&& count_at(json, "protocol"@) == Some(1int)
            &&& count_at(json, "idle_timeout_seconds"@) == Some(300int)
            &&& text_at(json, "channel"@) == Some(
                if channel is Terminal {
                    "terminal"@
                } else {
                    "file"@
                },
            )
            &&& names_device(json, device_id, peer)
        }),
{
    lemma_keys();
}

/// The answers about a command that did not come to a result say of which device they are, that it was a command
/// that failed, and what is known: an interrupted one tells the reason in the place of its standard error, one
/// that took too long tells the time that was taken. Neither was run again, and the next one needs a new
/// connection.
pub proof fn law_unfinished_commands_are_told(device_id: Seq<char>, peer: Peer, error: Seq<char>, duration_ms: int)
    requires
        0 <= duration_ms,
    ensures
        ({
            let unfinished = |json: Json|
                names_device(json, device_id, peer) && text_at(json, "operation"@) == Some("exec"@) && flag_at(
                    json,
                    "ok"@,
                ) == Some(false) && member(json, "exit_code"@) == Some(Json::Number(Some(-1))) && text_at(
                    json,
                    "stdout"@,
                ) == Some(""@) && flag_at(json, "replayed"@) == Some(false) && flag_at(
                    json,
                    "reconnect_on_next_call"@,
                ) == Some(true);
            let interrupted = interrupted_json(device_id, peer, error);
            let late = timed_out_json(device_id, peer, duration_ms);
            &&& unfinished(interrupted)
            &&& text_at(interrupted, "stderr"@) == Some(error)
            &&& text_at(interrupted, "stage"@) == Some("session_disconnected"@)
            &&& count_at(interrupted, "duration_ms"@) == Some(0int)
            &&& unfinished(late)
            &&& text_at(late, "stderr"@) == Some(""@)
            &&& text_at(late, "stage"@) == Some("command_timeout"@)
            &&& count_at(late, "duration_ms"@) == Some(duration_ms)
            &&& flag_at(late, "timed_out"@) == Some(true)
            &&& flag_at(late, "output_complete"@) == Some(false)
        }),
{
    lemma_keys();
}

/// The answer about a transfer says of which device it is, in which direction and between which paths. A complete
/// one is a success that tells from where it was resumed. One that failed tells why, whether the connection was
/// lost and then how much was through, whether it can be resumed, how many bytes went over the connection, that
/// nothing was replayed and that the next one needs a new connection.
pub proof fn law_transfers_are_told(
    device_id: Seq<char>,
    peer: Peer,
    request: TransferRequest,
    stats: FileTransferStats,
    fault: Fault,
    resume_supported: bool,
    attempt_bytes: u64,
)
    ensures
        ({
            let told = |json: Json|
                names_device(json, device_id, peer) && text_at(json, "operation"@) == Some(
                    if request.upload {
                        "push"@
                    } else {
                        "pull"@
                    },
                ) && text_at(json, "local_path"@) == Some(request.local_path@) && text_at(json, "remote_path"@) == Some(
                    request.remote_path@,
                );
            let complete = completed_json(device_id, peer, request, stats);
            let broken = failed_json(device_id, peer, request, fault, resume_supported, attempt_bytes);
            &&& told(complete)
            &&& flag_at(complete, "ok"@) == Some(true)
            &&& text_at(complete, "stage"@) == Some("transfer_completed"@)
            &&& count_at(complete, "resumed_from"@) == Some(stats.resumed_from as int)
            &&& member(complete, "reconnect_on_next_call"@) is None
            &&& told(broken)
            &&& flag_at(broken, "ok"@) == Some(false)
            &&& text_at(broken, "error"@) == Some(fault.text)
            &&& text_at(broken, "stage"@) == Some(
                if fault.progress is Some {
                    "session_disconnected"@
                } else {
                    "transfer_failed"@
                },
            )
            &&& flag_at(broken, "resume_supported"@) == Some(resume_supported)
            &&& flag_at(broken, "partial_preserved"@) == Some(resume_supported)
            &&& count_at(broken, "attempt_bytes"@) == Some(attempt_bytes as int)
            &&& flag_at(broken, "replayed"@) == Some(false)
            &&& flag_at(broken, "reconnect_on_next_call"@) == Some(true)
            &&& fault.progress matches Some(progress) ==> count_at(broken, "progress_bytes"@) == Some(progress as int)
            &&& fault.progress is None ==> member(broken, "progress_bytes"@) is None
        }),
{
    lemma_keys();
}

/// The answer for a command that ran is the result of that command: its exit code and all of its output, from the
/// device that it ran on, and a success exactly where the exit code is zero.
pub proof fn law_results_are_the_commands(
    result: ExecResult,
    device_id: Seq<char>,
    peer: Peer,
    captured: CapturedCommand,
)
    requires
        answers_command(result, device_id, peer, captured),
    ensures
        result.exit_code == captured.exit_code,
        result.ok <==> captured.exit_code == 0,
        result.stdout@ == captured.stdout@ && result.stderr@ == captured.stderr@,
        result.device_id@ == device_id && result.hostname@ == peer.hostname@ && result.platform@ == peer.platform@,
        result.duration_ms == captured.duration_ms,
        result.operation@ == "exec"@ && result.stage@ == "command_completed"@,
{
}

/// Between requests a session waits: it ends when its time is over, it fails when the connection is lost or the
/// device reports an error that is its own, and it sends a probe of the delay back exactly where that is not an
/// answer.
pub proof fn law_idle_sessions_wait(channel: SessionChannel, words: String, kind: String, exit_code: i32)
    ensures
        idle_next(channel, IdleEvent::Expired) == Ok::<IdleStep, Seq<char>>(IdleStep::Close),
        idle_next(channel, IdleEvent::Incoming(Incoming::Closed)) is Err,
        idle_next(channel, IdleEvent::Incoming(Incoming::StreamError(words))) is Err,
        idle_next(channel, IdleEvent::Incoming(Incoming::Malformed(words))) is Err,
        idle_next(channel, IdleEvent::KeepaliveFailed(words)) is Err,
        idle_next(channel, IdleEvent::EchoFailed(words)) == Err::<IdleStep, Seq<char>>(words@),
        ({
            let heard = |message: PeerMessage| idle_next(channel, IdleEvent::Incoming(Incoming::Message(message)));
            let waits = Ok::<IdleStep, Seq<char>>(IdleStep::Wait);
            &&& heard(PeerMessage::TestDelay { from_client: false }) == Ok::<IdleStep, Seq<char>>(IdleStep::Echo)
            &&& heard(PeerMessage::TestDelay { from_client: true }) == waits
            &&& heard(PeerMessage::Other) == waits
            &&& heard(PeerMessage::Login(crate::message::LoginReply::Error(words))) is Err <==> words@.len() > 0
            &&& heard(PeerMessage::MessageBox { kind, text: words }) is Err <==> kind@ == "error"@
            &&& heard(PeerMessage::Terminal(TerminalReply::Closed { exit_code })) is Err <==> channel is Terminal
            &&& heard(PeerMessage::Terminal(TerminalReply::Error(words))) is Err <==> channel is Terminal
            &&& channel is File ==> heard(PeerMessage::Terminal(TerminalReply::Closed { exit_code })) == waits
        }),
{
}

/// The answer is for a run that was for one command, and for no other.
pub proof fn law_runs_are_for_what_they_did(end: RunEnd)
    ensures
        end_mode(end) is Exec <==> end is Exec,
        end_mode(end) is Terminal <==> end is Terminal,
        end_mode(end) is Session <==> end is Session,
        end_mode(end) is FileSession <==> end is FileSession,
        end_mode(end) is Push <==> end is Push,
        end_mode(end) is Pull <==> end is Pull,
{
}

/// The steps of a session are seen as what they are.
pub proof fn law_steps_are_seen_as_they_are(
    value: serde_json::Value,
    command: String,
    timeout_seconds: u64,
    local_path: String,
    remote_path: String,
    words: String,
)
    ensures
        command_told(Ok(CommandStep::Reply(value))) == Ok::<CommandStepView, Seq<char>>(
            CommandStepView::Reply(json_of(value)),
        ),
        command_told(Ok(CommandStep::Run { command, timeout_seconds })) == Ok::<CommandStepView, Seq<char>>(
            CommandStepView::Run { command: command@, timeout_seconds },
        ),
        command_told(Ok(CommandStep::Close)) == Ok::<CommandStepView, Seq<char>>(CommandStepView::Close),
        command_told(Err(words)) == Err::<CommandStepView, Seq<char>>(words@),
        file_told(Ok(FileStep::Reply(value))) == Ok::<FileStepView, Seq<char>>(FileStepView::Reply(json_of(value))),
        file_told(Ok(FileStep::Push { local_path, remote_path })) == Ok::<FileStepView, Seq<char>>(
            FileStepView::Push { local_path: local_path@, remote_path: remote_path@ },
        ),
        file_told(Ok(FileStep::Pull { remote_path, local_path })) == Ok::<FileStepView, Seq<char>>(
            FileStepView::Pull { remote_path: remote_path@, local_path: local_path@ },
        ),
        file_told(Ok(FileStep::Close)) == Ok::<FileStepView, Seq<char>>(FileStepView::Close),
        file_told(Err(words)) == Err::<FileStepView, Seq<char>>(words@),
{
}

/// What ends a session between requests is told in words that say where it ended and why; a terminal that closes or
/// fails ends a session that runs commands, and no other.
pub proof fn law_sessions_end_with_words(channel: SessionChannel, words: String, exit_code: i32)
    ensures
        ({
            let heard = |incoming: Incoming| idle_next(channel, IdleEvent::Incoming(incoming));
            let told = |text: Seq<char>| Err::<IdleStep, Seq<char>>(text);
            let terminal = channel is Terminal;
            let place = if terminal {
                "session_idle"@
            } else {
                "file_session_idle"@
            };
            &&& heard(Incoming::Closed) == told("["@ + place + "] connection closed by peer"@)
            &&& heard(Incoming::StreamError(words)) == told("["@ + place + "] stream error: "@ + words@)
            &&& heard(Incoming::Malformed(words)) == told(
                (if terminal {
                    "[session_idle] invalid message"@
                } else {
                    "[file_session_idle] invalid message"@
                }) + ": "@ + words@,
            )
            &&& idle_next(channel, IdleEvent::KeepaliveFailed(words)) == told(
                (if terminal {
                    "[session_keepalive] failed to keep session alive"@
                } else {
                    "[file_session_keepalive] failed to keep session alive"@
                }) + ": "@ + words@,
            )
            &&& heard(Incoming::Message(PeerMessage::Terminal(TerminalReply::Closed { exit_code }))) == (if terminal {
                told("[session_idle] terminal closed (session exit code: "@ + signed_decimal(exit_code as int) + ")"@)
            } else {
                Ok(IdleStep::Wait)
            })
            &&& heard(Incoming::Message(PeerMessage::Terminal(TerminalReply::Error(words)))) == (if terminal {
                told("Terminal error: "@ + words@)
            } else {
                Ok(IdleStep::Wait)
            })
            &&& forall|kind: String| #[trigger]
                heard(Incoming::Message(PeerMessage::MessageBox { kind, text: words })) == (if kind@ != "error"@ {
                    Ok(IdleStep::Wait)
                } else if terminal {
                    told("Remote session failed: "@ + words@)
                } else {
                    told("Remote file session failed: "@ + words@)
                })
        }),
        command_step(Input::Failed(words)) == Err::<CommandStepView, Seq<char>>(
            "[session_stdin] failed to read request"@ + ": "@ + words@,
        ),
        file_step(Input::Failed(words)) == Err::<FileStepView, Seq<char>>(
            "[file_session_stdin] failed to read request"@ + ": "@ + words@,
        ),
{
}

/// A request to a file session that will not do is answered with what is wrong with it.
pub proof fn law_unusable_file_requests_are_answered(request: FileSessionRequest)
    ensures
        ({
            let answer = file_step(Input::Request(request));
            let told = |stage: Seq<char>, text: Seq<char>|
                answer matches Ok(FileStepView::Reply(json)) && flag_at(json, "ok"@) == Some(false) && text_at(
                    json,
                    "stage"@,
                ) == Some(stage) && text_at(json, "error"@) == Some(text);
            if request.local_path@.len() == 0 || request.remote_path@.len() == 0 {
                told("validate_path"@, "local_path and remote_path cannot be empty"@)
            } else {
                request.operation@ != "push"@ && request.operation@ != "pull"@ ==> told(
                    "validate_operation"@,
                    "operation must be push or pull"@,
                )
            }
        }),
{
    lemma_keys();
}

/// Every answer of a session holds the members that it should, and no other.
pub proof fn law_answers_hold_nothing_else(
    channel: SessionChannel,
    device_id: Seq<char>,
    peer: Peer,
    request: TransferRequest,
    stats: FileTransferStats,
    fault: Fault,
    resume_supported: bool,
    bytes: u64,
    words: Seq<char>,
    duration_ms: int,
    key: Seq<char>,
)
    ensures
        ({
            let device = key == "device_id"@ || key == "hostname"@ || key == "platform"@;
            let transfer = device || key == "operation"@ || key == "local_path"@ || key == "remote_path"@;
            let command = device || key == "operation"@ || key == "exit_code"@ || key == "stdout"@ || key == "stderr"@
                || key == "duration_ms"@ || key == "ok"@ || key == "stage"@ || key == "replayed"@ || key
                == "reconnect_on_next_call"@;
            &&& member(rejection(words, words), key) is Some <==> key == "ok"@ || key == "stage"@ || key == "error"@
            &&& member(ready_json(channel, device_id, peer), key) is Some <==> device || key == "protocol"@ || key
                == "idle_timeout_seconds"@ || key == "channel"@ || key == "type"@
            &&& member(interrupted_json(device_id, peer, words), key) is Some <==> command
            &&& member(timed_out_json(device_id, peer, duration_ms), key) is Some <==> command || key == "timed_out"@
                || key == "output_complete"@
            &&& member(failed_json(device_id, peer, request, fault, resume_supported, bytes), key) is Some <==> transfer
                || key == "ok"@ || key == "error"@ || key == "replayed"@ || key == "stage"@ || key
                == "resume_supported"@ || key == "partial_preserved"@ || key == "attempt_bytes"@ || key
                == "reconnect_on_next_call"@ || (key == "progress_bytes"@ && fault.progress is Some)
            &&& member(completed_json(device_id, peer, request, stats), key) is Some <==> transfer
                || key == "ok"@ || key == "stage"@ || key == "resumed_from"@
        }),
{
    lemma_keys();
}

/// A message that calls for nothing leaves a session waiting, whatever the message is.
pub proof fn law_other_messages_leave_the_session(channel: SessionChannel, message: PeerMessage)
    requires
        match message {
            PeerMessage::TestDelay { from_client } => from_client,
            PeerMessage::Terminal(reply) => channel is File || reply is Opened || reply is Data || reply is Other,
            PeerMessage::Login(reply) => !(reply is Error),
            PeerMessage::MessageBox { kind, text } => kind@ != "error"@,
            _ => true,
        },
    ensures
        idle_next(channel, IdleEvent::Incoming(Incoming::Message(message))) == Ok::<IdleStep, Seq<char>>(IdleStep::Wait),
{
}

}
