//! A session as a state: it waits for a request, works on one, and is over.
//!
//! Each event moves the session and gives the next thing to do. Reading lines, writing answers, running
//! commands and moving files are left to the caller.

use vstd::prelude::*;
use vstd::string::*;

use crate::exec::{exec_next, timeout_text, ExecEvent, ExecStepView, RunView};
use crate::json::{count_at, flag_at, json_of, lemma_keys, text_at, Json};
use crate::message::{Incoming, Peer, PeerMessage};
use crate::session::{
    answers_command, command_step, completed_json, completed_reply, exec_result, failed_json, failed_reply, file_step, idle_at,
    idle_next, idle_time, interrupted_json, interrupted_reply, timed_out_json, timed_out_reply, take_command, take_file_request, take_idle,
    CapturedCommand, CommandSessionRequest, CommandStep, CommandStepView, ExecResult, FileSessionRequest, FileStep,
    FileStepView, IdleEvent, IdleStep, Input, SessionChannel, TransferRequest,
};
use crate::transfer::{error_text, FileTransferStats, TransferError};

verus! {

/// Where a session is.
#[derive(Clone, Copy, Debug, PartialEq, Eq, Structural)]
pub enum SessionPhase {
    /// It waits for a request.
    Waiting,
    /// It works on one.
    Working,
    /// It has ended.
    Over,
}

// ---------------------------------------------------------------------------
// Commands
// ---------------------------------------------------------------------------

/// A session that runs commands.
pub struct CommandSession {
    pub device_id: String,
    pub peer: Peer,
    pub phase: SessionPhase,
    /// When the last command was done, in milliseconds on the session's clock.
    pub last_request: u64,
}

/// What happens to a session that runs commands.
pub enum CommandEvent {
    /// A line was read.
    Line(Input<CommandSessionRequest>),
    /// Something happened between requests.
    Idle(IdleEvent),
    /// The command is done, or was interrupted.
    Finished(Result<CapturedCommand, String>),
    /// The time of the command was over before its result came: so long it was waited for, and the words
    /// for it.
    TimedOut { duration_ms: u64, error: String },
}

/// What a session that runs commands does next.
pub enum CommandAction {
    Wait,
    /// Send the probe of the delay back.
    Echo,
    /// Write an answer, and wait for the next request.
    Reply(serde_json::Value),
    /// Run a command.
    Run { command: String, timeout_seconds: u64 },
    /// Write the result of the command, and wait for the next request.
    Answer(ExecResult),
    /// Close the terminal, and end.
    Close,
    /// Close the terminal, write the answer, and end with the error.
    Abort { reply: serde_json::Value, error: String },
    /// End with the error.
    Fail(String),
}

/// What a session that runs commands does next, as a value.
pub enum CommandActionView {
    Wait,
    Echo,
    Reply(Json),
    Run { command: Seq<char>, timeout_seconds: u64 },
    Answer { exit_code: i32, stdout: Seq<char>, stderr: Seq<char>, duration_ms: u128 },
    Close,
    Abort { reply: Json, error: Seq<char> },
    Fail(Seq<char>),
}

impl View for CommandAction {
    type V = CommandActionView;

    open spec fn view(&self) -> CommandActionView {
        match self {
            CommandAction::Wait => CommandActionView::Wait,
            CommandAction::Echo => CommandActionView::Echo,
            CommandAction::Reply(value) => CommandActionView::Reply(json_of(*value)),
            CommandAction::Run { command, timeout_seconds } => CommandActionView::Run {
                command: command@,
                timeout_seconds: *timeout_seconds,
            },
            CommandAction::Answer(result) => CommandActionView::Answer {
                exit_code: result.exit_code,
                stdout: result.stdout@,
                stderr: result.stderr@,
                duration_ms: result.duration_ms,
            },
            CommandAction::Close => CommandActionView::Close,
            CommandAction::Abort { reply, error } => CommandActionView::Abort {
                reply: json_of(*reply),
                error: error@,
            },
            CommandAction::Fail(error) => CommandActionView::Fail(error@),
        }
    }
}

/// The events that may come in a phase.
pub open spec fn command_may_come(phase: SessionPhase, event: CommandEvent) -> bool {
    match phase {
        SessionPhase::Waiting => event is Line || event is Idle,
        SessionPhase::Working => event is Finished || event is TimedOut,
        SessionPhase::Over => false,
    }
}

/// What a session that runs commands does on an event.
pub open spec fn command_action(device_id: Seq<char>, peer: Peer, event: CommandEvent) -> CommandActionView {
    match event {
        CommandEvent::Line(input) => match command_step(input) {
            Ok(CommandStepView::Reply(json)) => CommandActionView::Reply(json),
            Ok(CommandStepView::Run { command, timeout_seconds }) => CommandActionView::Run {
                command,
                timeout_seconds,
            },
            Ok(CommandStepView::Close) => CommandActionView::Close,
            Err(error) => CommandActionView::Fail(error),
        },
        CommandEvent::Idle(event) => match idle_next(SessionChannel::Terminal, event) {
            Ok(IdleStep::Wait) => CommandActionView::Wait,
            Ok(IdleStep::Echo) => CommandActionView::Echo,
            Ok(IdleStep::Close) => CommandActionView::Close,
            Err(error) => CommandActionView::Fail(error),
        },
        CommandEvent::Finished(Ok(captured)) => CommandActionView::Answer {
            exit_code: captured.exit_code,
            stdout: captured.stdout@,
            stderr: captured.stderr@,
            duration_ms: captured.duration_ms,
        },
        CommandEvent::Finished(Err(error)) => CommandActionView::Abort {
            reply: interrupted_json(device_id, peer, error@),
            error: error@,
        },
        CommandEvent::TimedOut { duration_ms, error } => CommandActionView::Abort {
            reply: timed_out_json(device_id, peer, duration_ms as int),
            error: error@,
        },
    }
}

/// The phase after an action.
pub open spec fn command_phase(action: CommandActionView) -> SessionPhase {
    match action {
        CommandActionView::Run { .. } => SessionPhase::Working,
        CommandActionView::Close => SessionPhase::Over,
        CommandActionView::Abort { .. } => SessionPhase::Over,
        CommandActionView::Fail(_) => SessionPhase::Over,
        _ => SessionPhase::Waiting,
    }
}

impl CommandSession {
    /// A session whose terminal is open at `now`.
    pub fn start(device_id: String, peer: Peer, now: u64) -> (s: CommandSession)
        ensures
            s.device_id@ == device_id@,
            s.peer == peer,
            s.phase is Waiting,
            s.last_request == now,
    {
        CommandSession { device_id, peer, phase: SessionPhase::Waiting, last_request: now }
    }

    /// When the session ends, unless a request comes before.
    pub fn deadline(&self) -> (at: u64)
        ensures
            at == idle_at(self.last_request),
    {
        idle_time(self.last_request)
    }

    /// Takes an event at `now` and gives what to do next.
    pub fn command_session_loop(&mut self, now: u64, event: CommandEvent) -> (action: CommandAction)
        requires
            command_may_come(old(self).phase, event),
        ensures
            action@ == command_action(old(self).device_id@, old(self).peer, event),
            final(self).phase == command_phase(action@),
            final(self).device_id@ == old(self).device_id@,
            final(self).peer == old(self).peer,
            final(self).last_request == (if event is Finished || event is TimedOut {
                now
            } else {
                old(self).last_request
            }),
            event matches CommandEvent::TimedOut { duration_ms, error } ==> action@ == (CommandActionView::Abort {
                reply: timed_out_json(old(self).device_id@, old(self).peer, duration_ms as int),
                error: error@,
            }) && final(self).phase is Over,
            action matches CommandAction::Answer(result) ==> (event matches CommandEvent::Finished(Ok(captured))
                && answers_command(result, old(self).device_id@, old(self).peer, captured)),
    {
        let action = match event {
            CommandEvent::Line(input) => match take_command(input) {
                Ok(CommandStep::Reply(value)) => CommandAction::Reply(value),
                Ok(CommandStep::Run { command, timeout_seconds }) => CommandAction::Run { command, timeout_seconds },
                Ok(CommandStep::Close) => CommandAction::Close,
                Err(error) => CommandAction::Fail(error),
            },
            CommandEvent::Idle(event) => match take_idle(SessionChannel::Terminal, &event) {
                Ok(IdleStep::Wait) => CommandAction::Wait,
                Ok(IdleStep::Echo) => CommandAction::Echo,
                Ok(IdleStep::Close) => CommandAction::Close,
                Err(error) => CommandAction::Fail(error),
            },
            CommandEvent::Finished(result) => {
                self.last_request = now;
                match result {
                    Ok(captured) => CommandAction::Answer(
                        exec_result(self.device_id.as_str(), &self.peer, captured),
                    ),
                    Err(error) => CommandAction::Abort {
                        reply: interrupted_reply(self.device_id.as_str(), &self.peer, error.as_str()),
                        error,
                    },
                }
            },
            CommandEvent::TimedOut { duration_ms, error } => {
                self.last_request = now;
                CommandAction::Abort {
                    reply: timed_out_reply(self.device_id.as_str(), &self.peer, duration_ms),
                    error,
                }
            },
        };
        self.phase = match &action {
            CommandAction::Run { .. } => SessionPhase::Working,
            CommandAction::Close | CommandAction::Abort { .. } | CommandAction::Fail(_) => SessionPhase::Over,
            _ => SessionPhase::Waiting,
        };
        action
    }
}

// ---------------------------------------------------------------------------
// Files
// ---------------------------------------------------------------------------

/// A session that moves files.
pub struct FileSession {
    pub device_id: String,
    pub peer: Peer,
    /// The remote device keeps partial files.
    pub resume_supported: bool,
    pub phase: SessionPhase,
    /// When the last transfer was done, in milliseconds on the session's clock.
    pub last_request: u64,
}

/// How a transfer ended, and how many bytes went over this connection for it.
pub struct TransferEnd {
    pub request: TransferRequest,
    pub result: Result<FileTransferStats, TransferError>,
    pub attempt_bytes: u64,
}

/// What happens to a session that moves files.
pub enum FileEvent {
    /// A line was read.
    Line(Input<FileSessionRequest>),
    /// Something happened between requests.
    Idle(IdleEvent),
    /// The transfer has ended.
    Finished(TransferEnd),
}

/// What a session that moves files does next.
pub enum FileAction {
    Wait,
    /// Send the probe of the delay back.
    Echo,
    /// Write an answer, and wait for the next request.
    Reply(serde_json::Value),
    /// Move a file.
    Transfer(TransferRequest),
    /// End.
    Close,
    /// Write the answer, and end with the error.
    Abort { reply: serde_json::Value, error: String },
    /// End with the error.
    Fail(String),
}

/// What a session that moves files does next, as a value.
pub enum FileActionView {
    Wait,
    Echo,
    Reply(Json),
    Transfer { upload: bool, local_path: Seq<char>, remote_path: Seq<char> },
    Close,
    Abort { reply: Json, error: Seq<char> },
    Fail(Seq<char>),
}

impl View for FileAction {
    type V = FileActionView;

    open spec fn view(&self) -> FileActionView {
        match self {
            FileAction::Wait => FileActionView::Wait,
            FileAction::Echo => FileActionView::Echo,
            FileAction::Reply(value) => FileActionView::Reply(json_of(*value)),
            FileAction::Transfer(request) => FileActionView::Transfer {
                upload: request.upload,
                local_path: request.local_path@,
                remote_path: request.remote_path@,
            },
            FileAction::Close => FileActionView::Close,
            FileAction::Abort { reply, error } => FileActionView::Abort { reply: json_of(*reply), error: error@ },
            FileAction::Fail(error) => FileActionView::Fail(error@),
        }
    }
}

/// The events that may come in a phase.
pub open spec fn file_may_come(phase: SessionPhase, event: FileEvent) -> bool {
    match phase {
        SessionPhase::Waiting => event is Line || event is Idle,
        SessionPhase::Working => event is Finished,
        SessionPhase::Over => false,
    }
}

/// What a session that moves files does on an event.
pub open spec fn file_action(
    device_id: Seq<char>,
    peer: Peer,
    resume_supported: bool,
    event: FileEvent,
) -> FileActionView {
    match event {
        FileEvent::Line(input) => match file_step(input) {
            Ok(FileStepView::Reply(json)) => FileActionView::Reply(json),
            Ok(FileStepView::Push { local_path, remote_path }) => FileActionView::Transfer {
                upload: true,
                local_path,
                remote_path,
            },
            Ok(FileStepView::Pull { remote_path, local_path }) => FileActionView::Transfer {
                upload: false,
                local_path,
                remote_path,
            },
            Ok(FileStepView::Close) => FileActionView::Close,
            Err(error) => FileActionView::Fail(error),
        },
        FileEvent::Idle(event) => match idle_next(SessionChannel::File, event) {
            Ok(IdleStep::Wait) => FileActionView::Wait,
            Ok(IdleStep::Echo) => FileActionView::Echo,
            Ok(IdleStep::Close) => FileActionView::Close,
            Err(error) => FileActionView::Fail(error),
        },
        FileEvent::Finished(end) => match end.result {
            Ok(stats) => FileActionView::Reply(completed_json(device_id, peer, end.request, stats)),
            Err(error) => FileActionView::Abort {
                reply: failed_json(device_id, peer, end.request, error@, resume_supported, end.attempt_bytes),
                error: error@.text,
            },
        },
    }
}

/// The phase after an action.
pub open spec fn file_phase(action: FileActionView) -> SessionPhase {
    match action {
        FileActionView::Transfer { .. } => SessionPhase::Working,
        FileActionView::Close => SessionPhase::Over,
        FileActionView::Abort { .. } => SessionPhase::Over,
        FileActionView::Fail(_) => SessionPhase::Over,
        _ => SessionPhase::Waiting,
    }
}

impl FileSession {
    /// A session that is ready at `now`.
    pub fn start(device_id: String, peer: Peer, resume_supported: bool, now: u64) -> (s: FileSession)
        ensures
            s.device_id@ == device_id@,
            s.peer == peer,
            s.resume_supported == resume_supported,
            s.phase is Waiting,
            s.last_request == now,
    {
        FileSession { device_id, peer, resume_supported, phase: SessionPhase::Waiting, last_request: now }
    }

    /// When the session ends, unless a request comes before.
    pub fn deadline(&self) -> (at: u64)
        ensures
            at == idle_at(self.last_request),
    {
        idle_time(self.last_request)
    }

    /// Takes an event at `now` and gives what to do next.
    pub fn file_session_loop(&mut self, now: u64, event: FileEvent) -> (action: FileAction)
        requires
            file_may_come(old(self).phase, event),
        ensures
            action@ == file_action(old(self).device_id@, old(self).peer, old(self).resume_supported, event),
            final(self).phase == file_phase(action@),
            final(self).device_id@ == old(self).device_id@,
            final(self).peer == old(self).peer,
            final(self).resume_supported == old(self).resume_supported,
            final(self).last_request == (if event is Finished {
                now
            } else {
                old(self).last_request
            }),
    {
        let action = match event {
            FileEvent::Line(input) => match take_file_request(input) {
                Ok(FileStep::Reply(value)) => FileAction::Reply(value),
                Ok(FileStep::Push { local_path, remote_path }) => FileAction::Transfer(
                    TransferRequest { upload: true, local_path, remote_path },
                ),
                Ok(FileStep::Pull { remote_path, local_path }) => FileAction::Transfer(
                    TransferRequest { upload: false, local_path, remote_path },
                ),
                Ok(FileStep::Close) => FileAction::Close,
                Err(error) => FileAction::Fail(error),
            },
            FileEvent::Idle(event) => match take_idle(SessionChannel::File, &event) {
                Ok(IdleStep::Wait) => FileAction::Wait,
                Ok(IdleStep::Echo) => FileAction::Echo,
                Ok(IdleStep::Close) => FileAction::Close,
                Err(error) => FileAction::Fail(error),
            },
            FileEvent::Finished(end) => {
                self.last_request = now;
                match end.result {
                    Ok(stats) => FileAction::Reply(
                        completed_reply(self.device_id.as_str(), &self.peer, &end.request, stats),
                    ),
                    Err(error) => FileAction::Abort {
                        reply: failed_reply(
                            self.device_id.as_str(),
                            &self.peer,
                            &end.request,
                            &error,
                            self.resume_supported,
                            end.attempt_bytes,
                        ),
                        error: error_text(&error),
                    },
                }
            },
        };
        self.phase = match &action {
            FileAction::Transfer(_) => SessionPhase::Working,
            FileAction::Close | FileAction::Abort { .. } | FileAction::Fail(_) => SessionPhase::Over,
            _ => SessionPhase::Waiting,
        };
        action
    }
}

// ---------------------------------------------------------------------------
// Laws
// ---------------------------------------------------------------------------

/// A command runs because a request for it was read, and for no other reason: one that was interrupted, or
/// whose time was over, is never run again. Either ends the session.
pub proof fn law_commands_are_never_replayed(device_id: Seq<char>, peer: Peer, event: CommandEvent)
    ensures
        command_action(device_id, peer, event) matches CommandActionView::Run { command, timeout_seconds }
            ==> event matches CommandEvent::Line(Input::Request(request)) && request.command@ == command
            && request.timeout_seconds == timeout_seconds,
        event matches CommandEvent::Finished(Err(_)) ==> command_phase(command_action(device_id, peer, event))
            is Over,
        event is TimedOut ==> command_phase(command_action(device_id, peer, event)) is Over,
        event matches CommandEvent::Finished(Ok(_)) ==> command_phase(command_action(device_id, peer, event))
            is Waiting,
{
}

/// A command that reaches its deadline is answered as such: what the wait for its result gives then, the
/// session takes, tells the time that was taken and ends.
pub proof fn law_deadline_is_answered(
    device_id: Seq<char>,
    peer: Peer,
    run: RunView,
    duration_ms: u64,
    error: String,
)
    requires
        exec_next(run, ExecEvent::Deadline).1 == Ok::<ExecStepView, Seq<char>>(ExecStepView::TimedOut(error@)),
    ensures
        error@ == timeout_text(run.timeout_seconds),
        command_action(device_id, peer, CommandEvent::TimedOut { duration_ms, error }) == (CommandActionView::Abort {
            reply: timed_out_json(device_id, peer, duration_ms as int),
            error: timeout_text(run.timeout_seconds),
        }),
        command_phase(command_action(device_id, peer, CommandEvent::TimedOut { duration_ms, error })) is Over,
{
}

/// A file moves because a request for it was read, and for no other reason. A transfer that failed ends the
/// session; one that is complete does not.
pub proof fn law_transfers_are_never_replayed(
    device_id: Seq<char>,
    peer: Peer,
    resume_supported: bool,
    event: FileEvent,
)
    ensures
        file_action(device_id, peer, resume_supported, event) matches FileActionView::Transfer {
            upload,
            local_path,
            remote_path,
        } ==> event matches FileEvent::Line(Input::Request(request)) && request.local_path@ == local_path
            && request.remote_path@ == remote_path && request.operation@ == crate::session::operation_name(upload),
        event matches FileEvent::Finished(end) ==> ((end.result is Ok <==> file_phase(
            file_action(device_id, peer, resume_supported, event),
        ) is Waiting) && (end.result is Err <==> file_phase(
            file_action(device_id, peer, resume_supported, event),
        ) is Over)),
{
}

/// Only the end of the requests or a failure to read them ends a session that reads a line: a line that is
/// no request, or that asks for what cannot be, is answered, and the session goes on.
pub proof fn law_bad_lines_are_answered(
    device_id: Seq<char>,
    peer: Peer,
    resume_supported: bool,
    command: Input<CommandSessionRequest>,
    file: Input<FileSessionRequest>,
)
    ensures
        command_phase(command_action(device_id, peer, CommandEvent::Line(command))) is Over <==> (command is End
            || command is Failed),
        command is Malformed ==> command_action(device_id, peer, CommandEvent::Line(command)) is Reply,
        file_phase(file_action(device_id, peer, resume_supported, FileEvent::Line(file))) is Over <==> (file is End
            || file is Failed),
        file is Malformed ==> file_action(device_id, peer, resume_supported, FileEvent::Line(file)) is Reply,
{
}

/// A session of commands does what its requests say: a command that is asked for and can be is run as it is, its
/// result is the answer and the session waits on; the end of the requests, and an idle time that is over, close
/// it; a lost connection ends it. The answer to a command that did not come to a result is written before the
/// end.
pub proof fn law_command_session_does_what_is_asked(
    device_id: Seq<char>,
    peer: Peer,
    request: CommandSessionRequest,
    captured: CapturedCommand,
    words: String,
    duration_ms: u64,
)
    ensures
        ({
            let does = |event: CommandEvent| command_action(device_id, peer, event);
            let next = |event: CommandEvent| command_phase(command_action(device_id, peer, event));
            let blank = forall|i: int| 0 <= i < request.command@.len() ==> crate::text::is_space(
                #[trigger] request.command@[i],
            );
            let accepted = 1 <= request.timeout_seconds <= 300 && !blank && vstd::utf8::encode_utf8(
                request.command@,
            ).len() <= 16384;
            let asked = CommandEvent::Line(Input::Request(request));
            &&& accepted ==> does(asked) == (CommandActionView::Run {
                command: request.command@,
                timeout_seconds: request.timeout_seconds,
            }) && next(asked) is Working
            &&& !accepted ==> does(asked) is Reply && next(asked) is Waiting
            &&& does(CommandEvent::Finished(Ok(captured))) == (CommandActionView::Answer {
                exit_code: captured.exit_code,
                stdout: captured.stdout@,
                stderr: captured.stderr@,
                duration_ms: captured.duration_ms,
            })
            &&& next(CommandEvent::Finished(Ok(captured))) is Waiting
            &&& does(CommandEvent::Finished(Err(words))) matches CommandActionView::Abort { reply, error } && error
                == words@ && text_at(reply, "stderr"@) == Some(words@) && text_at(reply, "stage"@) == Some(
                "session_disconnected"@,
            ) && flag_at(reply, "ok"@) == Some(false)
            &&& does(CommandEvent::TimedOut { duration_ms, error: words }) matches CommandActionView::Abort {
                reply,
                error,
            } && error == words@ && text_at(reply, "stage"@) == Some("command_timeout"@) && count_at(
                reply,
                "duration_ms"@,
            ) == Some(duration_ms as int) && flag_at(reply, "ok"@) == Some(false)
            &&& does(CommandEvent::Line(Input::End)) is Close && next(CommandEvent::Line(Input::End)) is Over
            &&& does(CommandEvent::Idle(IdleEvent::Expired)) is Close && next(CommandEvent::Idle(IdleEvent::Expired))
                is Over
            &&& does(CommandEvent::Idle(IdleEvent::Incoming(Incoming::Closed))) is Fail && next(
                CommandEvent::Idle(IdleEvent::Incoming(Incoming::Closed)),
            ) is Over
            &&& does(CommandEvent::Line(Input::Failed(words))) is Fail
            &&& does(
                CommandEvent::Idle(
                    IdleEvent::Incoming(Incoming::Message(PeerMessage::TestDelay { from_client: false })),
                ),
            ) is Echo
        }),
{
    lemma_keys();
}

/// A session of transfers does what its requests say: exactly the transfer that is asked for, between exactly its
/// two paths. A complete one is answered and the session waits on; one that failed is answered, in its own words,
/// before the session ends. The end of the requests, and an idle time that is over, close it; a lost connection
/// ends it.
pub proof fn law_file_session_does_what_is_asked(
    device_id: Seq<char>,
    peer: Peer,
    resume_supported: bool,
    request: FileSessionRequest,
    end: TransferEnd,
    words: String,
)
    ensures
        ({
            let does = |event: FileEvent| file_action(device_id, peer, resume_supported, event);
            let next = |event: FileEvent| file_phase(file_action(device_id, peer, resume_supported, event));
            let named = request.local_path@.len() > 0 && request.remote_path@.len() > 0;
            let asked = FileEvent::Line(Input::Request(request));
            &&& named && (request.operation@ == "push"@ || request.operation@ == "pull"@) ==> does(asked) == (
            FileActionView::Transfer {
                upload: request.operation@ == "push"@,
                local_path: request.local_path@,
                remote_path: request.remote_path@,
            }) && next(asked) is Working
            &&& !(named && (request.operation@ == "push"@ || request.operation@ == "pull"@)) ==> does(asked) is Reply
                && next(asked) is Waiting
            &&& match end.result {
                Ok(stats) => (does(FileEvent::Finished(end)) matches FileActionView::Reply(json) && flag_at(
                    json,
                    "ok"@,
                ) == Some(true) && count_at(json, "resumed_from"@) == Some(stats.resumed_from as int) && text_at(
                    json,
                    "local_path"@,
                ) == Some(end.request.local_path@) && text_at(json, "remote_path"@) == Some(end.request.remote_path@)
                    && text_at(json, "device_id"@) == Some(device_id)) && next(FileEvent::Finished(end)) is Waiting,
                Err(fault) => (does(FileEvent::Finished(end)) matches FileActionView::Abort { reply, error } && error
                    == fault@.text && flag_at(reply, "ok"@) == Some(false) && text_at(reply, "error"@) == Some(
                    fault@.text,
                ) && flag_at(reply, "resume_supported"@) == Some(resume_supported) && count_at(reply, "attempt_bytes"@)
                    == Some(end.attempt_bytes as int) && text_at(reply, "stage"@) == Some(
                    if fault@.progress is Some {
                        "session_disconnected"@
                    } else {
                        "transfer_failed"@
                    },
                ) && (fault@.progress matches Some(n) ==> count_at(reply, "progress_bytes"@) == Some(n as int)) && text_at(
                    reply,
                    "device_id"@,
                ) == Some(device_id)) && next(FileEvent::Finished(end)) is Over,
            }
            &&& does(FileEvent::Line(Input::End)) is Close && next(FileEvent::Line(Input::End)) is Over
            &&& does(FileEvent::Idle(IdleEvent::Expired)) is Close && next(FileEvent::Idle(IdleEvent::Expired)) is Over
            &&& does(FileEvent::Idle(IdleEvent::Incoming(Incoming::Closed))) is Fail && next(
                FileEvent::Idle(IdleEvent::Incoming(Incoming::Closed)),
            ) is Over
            &&& does(FileEvent::Line(Input::Failed(words))) is Fail
            &&& does(
                FileEvent::Idle(
                    IdleEvent::Incoming(Incoming::Message(PeerMessage::TestDelay { from_client: false })),
                ),
            ) is Echo
        }),
{
    lemma_keys();
    reveal_strlit("push");
    reveal_strlit("pull");
    assert("push"@[2] != "pull"@[2]);
}

/// An action is seen as what it holds.
pub proof fn law_actions_are_seen_as_they_are(command: CommandAction, file: FileAction)
    ensures
        match command {
            CommandAction::Wait => command@ is Wait,
            CommandAction::Echo => command@ is Echo,
            CommandAction::Close => command@ is Close,
            CommandAction::Reply(value) => command@ == CommandActionView::Reply(json_of(value)),
            CommandAction::Run { command: text, timeout_seconds } => command@ matches CommandActionView::Run {
                command: c,
                timeout_seconds: t,
            } && c == text@ && t == timeout_seconds,
            CommandAction::Answer(result) => command@ matches CommandActionView::Answer {
                exit_code,
                stdout,
                stderr,
                duration_ms,
            } && exit_code == result.exit_code && stdout == result.stdout@ && stderr == result.stderr@ && duration_ms
                == result.duration_ms,
            CommandAction::Abort { reply, error } => command@ matches CommandActionView::Abort { reply: r, error: e } && r
                == json_of(reply) && e == error@,
            CommandAction::Fail(error) => command@ == CommandActionView::Fail(error@),
        },
        match file {
            FileAction::Wait => file@ is Wait,
            FileAction::Echo => file@ is Echo,
            FileAction::Close => file@ is Close,
            FileAction::Reply(value) => file@ == FileActionView::Reply(json_of(value)),
            FileAction::Transfer(request) => file@ matches FileActionView::Transfer { upload, local_path, remote_path }
                && upload == request.upload && local_path == request.local_path@ && remote_path == request.remote_path@,
            FileAction::Abort { reply, error } => file@ matches FileActionView::Abort { reply: r, error: e } && r
                == json_of(reply) && e == error@,
            FileAction::Fail(error) => file@ == FileActionView::Fail(error@),
        },
{
}

/// A session does on a line and between requests what these call for, and where they end it, it ends in their words.
pub proof fn law_sessions_end_in_the_words_of_what_ended_them(
    device_id: Seq<char>,
    peer: Peer,
    resume_supported: bool,
    idle: IdleEvent,
    words: String,
)
    ensures
        ({
            let commands = command_action(device_id, peer, CommandEvent::Idle(idle));
            let files = file_action(device_id, peer, resume_supported, FileEvent::Idle(idle));
            &&& match idle_next(SessionChannel::Terminal, idle) {
                Ok(IdleStep::Wait) => commands is Wait && command_phase(commands) is Waiting,
                Ok(IdleStep::Echo) => commands is Echo && command_phase(commands) is Waiting,
                Ok(IdleStep::Close) => commands is Close && command_phase(commands) is Over,
                Err(text) => commands == CommandActionView::Fail(text) && command_phase(commands) is Over,
            }
            &&& match idle_next(SessionChannel::File, idle) {
                Ok(IdleStep::Wait) => files is Wait && file_phase(files) is Waiting,
                Ok(IdleStep::Echo) => files is Echo && file_phase(files) is Waiting,
                Ok(IdleStep::Close) => files is Close && file_phase(files) is Over,
                Err(text) => files == FileActionView::Fail(text) && file_phase(files) is Over,
            }
        }),
        command_action(device_id, peer, CommandEvent::Line(Input::Failed(words))) == CommandActionView::Fail(
            "[session_stdin] failed to read request"@ + ": "@ + words@,
        ),
        file_action(device_id, peer, resume_supported, FileEvent::Line(Input::Failed(words))) == FileActionView::Fail(
            "[file_session_stdin] failed to read request"@ + ": "@ + words@,
        ),
        command_action(device_id, peer, CommandEvent::Line(Input::Malformed(words))) matches CommandActionView::Reply(
            json,
        ) && text_at(json, "error"@) == Some("invalid session request JSON: "@ + words@) && text_at(json, "stage"@)
            == Some("validate_request"@),
        file_action(device_id, peer, resume_supported, FileEvent::Line(Input::Malformed(words))) matches FileActionView::Reply(
            json,
        ) && text_at(json, "error"@) == Some("invalid file-session request JSON: "@ + words@) && text_at(json, "stage"@)
            == Some("validate_request"@),
        command_phase(command_action(device_id, peer, CommandEvent::Finished(Err(words)))) is Over,
        command_phase(command_action(device_id, peer, CommandEvent::TimedOut { duration_ms: 0, error: words })) is Over,
{
    lemma_keys();
}

}
