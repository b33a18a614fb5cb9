//! One command on the remote device: the request, the terminal that it needs, and the wait for its result.

use vstd::prelude::*;
use vstd::string::*;
use vstd::utf8::*;

use crate::codec::{decodes_to, is_base64, lossy};
use crate::echo::{law_posix_echo_is_no_frame, law_windows_echo_is_no_frame};
use crate::frame::{
    candidate, frame_in, frame_of, frame_text, law_frame_reads_back, parse_command_frame, FrameView,
};
use crate::message::{
    closed_by_peer, closed_text, error_box, is_error_box, login_refusal, malformed, malformed_text, refused_login,
    respond_to_test_delay, stream_error, stream_error_text, Incoming, LoginReply, PeerMessage, TerminalReply,
};
use crate::script::{
    are_marker_digits, fresh_marker, is_marker, is_windows, lemma_short_scripts_fit, marker_of, outer_script, powershell_encoded, remote_script,
    script_fits, script_for, terminal_input,
};
use crate::text::{
    all_blank, decimal, has_text, integer_text, is_blank, joined, joined3, matches_at, number_text, signed_decimal,
    told,
};

verus! {

/// The longest time that a command may take, in seconds.
pub const MAX_EXEC_TIMEOUT_SECONDS: u64 = 300;

/// The longest command, in bytes.
pub const MAX_COMMAND_BYTES: usize = 16384;

/// The most terminal output that is kept for one command, in bytes.
pub const MAX_EXEC_CAPTURE_BYTES: usize = 16777216;

/// The number of the one terminal.
pub const TERMINAL_ID: i32 = 0;

/// The height of the terminal in which commands run.
pub const COMMAND_ROWS: u32 = 40;

/// The width of the terminal in which commands run.
pub const COMMAND_COLS: u32 = 4096;

// ---------------------------------------------------------------------------
// The request
// ---------------------------------------------------------------------------

/// What is wrong with a request to run a command.
pub open spec fn exec_request_fault(command: Seq<char>, timeout_seconds: u64) -> Option<Seq<char>> {
    if timeout_seconds == 0 || timeout_seconds > MAX_EXEC_TIMEOUT_SECONDS {
        Some("Exec timeout must be between 1 and "@ + decimal(MAX_EXEC_TIMEOUT_SECONDS as nat) + " seconds"@)
    } else if all_blank(command) {
        Some("Exec command cannot be empty"@)
    } else if encode_utf8(command).len() > MAX_COMMAND_BYTES {
        Some("Exec command exceeds the 16384-byte limit"@)
    } else {
        None
    }
}

/// Checks a request to run a command: the time is between 1 and 300 seconds, the command is not blank and
/// not too long.
pub fn validate_exec_request(command: &str, timeout_seconds: u64) -> (r: Result<(), String>)
    ensures
        match exec_request_fault(command@, timeout_seconds) {
            Some(text) => told(r) == Err::<(), Seq<char>>(text),
            None => r is Ok,
        },
{
    if timeout_seconds == 0 || timeout_seconds > MAX_EXEC_TIMEOUT_SECONDS {
        return Err(
            joined3(
                "Exec timeout must be between 1 and ",
                number_text(MAX_EXEC_TIMEOUT_SECONDS).as_str(),
                " seconds",
            ),
        );
    }
    if is_blank(command) {
        return Err("Exec command cannot be empty".to_owned());
    }
    if command.as_bytes().len() > MAX_COMMAND_BYTES {
        return Err("Exec command exceeds the 16384-byte limit".to_owned());
    }
    Ok(())
}

// ---------------------------------------------------------------------------
// The terminal
// ---------------------------------------------------------------------------

/// What happens while the terminal opens.
pub enum OpenEvent {
    Incoming(Incoming),
    /// The time is over, in the words of the timer.
    TimedOut(String),
    /// A probe of the delay could not be sent back.
    EchoFailed(String),
}

/// What to do while the terminal opens.
#[derive(Clone, Copy, Debug, PartialEq, Eq, Structural)]
pub enum OpenStep {
    Wait,
    Echo,
    Opened,
}

/// What an event means for a terminal that opens.
pub open spec fn open_next(event: OpenEvent) -> Result<OpenStep, Seq<char>> {
    match event {
        OpenEvent::TimedOut(error) => Err(malformed_text("[exec_wait_terminal_open] timeout"@, error@)),
        OpenEvent::EchoFailed(error) => Err(error@),
        OpenEvent::Incoming(Incoming::StreamError(error)) => Err(
            stream_error_text("exec_wait_terminal_open"@, error@),
        ),
        OpenEvent::Incoming(Incoming::Closed) => Err(closed_text("exec_wait_terminal_open"@)),
        OpenEvent::Incoming(Incoming::Malformed(error)) => Err(
            malformed_text("[exec_wait_terminal_open] invalid message"@, error@),
        ),
        OpenEvent::Incoming(Incoming::Message(message)) => match message {
            PeerMessage::Terminal(TerminalReply::Opened { success, message }) => if success {
                Ok(OpenStep::Opened)
            } else {
                Err("Terminal open failed: "@ + message@)
            },
            PeerMessage::Terminal(TerminalReply::Closed { exit_code }) => Err(
                "Terminal closed while opening (session exit code: "@ + signed_decimal(exit_code as int) + ")"@,
            ),
            PeerMessage::Terminal(TerminalReply::Error(text)) => Err("Terminal error: "@ + text@),
            PeerMessage::TestDelay { from_client } => if from_client {
                Ok(OpenStep::Wait)
            } else {
                Ok(OpenStep::Echo)
            },
            PeerMessage::Login(reply) => match login_refusal(reply) {
                Some(text) => Err(text),
                None => Ok(OpenStep::Wait),
            },
            PeerMessage::MessageBox { kind, text } => if is_error_box(kind@) {
                Err("Remote terminal failed: "@ + text@)
            } else {
                Ok(OpenStep::Wait)
            },
            _ => Ok(OpenStep::Wait),
        },
    }
}

/// Takes an event while the terminal opens.
pub fn open_command_terminal(event: &OpenEvent) -> (r: Result<OpenStep, String>)
    ensures
        told(r) == open_next(*event),
{
    match event {
        OpenEvent::TimedOut(error) => Err(malformed("[exec_wait_terminal_open] timeout", error.as_str())),
        OpenEvent::EchoFailed(error) => Err(error.as_str().to_owned()),
        OpenEvent::Incoming(Incoming::StreamError(error)) => Err(
            stream_error("exec_wait_terminal_open", error.as_str()),
        ),
        OpenEvent::Incoming(Incoming::Closed) => Err(closed_by_peer("exec_wait_terminal_open")),
        OpenEvent::Incoming(Incoming::Malformed(error)) => Err(
            malformed("[exec_wait_terminal_open] invalid message", error.as_str()),
        ),
        OpenEvent::Incoming(Incoming::Message(message)) => match message {
            PeerMessage::Terminal(TerminalReply::Opened { success, message }) => {
                if *success {
                    Ok(OpenStep::Opened)
                } else {
                    Err(joined("Terminal open failed: ", message.as_str()))
                }
            },
            PeerMessage::Terminal(TerminalReply::Closed { exit_code }) => Err(
                joined3(
                    "Terminal closed while opening (session exit code: ",
                    integer_text(*exit_code).as_str(),
                    ")",
                ),
            ),
            PeerMessage::Terminal(TerminalReply::Error(text)) => Err(joined("Terminal error: ", text.as_str())),
            PeerMessage::TestDelay { from_client } => {
                if respond_to_test_delay(*from_client) {
                    Ok(OpenStep::Echo)
                } else {
                    Ok(OpenStep::Wait)
                }
            },
            PeerMessage::Login(reply) => match refused_login(reply) {
                Some(text) => Err(text),
                None => Ok(OpenStep::Wait),
            },
            PeerMessage::MessageBox { kind, text } => {
                if error_box(kind.as_str()) {
                    Err(joined("Remote terminal failed: ", text.as_str()))
                } else {
                    Ok(OpenStep::Wait)
                }
            },
            _ => Ok(OpenStep::Wait),
        },
    }
}

// ---------------------------------------------------------------------------
// The command
// ---------------------------------------------------------------------------

/// A command whose result is awaited.
pub struct CommandRun {
    /// What begins the frame of the result.
    pub marker: String,
    /// The terminal output so far.
    pub output: Vec<u8>,
    /// The time that the command may take, in seconds.
    pub timeout_seconds: u64,
}

/// A command whose result is awaited, as a value.
pub struct RunView {
    pub marker: Seq<char>,
    pub output: Seq<u8>,
    pub timeout_seconds: u64,
}

impl View for CommandRun {
    type V = RunView;

    open spec fn view(&self) -> RunView {
        RunView { marker: self.marker@, output: self.output@, timeout_seconds: self.timeout_seconds }
    }
}

/// What happens while a result is awaited.
pub enum ExecEvent {
    Incoming(Incoming),
    /// The time is over.
    Deadline,
    /// The connection could not be kept alive.
    KeepaliveFailed(String),
    /// A probe of the delay could not be sent back.
    EchoFailed(String),
}

/// What to do while a result is awaited.
pub enum ExecStep {
    Wait,
    Echo,
    /// The result: exit code, standard output and standard error.
    Captured((i32, String, String)),
    /// The time was over before the result came, in words.
    TimedOut(String),
}

/// What to do while a result is awaited, as a value.
pub enum ExecStepView {
    Wait,
    Echo,
    Captured(FrameView),
    TimedOut(Seq<char>),
}

impl View for ExecStep {
    type V = ExecStepView;

    open spec fn view(&self) -> ExecStepView {
        match self {
            ExecStep::Wait => ExecStepView::Wait,
            ExecStep::Echo => ExecStepView::Echo,
            ExecStep::Captured(parts) => ExecStepView::Captured(frame_of(*parts)),
            ExecStep::TimedOut(text) => ExecStepView::TimedOut(text@),
        }
    }
}

/// A step, or the words of the error that ends the wait.
pub open spec fn exec_told(r: Result<ExecStep, String>) -> Result<ExecStepView, Seq<char>> {
    match r {
        Ok(step) => Ok(step@),
        Err(e) => Err(e@),
    }
}

/// What more output means: too much of it ends the wait; else it is kept, and where it completes a frame
/// the result is there.
pub open spec fn exec_data(s: RunView, data: Seq<u8>) -> (RunView, Result<ExecStepView, Seq<char>>) {
    if s.output.len() + data.len() > MAX_EXEC_CAPTURE_BYTES {
        (
            s,
            Err(
                "[exec_capture] terminal output exceeded "@ + decimal(MAX_EXEC_CAPTURE_BYTES as nat) + " bytes"@,
            ),
        )
    } else {
        (
            RunView { output: s.output + data, ..s },
            match frame_in(lossy(s.output + data), s.marker) {
                Ok(Some(frame)) => Ok(ExecStepView::Captured(frame)),
                Ok(None) => Ok(ExecStepView::Wait),
                Err(e) => Err(e),
            },
        )
    }
}

/// How it is reported that the time of a command is over.
pub open spec fn timeout_text(timeout_seconds: u64) -> Seq<char> {
    "[exec_wait_result] timeout after "@ + decimal(timeout_seconds as nat) + " seconds"@
}

/// What an event means for a command whose result is awaited.
pub open spec fn exec_next(s: RunView, event: ExecEvent) -> (RunView, Result<ExecStepView, Seq<char>>) {
    match event {
        ExecEvent::Deadline => (s, Ok(ExecStepView::TimedOut(timeout_text(s.timeout_seconds)))),
        ExecEvent::KeepaliveFailed(error) => (
            s,
            Err(malformed_text("[exec_keepalive] failed to keep session alive"@, error@)),
        ),
        ExecEvent::EchoFailed(error) => (s, Err(error@)),
        ExecEvent::Incoming(Incoming::StreamError(error)) => (
            s,
            Err(stream_error_text("exec_wait_result"@, error@)),
        ),
        ExecEvent::Incoming(Incoming::Closed) => (s, Err(closed_text("exec_wait_result"@))),
        ExecEvent::Incoming(Incoming::Malformed(error)) => (
            s,
            Err(malformed_text("[exec_wait_result] invalid message"@, error@)),
        ),
        ExecEvent::Incoming(Incoming::Message(message)) => match message {
            PeerMessage::Terminal(TerminalReply::Opened { success, message }) => if success {
                (s, Ok(ExecStepView::Wait))
            } else {
                (s, Err("Terminal open failed: "@ + message@))
            },
            PeerMessage::Terminal(TerminalReply::Data(data)) => exec_data(s, data@),
            PeerMessage::Terminal(TerminalReply::Closed { exit_code }) => (
                s,
                Err(
                    "[exec_wait_result] terminal closed before result (session exit code: "@ + signed_decimal(
                        exit_code as int,
                    ) + ")"@,
                ),
            ),
            PeerMessage::Terminal(TerminalReply::Error(text)) => (s, Err("Terminal error: "@ + text@)),
            PeerMessage::TestDelay { from_client } => if from_client {
                (s, Ok(ExecStepView::Wait))
            } else {
                (s, Ok(ExecStepView::Echo))
            },
            PeerMessage::Login(reply) => match login_refusal(reply) {
                Some(text) => (s, Err(text)),
                None => (s, Ok(ExecStepView::Wait)),
            },
            PeerMessage::MessageBox { kind, text } => if is_error_box(kind@) {
                (s, Err("Remote command failed: "@ + text@))
            } else {
                (s, Ok(ExecStepView::Wait))
            },
            _ => (s, Ok(ExecStepView::Wait)),
        },
    }
}

/// A command that was accepted, and the bytes that go to the terminal for it.
pub struct CommandStart {
    pub run: CommandRun,
    pub input: Vec<u8>,
}

/// A command that was accepted, and the bytes that go to the terminal for it, as values.
pub open spec fn command_start(
    platform: Seq<char>,
    command: Seq<char>,
    timeout_seconds: u64,
    marker: Seq<char>,
) -> Result<(RunView, Seq<u8>), Seq<char>> {
    match exec_request_fault(command, timeout_seconds) {
        Some(text) => Err(text),
        None => Ok(
            (
                RunView { marker, output: Seq::empty(), timeout_seconds },
                encode_utf8(script_for(platform, command, marker)).push(13u8),
            ),
        ),
    }
}

/// The start of a command as a value.
pub open spec fn started(r: Result<CommandStart, String>) -> Result<(RunView, Seq<u8>), Seq<char>> {
    match r {
        Ok(start) => Ok((start.run@, start.input@)),
        Err(e) => Err(e@),
    }
}

impl CommandRun {
    /// Accepts a command for a platform and gives what goes to the terminal. The marker is chosen at
    /// random.
    pub fn start(platform: &str, command: &str, timeout_seconds: u64) -> (r: Result<CommandStart, String>)
        ensures
            match exec_request_fault(command@, timeout_seconds) {
                Some(text) => started(r) == Err::<(RunView, Seq<u8>), Seq<char>>(text),
                None => r is Ok,
            },
            r matches Ok(start) ==> is_marker(start.run@.marker) && start.run@.marker.len() == 53
                && !start.run@.marker.contains(':') && started(r) == command_start(
                platform@,
                command@,
                timeout_seconds,
                start.run@.marker,
            ),
            r matches Ok(start) ==> is_windows(platform@) ==> is_base64(
                powershell_encoded(outer_script(command@, start.run@.marker)),
            ),
    {
        let marker = fresh_marker();
        proof {
            lemma_short_scripts_fit(command@, marker@);
        }
        CommandRun::start_with(platform, command, timeout_seconds, marker)
    }

    /// Accepts a command for a platform, whose result a given marker begins.
    pub fn start_with(platform: &str, command: &str, timeout_seconds: u64, marker: String) -> (r: Result<
        CommandStart,
        String,
    >)
        requires
            exec_request_fault(command@, timeout_seconds) is None && is_windows(platform@) ==> script_fits(
                command@,
                marker@,
            ),
        ensures
            started(r) == command_start(platform@, command@, timeout_seconds, marker@),
            r is Ok && is_windows(platform@) ==> is_base64(powershell_encoded(outer_script(command@, marker@))),
    {
        match validate_exec_request(command, timeout_seconds) {
            Err(e) => Err(e),
            Ok(_) => {
                let script = remote_script(platform, command, marker.as_str());
                let input = terminal_input(script.as_str());
                Ok(CommandStart { run: CommandRun { marker, output: Vec::new(), timeout_seconds }, input })
            },
        }
    }

    /// Takes more terminal output.
    fn take(&mut self, data: &Vec<u8>) -> (r: Result<ExecStep, String>)
        requires
            old(self)@.output.len() <= MAX_EXEC_CAPTURE_BYTES,
        ensures
            (final(self)@, exec_told(r)) == exec_data(old(self)@, data@),
    {
        if data.len() > MAX_EXEC_CAPTURE_BYTES - self.output.len() {
            return Err(
                joined3(
                    "[exec_capture] terminal output exceeded ",
                    number_text(MAX_EXEC_CAPTURE_BYTES as u64).as_str(),
                    " bytes",
                ),
            );
        }
        self.output.extend_from_slice(data.as_slice());
        assert(self.output@ =~= old(self).output@ + data@);
        match parse_command_frame(self.output.as_slice(), self.marker.as_str()) {
            Ok(Some(parts)) => Ok(ExecStep::Captured(parts)),
            Ok(None) => Ok(ExecStep::Wait),
            Err(e) => Err(e),
        }
    }

    /// Takes an event while the result is awaited.
    pub fn step(&mut self, event: &ExecEvent) -> (r: Result<ExecStep, String>)
        requires
            old(self)@.output.len() <= MAX_EXEC_CAPTURE_BYTES,
        ensures
            (final(self)@, exec_told(r)) == exec_next(old(self)@, *event),
            final(self)@.output.len() <= MAX_EXEC_CAPTURE_BYTES,
    {
        match event {
            ExecEvent::Deadline => Ok(
                ExecStep::TimedOut(
                    joined3(
                        "[exec_wait_result] timeout after ",
                        number_text(self.timeout_seconds).as_str(),
                        " seconds",
                    ),
                ),
            ),
            ExecEvent::KeepaliveFailed(error) => Err(
                malformed("[exec_keepalive] failed to keep session alive", error.as_str()),
            ),
            ExecEvent::EchoFailed(error) => Err(error.as_str().to_owned()),
            ExecEvent::Incoming(Incoming::StreamError(error)) => Err(
                stream_error("exec_wait_result", error.as_str()),
            ),
            ExecEvent::Incoming(Incoming::Closed) => Err(closed_by_peer("exec_wait_result")),
            ExecEvent::Incoming(Incoming::Malformed(error)) => Err(
                malformed("[exec_wait_result] invalid message", error.as_str()),
            ),
            ExecEvent::Incoming(Incoming::Message(message)) => match message {
                PeerMessage::Terminal(TerminalReply::Opened { success, message }) => {
                    if *success {
                        Ok(ExecStep::Wait)
                    } else {
                        Err(joined("Terminal open failed: ", message.as_str()))
                    }
                },
                PeerMessage::Terminal(TerminalReply::Data(data)) => self.take(data),
                PeerMessage::Terminal(TerminalReply::Closed { exit_code }) => Err(
                    joined3(
                        "[exec_wait_result] terminal closed before result (session exit code: ",
                        integer_text(*exit_code).as_str(),
                        ")",
                    ),
                ),
                PeerMessage::Terminal(TerminalReply::Error(text)) => Err(joined("Terminal error: ", text.as_str())),
                PeerMessage::TestDelay { from_client } => {
                    if respond_to_test_delay(*from_client) {
                        Ok(ExecStep::Echo)
                    } else {
                        Ok(ExecStep::Wait)
                    }
                },
                PeerMessage::Login(reply) => match refused_login(reply) {
                    Some(text) => Err(text),
                    None => Ok(ExecStep::Wait),
                },
                PeerMessage::MessageBox { kind, text } => {
                    if error_box(kind.as_str()) {
                        Err(joined("Remote command failed: ", text.as_str()))
                    } else {
                        Ok(ExecStep::Wait)
                    }
                },
                _ => Ok(ExecStep::Wait),
            },
        }
    }
}

// ---------------------------------------------------------------------------
// Laws
// ---------------------------------------------------------------------------

/// A command after a sequence of events.
pub open spec fn exec_after(s: RunView, events: Seq<ExecEvent>) -> RunView
    decreases events.len(),
{
    if events.len() == 0 {
        s
    } else {
        exec_next(exec_after(s, events.drop_last()), events.last()).0
    }
}

/// Whatever arrives, no more than 16 MiB of terminal output are kept for a command, and its marker and its
/// time stay what they were.
pub proof fn law_capture_is_bounded(s: RunView, events: Seq<ExecEvent>)
    requires
        s.output.len() <= MAX_EXEC_CAPTURE_BYTES,
    ensures
        exec_after(s, events).output.len() <= MAX_EXEC_CAPTURE_BYTES,
        exec_after(s, events).marker == s.marker,
        exec_after(s, events).timeout_seconds == s.timeout_seconds,
    decreases events.len(),
{
    if events.len() > 0 {
        law_capture_is_bounded(s, events.drop_last());
    }
}

/// The output of a command may come in any pieces: two pieces in a row leave the same output as both at
/// once, where that much may be kept.
pub proof fn law_pieces_do_not_matter(s: RunView, one: Seq<u8>, two: Seq<u8>)
    requires
        s.output.len() + one.len() + two.len() <= MAX_EXEC_CAPTURE_BYTES,
    ensures
        exec_data(exec_data(s, one).0, two) == exec_data(s, one + two),
{
    assert(s.output + one + two =~= s.output + (one + two));
}

/// The result that the remote device prints is the result that is reported: once the terminal output ends
/// in a frame, whatever echo stands before it, the command has the exit code, the standard output and the
/// standard error that the frame was made of. The marker has no colon, as none that is chosen at random
/// has; what `law_frame_reads_back` leaves out is left out.
pub proof fn law_printed_result_is_reported(
    s: RunView,
    data: Seq<u8>,
    before: Seq<char>,
    after: Seq<char>,
    exit_code: int,
    stdout: Seq<char>,
    stderr: Seq<char>,
    out: Seq<u8>,
    err: Seq<u8>,
)
    requires
        s.output.len() + data.len() <= MAX_EXEC_CAPTURE_BYTES,
        !s.marker.contains(':'),
        lossy(s.output + data) == before + frame_text(s.marker, exit_code, stdout, stderr) + after,
        i32::MIN <= exit_code <= i32::MAX,
        decodes_to(stdout, out),
        decodes_to(stderr, err),
        !stdout.contains(':'),
        !stderr.contains(':'),
        !matches_at(stdout, seq!['E', 'N', 'D'], 0),
        !matches_at(stderr, seq!['E', 'N', 'D'], 0),
        forall|q: int|
            before.len() + s.marker.len() + 1 <= q && matches_at(lossy(s.output + data), s.marker.push(':'), q)
                ==> candidate(lossy(s.output + data).skip(q + s.marker.len() + 1)) is None,
    ensures
        exec_data(s, data).1 == Ok::<ExecStepView, Seq<char>>(
            ExecStepView::Captured(FrameView { exit_code, stdout: lossy(out), stderr: lossy(err) }),
        ),
{
    law_frame_reads_back(before, after, s.marker, exit_code, stdout, stderr, out, err);
}

/// An echo of what went to the terminal is not taken for the result: while the output holds the script, or the
/// beginning of it, and nothing else with the marker, the wait goes on. On Windows the script is one that could
/// be encoded; elsewhere the command does not hold the marker.
pub proof fn law_echo_is_no_result(
    s: RunView,
    data: Seq<u8>,
    platform: Seq<char>,
    command: Seq<char>,
    before: Seq<char>,
    n: int,
    after: Seq<char>,
)
    requires
        s.output.len() + data.len() <= MAX_EXEC_CAPTURE_BYTES,
        is_marker(s.marker),
        0 <= n <= script_for(platform, command, s.marker).len(),
        n < script_for(platform, command, s.marker).len() ==> after.len() == 0,
        lossy(s.output + data) == before + script_for(platform, command, s.marker).take(n) + after,
        !has_text(before, s.marker),
        !has_text(after, s.marker),
        is_windows(platform) ==> is_base64(powershell_encoded(outer_script(command, s.marker))),
        !is_windows(platform) ==> !has_text(command, s.marker),
    ensures
        exec_data(s, data).1 == Ok::<ExecStepView, Seq<char>>(ExecStepView::Wait),
{
    let digits = choose|digits: Seq<char>| are_marker_digits(digits) && s.marker == #[trigger] marker_of(digits);
    if is_windows(platform) {
        law_windows_echo_is_no_frame(before, command, digits, n, after);
    } else {
        law_posix_echo_is_no_frame(before, command, digits, n, after);
    }
}

/// A command is accepted exactly where it has a time from 1 to 300 seconds, is not blank and takes at most 16384
/// bytes; else the first of these that fails is told.
pub proof fn law_accepted_commands(command: Seq<char>, timeout_seconds: u64)
    ensures
        exec_request_fault(command, timeout_seconds) is None <==> 1 <= timeout_seconds <= 300 && !all_blank(command)
            && encode_utf8(command).len() <= 16384,
        !(1 <= timeout_seconds <= 300) ==> exec_request_fault(command, timeout_seconds) == Some(
            "Exec timeout must be between 1 and "@ + decimal(300) + " seconds"@,
        ),
        1 <= timeout_seconds <= 300 && all_blank(command) ==> exec_request_fault(command, timeout_seconds) == Some(
            "Exec command cannot be empty"@,
        ),
        1 <= timeout_seconds <= 300 && !all_blank(command) && encode_utf8(command).len() > 16384 ==> exec_request_fault(
            command,
            timeout_seconds,
        ) == Some("Exec command exceeds the 16384-byte limit"@),
{
}

/// The terminal has opened exactly where the remote device says so. What it says went wrong is told in its words,
/// and everything that ends the wait is an error; anything else leaves the wait as it is.
pub proof fn law_terminal_opens_when_told(words: String, kind: String, reply: LoginReply, exit_code: i32)
    ensures
        ({
            let heard = |incoming: Incoming| open_next(OpenEvent::Incoming(incoming));
            let told_by = |reply: TerminalReply| heard(Incoming::Message(PeerMessage::Terminal(reply)));
            let waits = Ok::<OpenStep, Seq<char>>(OpenStep::Wait);
            let fails = |text: Seq<char>| Err::<OpenStep, Seq<char>>(text);
            &&& told_by(TerminalReply::Opened { success: true, message: words }) == Ok::<OpenStep, Seq<char>>(
                OpenStep::Opened,
            )
            &&& told_by(TerminalReply::Opened { success: false, message: words }) == fails(
                "Terminal open failed: "@ + words@,
            )
            &&& told_by(TerminalReply::Error(words)) == fails("Terminal error: "@ + words@)
            &&& told_by(TerminalReply::Closed { exit_code }) == fails(
                "Terminal closed while opening (session exit code: "@ + signed_decimal(exit_code as int) + ")"@,
            )
            &&& heard(Incoming::Message(PeerMessage::TestDelay { from_client: false })) == Ok::<OpenStep, Seq<char>>(
                OpenStep::Echo,
            )
            &&& heard(Incoming::Message(PeerMessage::TestDelay { from_client: true })) == waits
            &&& heard(Incoming::Message(PeerMessage::Other)) == waits
            &&& heard(Incoming::Message(PeerMessage::Login(reply))) == (match login_refusal(reply) {
                Some(text) => fails(text),
                None => waits,
            })
            &&& heard(Incoming::Message(PeerMessage::MessageBox { kind, text: words })) == (if is_error_box(kind@) {
                fails("Remote terminal failed: "@ + words@)
            } else {
                waits
            })
            &&& heard(Incoming::Closed) is Err && heard(Incoming::Closed) == fails(
                closed_text("exec_wait_terminal_open"@),
            )
            &&& heard(Incoming::StreamError(words)) == fails(stream_error_text("exec_wait_terminal_open"@, words@))
            &&& heard(Incoming::Malformed(words)) == fails(
                malformed_text("[exec_wait_terminal_open] invalid message"@, words@),
            )
            &&& open_next(OpenEvent::TimedOut(words)) == fails(
                malformed_text("[exec_wait_terminal_open] timeout"@, words@),
            )
            &&& open_next(OpenEvent::EchoFailed(words)) == fails(words@)
        }),
{
}

/// Output is kept, all of it and in order, as long as there are no more than 16777216 bytes; the command is over
/// where a frame stands in what was kept, and not before.
pub proof fn law_output_is_kept(s: RunView, data: Vec<u8>)
    ensures
        ({
            let (t, step) = exec_next(
                s,
                ExecEvent::Incoming(Incoming::Message(PeerMessage::Terminal(TerminalReply::Data(data)))),
            );
            &&& t.marker == s.marker && t.timeout_seconds == s.timeout_seconds
            &&& s.output.len() + data@.len() > 16777216 ==> t == s && step == Err::<ExecStepView, Seq<char>>(
                "[exec_capture] terminal output exceeded "@ + decimal(16777216) + " bytes"@,
            )
            &&& s.output.len() + data@.len() <= 16777216 ==> t.output == s.output + data@ && (step is Err <==> frame_in(
                lossy(t.output),
                s.marker,
            ) is Err) && (step == Ok::<ExecStepView, Seq<char>>(ExecStepView::Wait) <==> frame_in(
                lossy(t.output),
                s.marker,
            ) == Ok::<Option<FrameView>, Seq<char>>(None)) && (step matches Ok(ExecStepView::Captured(frame)) ==> frame_in(
                lossy(t.output),
                s.marker,
            ) == Ok::<Option<FrameView>, Seq<char>>(Some(frame))) && !(step matches Ok(ExecStepView::Echo)) && !(
            step matches Ok(ExecStepView::TimedOut(_)))
        }),
{
}

/// Whatever else happens while a result is awaited leaves the output as it is. The end of the time is told with its
/// length, what the remote device says went wrong in its words, and everything that ends the connection is an error.
pub proof fn law_other_events_give_no_result(
    s: RunView,
    words: String,
    kind: String,
    reply: LoginReply,
    exit_code: i32,
)
    ensures
        ({
            let after = |event: ExecEvent| exec_next(s, event);
            let heard = |incoming: Incoming| after(ExecEvent::Incoming(incoming));
            let told_by = |reply: TerminalReply| heard(Incoming::Message(PeerMessage::Terminal(reply)));
            let waits = (s, Ok::<ExecStepView, Seq<char>>(ExecStepView::Wait));
            let fails = |text: Seq<char>| (s, Err::<ExecStepView, Seq<char>>(text));
            &&& after(ExecEvent::Deadline) == (
                s,
                Ok::<ExecStepView, Seq<char>>(
                    ExecStepView::TimedOut(
                        "[exec_wait_result] timeout after "@ + decimal(s.timeout_seconds as nat) + " seconds"@,
                    ),
                ),
            )
            &&& after(ExecEvent::EchoFailed(words)) == fails(words@)
            &&& after(ExecEvent::KeepaliveFailed(words)) == fails(
                malformed_text("[exec_keepalive] failed to keep session alive"@, words@),
            )
            &&& told_by(TerminalReply::Opened { success: true, message: words }) == waits
            &&& told_by(TerminalReply::Opened { success: false, message: words }) == fails(
                "Terminal open failed: "@ + words@,
            )
            &&& told_by(TerminalReply::Error(words)) == fails("Terminal error: "@ + words@)
            &&& told_by(TerminalReply::Closed { exit_code }) == fails(
                "[exec_wait_result] terminal closed before result (session exit code: "@ + signed_decimal(
                    exit_code as int,
                ) + ")"@,
            )
            &&& heard(Incoming::Message(PeerMessage::TestDelay { from_client: false })) == (
                s,
                Ok::<ExecStepView, Seq<char>>(ExecStepView::Echo),
            )
            &&& heard(Incoming::Message(PeerMessage::TestDelay { from_client: true })) == waits
            &&& heard(Incoming::Message(PeerMessage::Other)) == waits
            &&& heard(Incoming::Message(PeerMessage::Login(reply))) == (match login_refusal(reply) {
                Some(text) => fails(text),
                None => waits,
            })
            &&& heard(Incoming::Message(PeerMessage::MessageBox { kind, text: words })) == (if is_error_box(kind@) {
                fails("Remote command failed: "@ + words@)
            } else {
                waits
            })
            &&& heard(Incoming::Closed) == fails(closed_text("exec_wait_result"@))
            &&& heard(Incoming::StreamError(words)) == fails(stream_error_text("exec_wait_result"@, words@))
            &&& heard(Incoming::Malformed(words)) == fails(
                malformed_text("[exec_wait_result] invalid message"@, words@),
            )
        }),
{
}

/// A command that is accepted is awaited with nothing received so far, under its marker and with the time that was
/// asked for; the script for it goes to the terminal, with a carriage return after it.
pub proof fn law_accepted_commands_are_typed(
    platform: Seq<char>,
    command: Seq<char>,
    timeout_seconds: u64,
    marker: Seq<char>,
)
    ensures
        match command_start(platform, command, timeout_seconds, marker) {
            Ok((run, input)) => 1 <= timeout_seconds <= 300 && run.marker == marker && run.output.len() == 0
                && run.timeout_seconds == timeout_seconds && input.last() == 13 && decode_utf8(input.drop_last())
                == script_for(platform, command, marker),
            Err(text) => exec_request_fault(command, timeout_seconds) == Some(text),
        },
        command_start(platform, command, timeout_seconds, marker) is Ok <==> 1 <= timeout_seconds <= 300 && !all_blank(
            command,
        ) && encode_utf8(command).len() <= 16384,
{
    let script = script_for(platform, command, marker);
    encode_utf8_decode_utf8(script);
    assert(encode_utf8(script).push(13u8).drop_last() =~= encode_utf8(script));
}

/// Commands and what is done for them are seen as what they are.
pub proof fn law_commands_are_seen_as_they_are(
    run: CommandRun,
    step: ExecStep,
    start: CommandStart,
    parts: (i32, String, String),
    words: String,
)
    ensures
        run@.marker == run.marker@ && run@.output == run.output@ && run@.timeout_seconds == run.timeout_seconds,
        ExecStep::Wait@ is Wait && ExecStep::Echo@ is Echo,
        ExecStep::Captured(parts)@ == ExecStepView::Captured(
            FrameView { exit_code: parts.0 as int, stdout: parts.1@, stderr: parts.2@ },
        ),
        ExecStep::TimedOut(words)@ == ExecStepView::TimedOut(words@),
        exec_told(Ok(step)) == Ok::<ExecStepView, Seq<char>>(step@),
        exec_told(Err(words)) == Err::<ExecStepView, Seq<char>>(words@),
        started(Ok(start)) == Ok::<(RunView, Seq<u8>), Seq<char>>((start.run@, start.input@)),
        started(Err(words)) == Err::<(RunView, Seq<u8>), Seq<char>>(words@),
{
}

/// A message that is not about the terminal leaves the wait as it is, whatever the message is: for the terminal to
/// open, and for the result of a command.
pub proof fn law_other_messages_leave_the_wait(s: RunView, message: PeerMessage, data: Vec<u8>)
    requires
        match message {
            PeerMessage::TestDelay { from_client } => from_client,
            PeerMessage::Terminal(reply) => reply is Other,
            PeerMessage::Login(reply) => !(reply is Error),
            PeerMessage::MessageBox { kind, text } => kind@ != "error"@,
            _ => true,
        },
    ensures
        open_next(OpenEvent::Incoming(Incoming::Message(message))) == Ok::<OpenStep, Seq<char>>(OpenStep::Wait),
        open_next(OpenEvent::Incoming(Incoming::Message(PeerMessage::Terminal(TerminalReply::Data(data))))) == Ok::<
            OpenStep,
            Seq<char>,
        >(OpenStep::Wait),
        exec_next(s, ExecEvent::Incoming(Incoming::Message(message))) == (
            s,
            Ok::<ExecStepView, Seq<char>>(ExecStepView::Wait),
        ),
{
}

}
