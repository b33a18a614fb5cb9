use rustshell::message::{Incoming, LoginReply, Peer, PeerMessage, TerminalReply};
use rustshell::resume::{file_response_can_resume, response_requires_reconnect};
use rustshell::session::{
    completed_reply, failed_reply, interrupted_reply, ready_reply, run_outcome, take_idle, timed_out_reply,
    CapturedCommand, CommandSessionRequest, FileSessionRequest, IdleEvent, IdleStep, Input, RunEnd, RunOutcome,
    SessionChannel, TransferRequest,
};
use rustshell::session_loop::{
    CommandAction, CommandEvent, CommandSession, FileAction, FileEvent, FileSession, SessionPhase, TransferEnd,
};
use rustshell::transfer::{disconnected_at, FileTransferStats, TransferError};
use serde_json::Value;

fn peer() -> Peer {
    Peer { hostname: "host".to_owned(), platform: "Linux".to_owned(), version: "1.4.9".to_owned() }
}

fn parsed(text: &str) -> Value {
    serde_json::from_str(text).unwrap()
}

fn upload() -> TransferRequest {
    TransferRequest { upload: true, local_path: "l".to_owned(), remote_path: "r".to_owned() }
}

fn command(command: &str, timeout_seconds: u64) -> CommandEvent {
    CommandEvent::Line(Input::Request(CommandSessionRequest { command: command.to_owned(), timeout_seconds }))
}

fn transfer(operation: &str, local: &str, remote: &str) -> FileEvent {
    FileEvent::Line(Input::Request(FileSessionRequest {
        operation: operation.to_owned(),
        local_path: local.to_owned(),
        remote_path: remote.to_owned(),
    }))
}

fn command_session() -> CommandSession {
    CommandSession::start("123".to_owned(), peer(), 1_000)
}

fn file_session() -> FileSession {
    FileSession::start("123".to_owned(), peer(), true, 1_000)
}

fn reply(action: CommandAction) -> Value {
    match action {
        CommandAction::Reply(value) => value,
        _ => panic!("expected a reply"),
    }
}

fn file_reply(action: FileAction) -> Value {
    match action {
        FileAction::Reply(value) => value,
        _ => panic!("expected a reply"),
    }
}

#[test]
fn channels_have_names_and_actions() {
    assert_eq!(SessionChannel::Terminal.wrapper_action(), "session");
    assert_eq!(SessionChannel::File.wrapper_action(), "file-session");
    assert_eq!(SessionChannel::Terminal.name(), "terminal");
    assert_eq!(SessionChannel::File.name(), "file");
}

#[test]
fn only_a_command_leaves_an_answer() {
    for end in [RunEnd::Terminal, RunEnd::Session, RunEnd::FileSession, RunEnd::Push, RunEnd::Pull] {
        assert!(matches!(run_outcome("123", &peer(), end), RunOutcome::Completed));
    }
    for exit_code in [0, 3] {
        let captured =
            CapturedCommand { exit_code, stdout: "o".to_owned(), stderr: "e".to_owned(), duration_ms: 12 };
        match run_outcome("123", &peer(), RunEnd::Exec(captured)) {
            RunOutcome::Command(result) => {
                assert_eq!((result.ok, result.exit_code), (exit_code == 0, exit_code));
                assert_eq!((result.device_id.as_str(), result.hostname.as_str()), ("123", "host"));
                assert_eq!((result.stdout.as_str(), result.stderr.as_str()), ("o", "e"));
                assert_eq!((result.stage, result.duration_ms), ("command_completed", 12));
            }
            RunOutcome::Completed => panic!("expected an answer"),
        }
    }
}

#[test]
fn a_session_says_that_it_is_ready() {
    let expected = parsed(
        "{\"type\":\"ready\",\"protocol\":1,\"channel\":\"file\",\"device_id\":\"123\",\"hostname\":\"host\",\
         \"platform\":\"Linux\",\"idle_timeout_seconds\":300}",
    );
    assert_eq!(ready_reply(SessionChannel::File, "123", &peer()), expected);
}

#[test]
fn commands_run_when_they_are_asked_for() {
    let mut session = command_session();
    assert_eq!(session.deadline(), 301_000);
    match session.command_session_loop(2_000, command("ls", 5)) {
        CommandAction::Run { command, timeout_seconds } => {
            assert_eq!((command.as_str(), timeout_seconds), ("ls", 5));
        }
        _ => panic!("expected a command"),
    }
    assert_eq!(session.phase, SessionPhase::Working);
    let captured =
        CapturedCommand { exit_code: 3, stdout: "o".to_owned(), stderr: "e".to_owned(), duration_ms: 12 };
    match session.command_session_loop(9_000, CommandEvent::Finished(Ok(captured))) {
        CommandAction::Answer(result) => {
            assert!(!result.ok);
            assert_eq!((result.operation, result.stage), ("exec", "command_completed"));
            assert_eq!((result.device_id.as_str(), result.hostname.as_str()), ("123", "host"));
            assert_eq!((result.exit_code, result.duration_ms), (3, 12));
            assert_eq!((result.stdout.as_str(), result.stderr.as_str()), ("o", "e"));
            assert_eq!(result.platform, "Linux");
        }
        _ => panic!("expected a result"),
    }
    assert_eq!(session.phase, SessionPhase::Waiting);
    assert_eq!(session.deadline(), 309_000);
}

#[test]
fn an_interrupted_command_ends_the_session() {
    let mut session = command_session();
    session.command_session_loop(2_000, command("ls", 5));
    let event = CommandEvent::Finished(Err("[exec_wait_result] connection closed by peer".to_owned()));
    match session.command_session_loop(3_000, event) {
        CommandAction::Abort { reply, error } => {
            assert_eq!(error, "[exec_wait_result] connection closed by peer");
            let expected = parsed(
                "{\"ok\":false,\"operation\":\"exec\",\"device_id\":\"123\",\"hostname\":\"host\",\
                 \"platform\":\"Linux\",\"exit_code\":-1,\"stdout\":\"\",\
                 \"stderr\":\"[exec_wait_result] connection closed by peer\",\"duration_ms\":0,\
                 \"stage\":\"session_disconnected\",\"replayed\":false,\"reconnect_on_next_call\":true}",
            );
            assert_eq!(reply, expected);
            assert!(response_requires_reconnect(&reply));
        }
        _ => panic!("expected an end"),
    }
    assert_eq!(session.phase, SessionPhase::Over);
    assert!(response_requires_reconnect(&interrupted_reply("123", &peer(), "x")));
}

#[test]
fn a_command_that_takes_too_long_ends_the_session() {
    let mut session = command_session();
    session.command_session_loop(2_000, command("sleep 60", 5));
    let error = "[exec_wait_result] timeout after 5 seconds".to_owned();
    match session.command_session_loop(7_000, CommandEvent::TimedOut { duration_ms: 5_001, error }) {
        CommandAction::Abort { reply, error } => {
            assert_eq!(error, "[exec_wait_result] timeout after 5 seconds");
            let expected = parsed(
                "{\"ok\":false,\"operation\":\"exec\",\"device_id\":\"123\",\"hostname\":\"host\",\
                 \"platform\":\"Linux\",\"exit_code\":-1,\"stdout\":\"\",\"stderr\":\"\",\
                 \"duration_ms\":5001,\"timed_out\":true,\"output_complete\":false,\
                 \"stage\":\"command_timeout\",\"replayed\":false,\"reconnect_on_next_call\":true}",
            );
            assert_eq!(reply, expected);
            assert!(response_requires_reconnect(&reply));
            assert!(!file_response_can_resume(&reply));
        }
        _ => panic!("expected an end"),
    }
    assert_eq!(session.phase, SessionPhase::Over);
    assert_eq!(timed_out_reply("123", &peer(), 7)["duration_ms"], 7);
}

#[test]
fn bad_lines_are_answered() {
    let mut session = command_session();
    let malformed = CommandEvent::Line(Input::Malformed("eof".to_owned()));
    assert_eq!(
        reply(session.command_session_loop(0, malformed)),
        parsed(
            "{\"ok\":false,\"stage\":\"validate_request\",\"error\":\"invalid session request JSON: eof\"}"
        )
    );
    assert_eq!(
        reply(session.command_session_loop(0, command(" ", 5))),
        parsed("{\"ok\":false,\"stage\":\"validate_command\",\"error\":\"Exec command cannot be empty\"}")
    );
    let mut session = file_session();
    let malformed = FileEvent::Line(Input::Malformed("eof".to_owned()));
    assert_eq!(
        file_reply(session.file_session_loop(0, malformed)),
        parsed(
            "{\"ok\":false,\"stage\":\"validate_request\",\"error\":\"invalid file-session request JSON: eof\"}"
        )
    );
    assert_eq!(
        file_reply(session.file_session_loop(0, transfer("copy", "", "r"))),
        parsed(
            "{\"ok\":false,\"stage\":\"validate_path\",\
             \"error\":\"local_path and remote_path cannot be empty\"}"
        )
    );
    assert_eq!(
        file_reply(session.file_session_loop(0, transfer("copy", "l", "r"))),
        parsed(
            "{\"ok\":false,\"stage\":\"validate_operation\",\"error\":\"operation must be push or pull\"}"
        )
    );
    assert_eq!(session.phase, SessionPhase::Waiting);
}

#[test]
fn sessions_end_with_their_requests() {
    let mut session = command_session();
    let end = CommandEvent::Line(Input::End);
    assert!(matches!(session.command_session_loop(0, end), CommandAction::Close));
    assert_eq!(session.phase, SessionPhase::Over);
    let mut session = command_session();
    match session.command_session_loop(0, CommandEvent::Line(Input::Failed("x".to_owned()))) {
        CommandAction::Fail(error) => assert_eq!(error, "[session_stdin] failed to read request: x"),
        _ => panic!("expected a failure"),
    }
    let mut session = file_session();
    assert!(matches!(session.file_session_loop(0, FileEvent::Line(Input::End)), FileAction::Close));
    let mut session = file_session();
    match session.file_session_loop(0, FileEvent::Line(Input::Failed("x".to_owned()))) {
        FileAction::Fail(error) => assert_eq!(error, "[file_session_stdin] failed to read request: x"),
        _ => panic!("expected a failure"),
    }
    let mut session = command_session();
    let expired = CommandEvent::Idle(IdleEvent::Expired);
    assert!(matches!(session.command_session_loop(0, expired), CommandAction::Close));
    let mut session = file_session();
    assert!(matches!(session.file_session_loop(0, FileEvent::Idle(IdleEvent::Expired)), FileAction::Close));
}

#[test]
fn transfers_run_when_they_are_asked_for() {
    let mut session = file_session();
    match session.file_session_loop(2_000, transfer("pull", "l", "r")) {
        FileAction::Transfer(request) => {
            assert!(!request.upload);
            assert_eq!((request.local_path.as_str(), request.remote_path.as_str()), ("l", "r"));
        }
        _ => panic!("expected a transfer"),
    }
    let end = TransferEnd {
        request: upload(),
        result: Ok(FileTransferStats { bytes: 100, resumed_from: 40 }),
        attempt_bytes: 60,
    };
    let value = file_reply(session.file_session_loop(9_000, FileEvent::Finished(end)));
    let expected = parsed(
        "{\"ok\":true,\"operation\":\"push\",\"device_id\":\"123\",\"hostname\":\"host\",\
         \"platform\":\"Linux\",\"local_path\":\"l\",\"remote_path\":\"r\",\
         \"resumed_from\":40,\"stage\":\"transfer_completed\"}",
    );
    assert_eq!(value, expected);
    assert!(!response_requires_reconnect(&value));
    assert_eq!(session.phase, SessionPhase::Waiting);
    assert_eq!(session.deadline(), 309_000);
    let stats = FileTransferStats { bytes: 100, resumed_from: 40 };
    assert_eq!(completed_reply("123", &peer(), &upload(), stats), expected);
}

#[test]
fn a_lost_transfer_can_be_resumed() {
    let mut session = file_session();
    session.file_session_loop(2_000, transfer("push", "l", "r"));
    let end = TransferEnd {
        request: upload(),
        result: Err(disconnected_at("push", "connection closed by peer", 42)),
        attempt_bytes: 7,
    };
    match session.file_session_loop(3_000, FileEvent::Finished(end)) {
        FileAction::Abort { reply, error } => {
            assert_eq!(error, "[push] connection closed by peer");
            let expected = parsed(
                "{\"ok\":false,\"operation\":\"push\",\"device_id\":\"123\",\"hostname\":\"host\",\
                 \"platform\":\"Linux\",\"local_path\":\"l\",\"remote_path\":\"r\",\
                 \"error\":\"[push] connection closed by peer\",\"stage\":\"session_disconnected\",\
                 \"replayed\":false,\"reconnect_on_next_call\":true,\"resume_supported\":true,\
                 \"partial_preserved\":true,\"attempt_bytes\":7,\"progress_bytes\":42}",
            );
            assert_eq!(reply, expected);
            assert!(file_response_can_resume(&reply));
        }
        _ => panic!("expected an end"),
    }
    assert_eq!(session.phase, SessionPhase::Over);
}

#[test]
fn other_failures_cannot_be_resumed() {
    let failed = TransferError::Failed("disk full".to_owned());
    let value = failed_reply("123", &peer(), &upload(), &failed, true, 0);
    assert_eq!(value.get("stage"), Some(&Value::from("transfer_failed")));
    assert_eq!(value.get("progress_bytes"), None);
    assert!(!file_response_can_resume(&value));
    assert!(response_requires_reconnect(&value));
    let lost = disconnected_at("pull", "gone", 42);
    let value = failed_reply("123", &peer(), &upload(), &lost, false, 7);
    assert!(!file_response_can_resume(&value));
    assert_eq!(value.get("partial_preserved"), Some(&Value::from(false)));
}

#[test]
fn sessions_take_what_arrives_between_requests() {
    let terminal = SessionChannel::Terminal;
    let file = SessionChannel::File;
    let arrived = |message| IdleEvent::Incoming(Incoming::Message(message));
    let closed = arrived(PeerMessage::Terminal(TerminalReply::Closed { exit_code: 2 }));
    assert_eq!(
        take_idle(terminal, &closed),
        Err("[session_idle] terminal closed (session exit code: 2)".to_owned())
    );
    assert_eq!(take_idle(file, &closed), Ok(IdleStep::Wait));
    let error = arrived(PeerMessage::Terminal(TerminalReply::Error("x".to_owned())));
    assert_eq!(take_idle(terminal, &error), Err("Terminal error: x".to_owned()));
    assert_eq!(take_idle(file, &error), Ok(IdleStep::Wait));
    let shown = arrived(PeerMessage::MessageBox { kind: "error".to_owned(), text: "x".to_owned() });
    assert_eq!(take_idle(terminal, &shown), Err("Remote session failed: x".to_owned()));
    assert_eq!(take_idle(file, &shown), Err("Remote file session failed: x".to_owned()));
    let refused = arrived(PeerMessage::Login(LoginReply::Error("x".to_owned())));
    assert_eq!(take_idle(file, &refused), Err("Login failed: x".to_owned()));
    let probe = arrived(PeerMessage::TestDelay { from_client: false });
    assert_eq!(take_idle(terminal, &probe), Ok(IdleStep::Echo));
    assert_eq!(take_idle(terminal, &arrived(PeerMessage::Other)), Ok(IdleStep::Wait));
    for (event, words) in [
        (IdleEvent::Incoming(Incoming::Closed), "session_idle] connection closed by peer"),
        (IdleEvent::Incoming(Incoming::StreamError("x".to_owned())), "session_idle] stream error: x"),
        (IdleEvent::Incoming(Incoming::Malformed("x".to_owned())), "session_idle] invalid message: x"),
        (
            IdleEvent::KeepaliveFailed("x".to_owned()),
            "session_keepalive] failed to keep session alive: x",
        ),
    ] {
        assert_eq!(take_idle(terminal, &event), Err(format!("[{words}")));
        assert_eq!(take_idle(file, &event), Err(format!("[file_{words}")));
    }
    assert_eq!(take_idle(file, &IdleEvent::EchoFailed("x".to_owned())), Err("x".to_owned()));
}
