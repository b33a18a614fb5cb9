use rustshell::exec::{
    open_command_terminal, validate_exec_request, CommandRun, ExecEvent, ExecStep, OpenEvent, OpenStep,
    MAX_EXEC_CAPTURE_BYTES,
};
use rustshell::message::{
    peer_from_login_response, Incoming, LoginReply, Peer, PeerMessage, TerminalReply,
};
use rustshell::script::posix_command_script;

fn run() -> CommandRun {
    match CommandRun::start_with("Linux", "ls", 5, "M".to_owned()) {
        Ok(start) => start.run,
        Err(error) => panic!("{error}"),
    }
}

fn message(message: PeerMessage) -> ExecEvent {
    ExecEvent::Incoming(Incoming::Message(message))
}

fn data(bytes: &[u8]) -> ExecEvent {
    message(PeerMessage::Terminal(TerminalReply::Data(bytes.to_vec())))
}

fn fault(result: Result<ExecStep, String>) -> String {
    match result {
        Ok(_) => panic!("expected an error"),
        Err(error) => error,
    }
}

#[test]
fn exec_requests_are_checked_in_order() {
    let timeout = "Exec timeout must be between 1 and 300 seconds";
    assert_eq!(validate_exec_request("", 0), Err(timeout.to_owned()));
    assert_eq!(validate_exec_request("ls", 301), Err(timeout.to_owned()));
    assert_eq!(validate_exec_request(" \n\u{3000}", 1), Err("Exec command cannot be empty".to_owned()));
    assert_eq!(validate_exec_request(&"x".repeat(16384), 300), Ok(()));
    assert_eq!(
        validate_exec_request(&"é".repeat(8193), 300),
        Err("Exec command exceeds the 16384-byte limit".to_owned())
    );
}

#[test]
fn a_command_goes_to_the_terminal_as_a_script() {
    let start = CommandRun::start_with("Linux", "ls", 5, "M".to_owned()).ok().unwrap();
    assert_eq!(start.input, format!("{}\r", posix_command_script("ls", "M")).into_bytes());
    assert_eq!(start.run.marker, "M");
    assert!(start.run.output.is_empty());
    assert!(CommandRun::start_with("Linux", " ", 5, "M".to_owned()).is_err());
    let long = "M".repeat(0x20000);
    let start = CommandRun::start_with("Linux", "ls", 5, long.clone()).ok().unwrap();
    assert_eq!(start.input, format!("{}\r", posix_command_script("ls", &long)).into_bytes());
}

#[test]
fn a_fresh_command_has_a_marker_of_its_own() {
    let one = CommandRun::start("Windows", "dir", 5).ok().unwrap();
    let two = CommandRun::start("Windows", "dir", 5).ok().unwrap();
    assert_ne!(one.run.marker, two.run.marker);
    assert!(one.input.starts_with(b"powershell.exe "));
    assert_eq!(one.input.last(), Some(&b'\r'));
    assert!(CommandRun::start("Windows", "dir", 0).is_err());
}

#[test]
fn the_result_comes_in_any_pieces() {
    let frame = b"echo M:%s\r\nM:7:aGVsbG8=:YmFk:END\r\n";
    for cut in 0..frame.len() {
        let mut run = run();
        let first = run.step(&data(&frame[..cut]));
        if let Ok(ExecStep::Captured(_)) = first {
            assert!(cut >= frame.len() - 2);
            continue;
        }
        match run.step(&data(&frame[cut..])) {
            Ok(ExecStep::Captured((code, stdout, stderr))) => {
                assert_eq!((code, stdout.as_str(), stderr.as_str()), (7, "hello", "bad"));
            }
            _ => panic!("no result at {cut}"),
        }
    }
}

#[test]
fn the_echo_of_a_script_is_no_result() {
    for (platform, command) in [("Linux", "printf 'a:b:END' \"x\""), ("Windows", "Write-Output ':END'")] {
        let start = CommandRun::start(platform, command, 5).ok().unwrap();
        let mut run = start.run;
        let marker = run.marker.clone();
        assert!(matches!(run.step(&data(b"user@host:~$ ")), Ok(ExecStep::Wait)));
        for byte in &start.input {
            assert!(matches!(run.step(&data(&[*byte])), Ok(ExecStep::Wait)));
        }
        match run.step(&data(format!("\n{marker}:0:aGVsbG8=::END\r\n").as_bytes())) {
            Ok(ExecStep::Captured((code, stdout, stderr))) => {
                assert_eq!((code, stdout.as_str(), stderr.as_str()), (0, "hello", ""));
            }
            _ => panic!("expected the result"),
        }
    }
}

#[test]
fn the_captured_output_is_limited() {
    let mut run = run();
    let all = vec![b'x'; MAX_EXEC_CAPTURE_BYTES];
    assert!(matches!(run.step(&data(&all)), Ok(ExecStep::Wait)));
    assert_eq!(
        fault(run.step(&data(b"y"))),
        "[exec_capture] terminal output exceeded 16777216 bytes"
    );
    assert_eq!(run.output.len(), MAX_EXEC_CAPTURE_BYTES);
}

#[test]
fn a_wait_for_a_result_fails_as_it_should() {
    let mut run = run();
    assert_eq!(
        fault(run.step(&ExecEvent::KeepaliveFailed("x".to_owned()))),
        "[exec_keepalive] failed to keep session alive: x"
    );
    assert_eq!(fault(run.step(&ExecEvent::EchoFailed("x".to_owned()))), "x");
    assert_eq!(
        fault(run.step(&ExecEvent::Incoming(Incoming::Closed))),
        "[exec_wait_result] connection closed by peer"
    );
    assert_eq!(
        fault(run.step(&ExecEvent::Incoming(Incoming::StreamError("x".to_owned())))),
        "[exec_wait_result] stream error: x"
    );
    assert_eq!(
        fault(run.step(&ExecEvent::Incoming(Incoming::Malformed("x".to_owned())))),
        "[exec_wait_result] invalid message: x"
    );
    let opened = TerminalReply::Opened { success: false, message: "no".to_owned() };
    assert_eq!(fault(run.step(&message(PeerMessage::Terminal(opened)))), "Terminal open failed: no");
    assert_eq!(
        fault(run.step(&message(PeerMessage::Terminal(TerminalReply::Closed { exit_code: -1 })))),
        "[exec_wait_result] terminal closed before result (session exit code: -1)"
    );
    assert_eq!(
        fault(run.step(&message(PeerMessage::Terminal(TerminalReply::Error("x".to_owned()))))),
        "Terminal error: x"
    );
    assert_eq!(
        fault(run.step(&message(PeerMessage::Login(LoginReply::Error("x".to_owned()))))),
        "Login failed: x"
    );
    let shown = PeerMessage::MessageBox { kind: "error".to_owned(), text: "x".to_owned() };
    assert_eq!(fault(run.step(&message(shown))), "Remote command failed: x");
    assert!(fault(run.step(&data(b"M:0:*::END"))).starts_with("[exec_parse] invalid stdout encoding: "));
}

#[test]
fn a_wait_for_a_result_ends_at_its_deadline() {
    let mut run = run();
    assert!(matches!(run.step(&data(b"partial")), Ok(ExecStep::Wait)));
    match run.step(&ExecEvent::Deadline) {
        Ok(ExecStep::TimedOut(text)) => assert_eq!(text, "[exec_wait_result] timeout after 5 seconds"),
        _ => panic!("the deadline ends the wait"),
    }
}

#[test]
fn a_wait_for_a_result_goes_on_otherwise() {
    let mut run = run();
    let opened = TerminalReply::Opened { success: true, message: String::new() };
    assert!(matches!(run.step(&message(PeerMessage::Terminal(opened))), Ok(ExecStep::Wait)));
    let probe = PeerMessage::TestDelay { from_client: false };
    assert!(matches!(run.step(&message(probe)), Ok(ExecStep::Echo)));
    let answer = PeerMessage::TestDelay { from_client: true };
    assert!(matches!(run.step(&message(answer)), Ok(ExecStep::Wait)));
    assert!(matches!(run.step(&message(PeerMessage::Other)), Ok(ExecStep::Wait)));
    assert!(matches!(run.step(&data(b"partial")), Ok(ExecStep::Wait)));
}

#[test]
fn a_terminal_opens_or_fails() {
    let arrived = |message| OpenEvent::Incoming(Incoming::Message(message));
    let opened = |success| {
        arrived(PeerMessage::Terminal(TerminalReply::Opened { success, message: "no".to_owned() }))
    };
    assert_eq!(open_command_terminal(&opened(true)), Ok(OpenStep::Opened));
    assert_eq!(open_command_terminal(&opened(false)), Err("Terminal open failed: no".to_owned()));
    let closed = arrived(PeerMessage::Terminal(TerminalReply::Closed { exit_code: 3 }));
    assert_eq!(
        open_command_terminal(&closed),
        Err("Terminal closed while opening (session exit code: 3)".to_owned())
    );
    let error = arrived(PeerMessage::Terminal(TerminalReply::Error("x".to_owned())));
    assert_eq!(open_command_terminal(&error), Err("Terminal error: x".to_owned()));
    let timed_out = OpenEvent::TimedOut("deadline has elapsed".to_owned());
    assert_eq!(
        open_command_terminal(&timed_out),
        Err("[exec_wait_terminal_open] timeout: deadline has elapsed".to_owned())
    );
    assert_eq!(open_command_terminal(&OpenEvent::EchoFailed("x".to_owned())), Err("x".to_owned()));
    assert_eq!(
        open_command_terminal(&OpenEvent::Incoming(Incoming::Closed)),
        Err("[exec_wait_terminal_open] connection closed by peer".to_owned())
    );
    assert_eq!(
        open_command_terminal(&OpenEvent::Incoming(Incoming::StreamError("x".to_owned()))),
        Err("[exec_wait_terminal_open] stream error: x".to_owned())
    );
    assert_eq!(
        open_command_terminal(&OpenEvent::Incoming(Incoming::Malformed("x".to_owned()))),
        Err("[exec_wait_terminal_open] invalid message: x".to_owned())
    );
    let shown = arrived(PeerMessage::MessageBox { kind: "error".to_owned(), text: "x".to_owned() });
    assert_eq!(open_command_terminal(&shown), Err("Remote terminal failed: x".to_owned()));
    let refused = arrived(PeerMessage::Login(LoginReply::Error("x".to_owned())));
    assert_eq!(open_command_terminal(&refused), Err("Login failed: x".to_owned()));
    let probe = arrived(PeerMessage::TestDelay { from_client: false });
    assert_eq!(open_command_terminal(&probe), Ok(OpenStep::Echo));
    let data = arrived(PeerMessage::Terminal(TerminalReply::Data(vec![1])));
    assert_eq!(open_command_terminal(&data), Ok(OpenStep::Wait));
}

#[test]
fn login_replies_settle_what_they_say() {
    let peer = Peer { hostname: "h".to_owned(), platform: "p".to_owned(), version: "v".to_owned() };
    match peer_from_login_response(LoginReply::Peer(peer)) {
        Ok(Some(peer)) => assert_eq!((peer.hostname.as_str(), peer.version.as_str()), ("h", "v")),
        _ => panic!("expected a peer"),
    }
    assert!(matches!(peer_from_login_response(LoginReply::Nothing), Ok(None)));
    assert!(matches!(peer_from_login_response(LoginReply::Error(String::new())), Ok(None)));
    match peer_from_login_response(LoginReply::Error("bad".to_owned())) {
        Err(error) => assert_eq!(error, "Login failed: bad"),
        Ok(_) => panic!("expected an error"),
    }
}
