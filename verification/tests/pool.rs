use rustshell::message::Peer;
use rustshell::pool::{
    admit_session, call_session, session_is_ready, settle_slot, start_session, CallPhase, Exchange, Probe, RustDeskMcp,
    SessionUse, Start, UseAction, UseEvent,
};
use rustshell::resume::{
    file_request_progress, file_response_can_resume, file_response_made_progress,
    file_response_only_replayed_u32_tail, partial_path, response_requires_reconnect, FileCall, FileCallStep,
};
use rustshell::session::{ready_reply, SessionChannel};
use serde_json::Value;
use std::path::PathBuf;

fn parsed(text: &str) -> Value {
    serde_json::from_str(text).unwrap()
}

fn object(members: Vec<(&str, Value)>) -> Value {
    let mut map = serde_json::Map::new();
    for (key, value) in members {
        map.insert(key.to_owned(), value);
    }
    Value::Object(map)
}

fn lost(progress: u64, attempt: u64) -> Value {
    object(vec![
        ("stage", Value::from("session_disconnected")),
        ("resume_supported", Value::from(true)),
        ("partial_preserved", Value::from(true)),
        ("progress_bytes", Value::from(progress)),
        ("attempt_bytes", Value::from(attempt)),
        ("session_reused", Value::from(true)),
    ])
}

fn result(step: FileCallStep) -> Value {
    match step {
        FileCallStep::Again => panic!("expected a result"),
        FileCallStep::Finish(value) => value,
        FileCallStep::Fail(error) => panic!("{error}"),
    }
}

#[test]
fn reconnect_policy_uses_the_explicit_response_flag() {
    assert!(response_requires_reconnect(&object(vec![
        ("stage", Value::from("command_timeout")),
        ("reconnect_on_next_call", Value::from(true)),
    ])));
    assert!(!response_requires_reconnect(&object(vec![
        ("stage", Value::from("command_completed")),
        ("reconnect_on_next_call", Value::from(false)),
    ])));
}

#[test]
fn resumes_only_confirmed_disconnect_with_partial_data() {
    assert!(file_response_can_resume(&object(vec![
        ("stage", Value::from("session_disconnected")),
        ("resume_supported", Value::from(true)),
        ("partial_preserved", Value::from(true)),
        ("progress_bytes", Value::from(42)),
    ])));
    assert!(!file_response_can_resume(&object(vec![
        ("stage", Value::from("transfer_failed")),
        ("resume_supported", Value::from(true)),
        ("partial_preserved", Value::from(true)),
    ])));
    assert!(!file_response_can_resume(&object(vec![
        ("stage", Value::from("session_disconnected")),
        ("resume_supported", Value::from(true)),
        ("partial_preserved", Value::from(false)),
    ])));
}

#[test]
fn attempt_bytes_prove_progress_beyond_u32_resume_offset() {
    let previous_size = u64::from(u32::MAX) + 1024;
    let response = object(vec![
        ("progress_bytes", Value::from(previous_size)),
        ("attempt_bytes", Value::from(512)),
    ]);

    assert!(file_response_made_progress(&response, previous_size));
    assert!(!file_response_made_progress(
        &object(vec![
            ("progress_bytes", Value::from(previous_size)),
            ("attempt_bytes", Value::from(0)),
        ]),
        previous_size
    ));
    assert!(file_response_only_replayed_u32_tail(&response, previous_size));
    assert!(!file_response_only_replayed_u32_tail(
        &object(vec![
            ("progress_bytes", Value::from(previous_size + 1)),
            ("attempt_bytes", Value::from(512)),
        ]),
        previous_size
    ));
}

#[test]
fn a_partial_file_lies_beside_the_destination() {
    let pull = parsed("{\"operation\":\"pull\",\"local_path\":\"/tmp/f\",\"remote_path\":\"r\"}");
    assert_eq!(partial_path(&pull).as_deref(), Some("/tmp/f.download"));
    assert_eq!(file_request_progress(&pull, Some(9)), 9);
    assert_eq!(file_request_progress(&pull, None), 0);
    let push = parsed("{\"operation\":\"push\",\"local_path\":\"/tmp/f\",\"remote_path\":\"r\"}");
    assert_eq!(partial_path(&push), None);
    assert_eq!(file_request_progress(&push, Some(9)), 0);
}

#[test]
fn a_transfer_reconnects_thirty_two_times_at_most() {
    let mut call = FileCall::start(0);
    for i in 0..32u64 {
        assert!(matches!(call.call_file_session(Ok(lost(i + 1, 1)), 0), FileCallStep::Again));
    }
    assert_eq!(call.last_progress, 32);
    let value = result(call.call_file_session(Ok(lost(99, 1)), 0));
    assert_eq!(value.get("resume_reconnects"), Some(&Value::from(32)));
    assert_eq!(value.get("automatic_resume_limit"), Some(&Value::from(32)));
    assert_eq!(value.get("resume_exhausted"), Some(&Value::from(true)));
    assert_eq!(value.get("resume_stalled"), Some(&Value::from(false)));
    assert_eq!(value.get("initial_session_reused"), Some(&Value::from(true)));
    assert_eq!(value.get("replayed"), Some(&Value::from(false)));
}

#[test]
fn a_transfer_ends_at_the_first_error() {
    let mut call = FileCall::start(0);
    assert!(matches!(call.call_file_session(Ok(lost(1, 1)), 0), FileCallStep::Again));
    match call.call_file_session(Err("gone".to_owned()), 7) {
        FileCallStep::Fail(error) => assert_eq!(error, "gone"),
        _ => panic!("expected the error"),
    }
    assert_eq!((call.reconnects, call.last_progress), (1, 1));
}

#[test]
fn a_transfer_without_progress_is_not_tried_again() {
    let mut call = FileCall::start(10);
    let value = result(call.call_file_session(Ok(lost(10, 0)), 0));
    assert_eq!(value.get("resume_stalled"), Some(&Value::from(true)));
    assert_eq!(value.get("resume_reconnects"), Some(&Value::from(0)));
    let mut call = FileCall::start(0);
    let failed = object(vec![
        ("stage", Value::from("transfer_failed")),
        ("resume_supported", Value::from(true)),
        ("partial_preserved", Value::from(true)),
        ("attempt_bytes", Value::from(5)),
    ]);
    let value = result(call.call_file_session(Ok(failed), 0));
    assert_eq!(value.get("resume_stalled"), Some(&Value::from(false)));
    assert_eq!(value.get("initial_session_reused"), Some(&Value::from(false)));
}

#[test]
fn two_replayed_tails_ask_for_chunks() {
    let high = u64::from(u32::MAX) + 1024;
    let mut call = FileCall::start(high);
    assert!(matches!(call.call_file_session(Ok(lost(high, 512)), 0), FileCallStep::Again));
    assert_eq!(call.same_high_water, 1);
    let value = result(call.call_file_session(Ok(lost(high, 512)), 0));
    assert_eq!(value.get("chunk_fallback_required"), Some(&Value::from(true)));
    assert_eq!(value.get("same_high_water_reconnects"), Some(&Value::from(2)));
    assert_eq!(value.get("same_high_water_limit"), Some(&Value::from(2)));
    assert_eq!(value.get("resume_stalled"), Some(&Value::from(true)));

    let mut call = FileCall::start(high);
    assert!(matches!(call.call_file_session(Ok(lost(high, 512)), 0), FileCallStep::Again));
    assert!(matches!(call.call_file_session(Ok(lost(high + 1, 512)), 0), FileCallStep::Again));
    assert_eq!(call.same_high_water, 0);
    assert_eq!(call.last_progress, high + 1);
}

#[test]
fn the_partial_file_tells_the_progress_where_the_response_does_not() {
    let mut call = FileCall::start(5);
    let response = object(vec![
        ("stage", Value::from("session_disconnected")),
        ("resume_supported", Value::from(true)),
        ("partial_preserved", Value::from(true)),
        ("attempt_bytes", Value::from(5)),
    ]);
    assert!(matches!(call.call_file_session(Ok(response), 11), FileCallStep::Again));
    assert_eq!(call.last_progress, 11);
    let done = parsed("{\"ok\":true,\"session_reused\":false}");
    let value = result(call.call_file_session(Ok(done), 0));
    assert_eq!(value.get("resume_reconnects"), Some(&Value::from(1)));
    assert_eq!(value.get("initial_session_reused"), Some(&Value::from(false)));
    assert_eq!(value.get("ok"), Some(&Value::from(true)));
}

#[test]
fn every_device_and_channel_has_its_slot() {
    let mut server = RustDeskMcp::new(PathBuf::from("wrapper"));
    assert_eq!(server.wrapper(), &PathBuf::from("wrapper"));
    assert_eq!(server.len(), 0);
    let terminal = server.session_slot(SessionChannel::Terminal, "1", "a");
    let file = server.session_slot(SessionChannel::File, "1", "b");
    let other = server.session_slot(SessionChannel::Terminal, "2", "c");
    assert_eq!(server.len(), 3);
    assert_ne!(terminal, file);
    assert_ne!(terminal, other);
    assert_ne!(file, other);
    assert_eq!(server.session_slot(SessionChannel::Terminal, "1", "x"), terminal);
    assert_eq!(server.session_slot(SessionChannel::File, "1", "x"), file);
    assert_eq!(server.session_slot(SessionChannel::Terminal, "2", "x"), other);
    assert_eq!(server.len(), 3);
    assert_eq!((server.slot(terminal), server.slot(file), server.slot(other)), (&"a", &"b", &"c"));
}

#[test]
fn a_session_that_runs_is_used_again() {
    let channel = SessionChannel::Terminal;
    assert_eq!(admit_session(channel, &Probe::Running), Ok(true));
    assert_eq!(admit_session(channel, &Probe::Absent), Ok(false));
    assert_eq!(admit_session(channel, &Probe::Exited), Ok(false));
    assert_eq!(
        admit_session(channel, &Probe::Failed("x".to_owned())),
        Err("failed to inspect terminal session before request: x".to_owned())
    );
}

#[test]
fn a_session_must_say_that_it_is_ready() {
    let peer = Peer { hostname: "h".to_owned(), platform: "p".to_owned(), version: "v".to_owned() };
    let ready = ready_reply(SessionChannel::File, "1", &peer);
    assert!(session_is_ready(&ready, SessionChannel::File, "1"));
    assert!(!session_is_ready(&ready, SessionChannel::Terminal, "1"));
    assert!(!session_is_ready(&ready, SessionChannel::File, "2"));
    let start = |start| start_session(SessionChannel::File, "1", &start);
    assert_eq!(start(Start::Line(ready.to_string())), Ok(()));
    assert_eq!(
        start(Start::Line("{}".to_owned())),
        Err("file session readiness did not match device 1".to_owned())
    );
    let invalid = start(Start::Line("x".to_owned())).unwrap_err();
    assert!(invalid.starts_with("invalid file session readiness JSON: "), "{invalid}");
    for (fault, words) in [
        (Start::SpawnFailed("x".to_owned()), "failed to start file session: x"),
        (Start::NoStdin, "file session has no stdin"),
        (Start::NoStdout, "file session has no stdout"),
        (Start::TimedOut, "file session did not become ready in 45 seconds"),
        (Start::ReadFailed("x".to_owned()), "failed to read file session readiness: x"),
        (Start::Exited, "file session exited before becoming ready"),
    ] {
        assert_eq!(start(fault), Err(words.to_owned()));
    }
}

#[test]
fn responses_are_told_and_failed_sessions_dropped() {
    let line = Exchange::Line("{\"ok\":true}".to_owned());
    let reply = call_session(SessionChannel::Terminal, true, line);
    assert!(reply.keep);
    assert_eq!(
        reply.result,
        Ok(parsed(
            "{\"ok\":true,\"session_reused\":true,\"session_channel\":\"terminal\",\
             \"connection_policy\":\"reuse_until_disconnect_or_300s_idle\"}"
        ))
    );
    let line = Exchange::Line("{\"reconnect_on_next_call\":true}".to_owned());
    let reply = call_session(SessionChannel::File, false, line);
    assert!(!reply.keep);
    assert_eq!(reply.result.unwrap().get("session_channel"), Some(&Value::from("file")));
    let reply = call_session(SessionChannel::File, false, Exchange::Line("[1]".to_owned()));
    assert!(reply.keep);
    assert_eq!(reply.result, Ok(parsed("[1]")));
    let reply = call_session(SessionChannel::File, false, Exchange::Line("?".to_owned()));
    assert!(!reply.keep);
    assert!(reply.result.unwrap_err().starts_with("invalid file session response JSON: "));
    for (exchange, words) in [
        (Exchange::WriteFailed("x".to_owned()), "failed to write file session request: x"),
        (Exchange::FlushFailed("x".to_owned()), "failed to flush file session request: x"),
        (Exchange::ReadFailed("x".to_owned()), "failed to read file session response: x"),
        (Exchange::Closed, "file session closed before returning a response"),
        (Exchange::TimedOut(75), "file session response exceeded 75 seconds"),
    ] {
        let reply = call_session(SessionChannel::File, true, exchange);
        assert!(!reply.keep);
        assert_eq!(reply.result, Err(words.to_owned()));
    }
}

fn command_call() -> SessionUse {
    let request = parsed("{\"command\":\"ls\",\"timeout_seconds\":60}");
    SessionUse::start(SessionChannel::Terminal, "1".to_owned(), request)
}

#[test]
fn a_call_uses_a_session_that_runs() {
    let mut call = command_call();
    match call.step(UseEvent::Probed(Probe::Running)) {
        UseAction::Send(line) => assert_eq!(line, b"{\"command\":\"ls\",\"timeout_seconds\":60}\n".to_vec()),
        _ => panic!("expected a request"),
    }
    match call.step(UseEvent::Exchanged(Exchange::Line("{}".to_owned()))) {
        UseAction::Finish(reply) => {
            assert!(reply.keep);
            assert_eq!(reply.result.unwrap().get("session_reused"), Some(&Value::from(true)));
        }
        _ => panic!("expected a result"),
    }
    assert_eq!(call.phase, CallPhase::Done);
}

#[test]
fn a_call_starts_a_session_where_there_is_none() {
    for probe in [Probe::Absent, Probe::Exited] {
        let mut call = command_call();
        assert!(matches!(call.step(UseEvent::Probed(probe)), UseAction::Start));
        let peer = Peer { hostname: "h".to_owned(), platform: "p".to_owned(), version: "v".to_owned() };
        let line = ready_reply(SessionChannel::Terminal, "1", &peer).to_string();
        assert!(matches!(call.step(UseEvent::Started(Start::Line(line))), UseAction::Send(_)));
        match call.step(UseEvent::Exchanged(Exchange::TimedOut(75))) {
            UseAction::Finish(reply) => {
                assert!(!reply.keep);
                assert_eq!(
                    reply.result,
                    Err("terminal session response exceeded 75 seconds".to_owned())
                );
            }
            _ => panic!("expected a result"),
        }
    }
}

#[test]
fn a_call_fails_where_no_session_can_be_had() {
    let mut call = command_call();
    match call.step(UseEvent::Probed(Probe::Failed("x".to_owned()))) {
        UseAction::Finish(reply) => assert!(!reply.keep && reply.result.is_err()),
        _ => panic!("expected a result"),
    }
    let mut call = command_call();
    call.step(UseEvent::Probed(Probe::Absent));
    match call.step(UseEvent::Started(Start::Exited)) {
        UseAction::Finish(reply) => {
            assert!(!reply.keep);
            assert_eq!(reply.result, Err("terminal session exited before becoming ready".to_owned()));
        }
        _ => panic!("expected a result"),
    }
    assert_eq!(call.phase, CallPhase::Done);
}

/// Makes a call on a slot whose sessions are numbered, and gives what it came to.
fn call_on(slot: &mut Option<u32>, number: u32, exchange: Exchange) -> Result<Value, String> {
    let peer = Peer { hostname: "h".to_owned(), platform: "p".to_owned(), version: "v".to_owned() };
    let mut call = command_call();
    let mut started = None;
    let mut exchange = Some(exchange);
    let mut event = UseEvent::Probed(if slot.is_some() { Probe::Running } else { Probe::Absent });
    loop {
        let action = call.step(event);
        settle_slot(slot, started.take(), &action);
        event = match action {
            UseAction::Start => {
                started = Some(number);
                let line = ready_reply(SessionChannel::Terminal, "1", &peer).to_string();
                UseEvent::Started(Start::Line(line))
            }
            UseAction::Send(_) => UseEvent::Exchanged(exchange.take().unwrap()),
            UseAction::Finish(reply) => return reply.result,
        };
    }
}

#[test]
fn a_call_after_a_lost_session_starts_anew() {
    let good = || Exchange::Line("{\"ok\":true}".to_owned());
    let reused = |result: Result<Value, String>| result.unwrap()["session_reused"].as_bool();
    let lost = [
        Exchange::Closed,
        Exchange::TimedOut(75),
        Exchange::Line("?".to_owned()),
        Exchange::Line("{\"reconnect_on_next_call\":true}".to_owned()),
    ];
    for exchange in lost {
        let mut slot = None;
        assert_eq!(reused(call_on(&mut slot, 1, good())), Some(false));
        assert_eq!(slot, Some(1));
        assert_eq!(reused(call_on(&mut slot, 2, good())), Some(true));
        assert_eq!(slot, Some(1));
        let _ = call_on(&mut slot, 3, exchange);
        assert_eq!(slot, None);
        assert_eq!(reused(call_on(&mut slot, 4, good())), Some(false));
        assert_eq!(slot, Some(4));
    }
}
