use rustshell::mcp::{
    answer_devices, check_wrapper, download_answer, download_file, download_response, fingerprint_error,
    list_devices, list_devices_args, millis_of, run_command, run_command_answer, run_wrapper, session_error,
    tool_error, truncate_text, try_tool_error, try_truncate_text, unix_time_millis, upload_answer, upload_file,
    upload_source, validate_device_id, DownloadFileParams, DownloadStep, FingerprintFault, ProcessOutput,
    RunCommandParams, SessionCall, ToolResult, UploadFileParams, UploadStep, WrapperRun, MAX_ERROR_BYTES,
};
use rustshell::session::SessionChannel;
use serde_json::Value;

fn parsed(text: &str) -> Value {
    serde_json::from_str(text).unwrap()
}

fn params(device_id: &str, command: &str, timeout_seconds: Option<u64>) -> RunCommandParams {
    RunCommandParams { device_id: device_id.to_owned(), command: command.to_owned(), timeout_seconds }
}

fn call(result: Result<SessionCall, ToolResult>) -> SessionCall {
    match result {
        Ok(call) => call,
        Err(_) => panic!("expected a call"),
    }
}

fn refused(result: Result<SessionCall, ToolResult>) -> Value {
    match result {
        Ok(_) => panic!("expected an error"),
        Err(result) => {
            assert!(result.is_error);
            result.value
        }
    }
}

fn answer(result: Option<ToolResult>) -> (bool, Value) {
    let result = result.unwrap();
    (result.is_error, result.value)
}

#[test]
fn device_id_requires_digits() {
    assert!(validate_device_id("134222114").is_ok());
    assert!(validate_device_id("").is_err());
    assert!(validate_device_id("134-222").is_err());
}

#[test]
fn truncates_large_errors() {
    let value = truncate_text("x".repeat(MAX_ERROR_BYTES + 10));
    assert!(value.ends_with("...<truncated>"));
    assert!(value.len() < MAX_ERROR_BYTES + 32);
}

#[test]
fn errors_are_cut_at_the_limit_exactly() {
    assert_eq!(truncate_text("x".repeat(MAX_ERROR_BYTES)), "x".repeat(MAX_ERROR_BYTES));
    let cut = truncate_text("é".repeat(MAX_ERROR_BYTES));
    assert_eq!(cut, format!("{}...<truncated>", "é".repeat(MAX_ERROR_BYTES / 2)));
    assert!(try_tool_error("s", format!("x{}", "é".repeat(MAX_ERROR_BYTES))).is_none());
    let head = "x".repeat(MAX_ERROR_BYTES - 1);
    assert_eq!(try_truncate_text(format!("{head}é")), None);
    assert_eq!(try_truncate_text(format!("{head}yé")), Some(format!("{head}y...<truncated>")));
    assert_eq!(try_truncate_text(format!("{head}y")), Some(format!("{head}y")));
    assert_eq!(validate_device_id("١"), Err("device_id must contain ASCII digits only".to_owned()));
}

#[test]
fn errors_say_where_they_arose() {
    let error = tool_error("stage", "words".to_owned());
    assert!(error.is_error);
    assert_eq!(error.value, parsed("{\"ok\":false,\"stage\":\"stage\",\"error\":\"words\"}"));
    let error = session_error("stage", "words".to_owned());
    assert!(error.is_error);
    assert_eq!(
        error.value,
        parsed(
            "{\"ok\":false,\"stage\":\"stage\",\"error\":\"words\",\"replayed\":false,\
             \"reconnect_on_next_call\":true}"
        )
    );
}

#[test]
fn the_clock_goes_on() {
    assert_eq!(millis_of(None), 0);
    assert_eq!(millis_of(Some((5, 1_999_999))), 5001);
    assert_eq!(millis_of(Some((u64::MAX, 999_999_999))), 18_446_744_073_709_551_615_999);
    let one = unix_time_millis();
    assert!(one > 1_600_000_000_000);
    assert!(unix_time_millis() >= one);
}

#[test]
fn the_wrapper_is_heard() {
    let done = WrapperRun::Done { success: true, stdout: b"[]\xff".to_vec(), stderr: b"warn".to_vec() };
    match run_wrapper(done) {
        Some(Ok(output)) => {
            assert!(output.success);
            assert_eq!((output.stdout.as_str(), output.stderr.as_str()), ("[]\u{fffd}", "warn"));
        }
        _ => panic!("expected output"),
    }
    for (run, words) in [
        (WrapperRun::SpawnFailed("x".to_owned()), "failed to start RustShell wrapper: x"),
        (WrapperRun::TimedOut(15), "RustShell wrapper exceeded 15 seconds"),
        (WrapperRun::WaitFailed("x".to_owned()), "failed while waiting for RustShell wrapper: x"),
    ] {
        match run_wrapper(run) {
            Some(Err(error)) => assert_eq!(error, words),
            _ => panic!("expected an error"),
        }
    }
    let stderr = format!("x{}", "é".repeat(MAX_ERROR_BYTES)).into_bytes();
    assert!(run_wrapper(WrapperRun::Done { success: true, stdout: vec![], stderr }).is_none());
    assert_eq!(list_devices_args(), vec!["devices".to_owned(), "--json".to_owned()]);
    assert!(check_wrapper(true, "w").is_ok());
    assert_eq!(check_wrapper(false, "w"), Err("RustShell wrapper is not a file: w".to_owned()));
}

#[test]
fn devices_are_listed() {
    let output = |success, stdout: &str| {
        Ok(ProcessOutput { success, stdout: stdout.to_owned(), stderr: "no peers".to_owned() })
    };
    let (is_error, value) = answer(list_devices(output(true, " [{\"id\":\"1\"}]\n"), 77));
    assert!(!is_error);
    assert_eq!(
        value,
        parsed("{\"ok\":true,\"fresh\":true,\"queried_at_unix_ms\":77,\"devices\":[{\"id\":\"1\"}]}")
    );
    let (is_error, value) = answer(list_devices(output(false, "[]"), 77));
    assert!(is_error);
    assert_eq!(value, parsed("{\"ok\":false,\"stage\":\"devices\",\"error\":\"no peers\"}"));
    let (is_error, value) = answer(list_devices(output(true, "{}"), 77));
    assert!(is_error);
    assert_eq!(value.get("error"), Some(&Value::from("wrapper returned a non-array device list")));
    let (is_error, value) = answer(list_devices(output(true, "["), 77));
    assert!(is_error);
    assert!(value.get("error").unwrap().as_str().unwrap().starts_with("invalid device JSON from wrapper: "));
    let (is_error, value) = answer(list_devices(Err("late".to_owned()), 77));
    assert!(is_error);
    assert_eq!(value.get("error"), Some(&Value::from("late")));
    let (is_error, _) = answer(answer_devices(Ok(Value::from(vec![1])), 1));
    assert!(!is_error);
}

#[test]
fn commands_are_checked_and_asked_for() {
    let asked = call(run_command(params("123", "ls", None)));
    assert_eq!(asked.channel, SessionChannel::Terminal);
    assert_eq!(asked.device_id, "123");
    assert_eq!(asked.timeout_seconds, Some(75));
    assert_eq!(asked.request, parsed("{\"command\":\"ls\",\"timeout_seconds\":60}"));
    let asked = call(run_command(params("123", "ls", Some(300))));
    assert_eq!(asked.timeout_seconds, Some(315));
    let value = refused(run_command(params("12x", "", Some(0))));
    assert_eq!(
        value,
        parsed(
            "{\"ok\":false,\"stage\":\"validate_device\",\"error\":\"device_id must contain ASCII digits only\"}"
        )
    );
    let value = refused(run_command(params("12", "\n", Some(0))));
    assert_eq!(value.get("error"), Some(&Value::from("command cannot be empty")));
    for seconds in [0, 301, u64::MAX] {
        let value = refused(run_command(params("12", "ls", Some(seconds))));
        assert_eq!(value.get("stage"), Some(&Value::from("validate_timeout")));
        assert_eq!(value.get("error"), Some(&Value::from("timeout_seconds must be between 1 and 300")));
    }
}

#[test]
fn commands_are_answered() {
    let good = parsed("{\"ok\":true,\"exit_code\":0}");
    assert_eq!(answer(run_command_answer(Ok(good.clone()))), (false, good));
    let bad = parsed("{\"ok\":false,\"exit_code\":1}");
    assert_eq!(answer(run_command_answer(Ok(bad.clone()))), (true, bad));
    let strange = Value::from(3);
    assert_eq!(answer(run_command_answer(Ok(strange.clone()))), (true, strange));
    let (is_error, value) = answer(run_command_answer(Err("gone".to_owned())));
    assert!(is_error);
    assert_eq!(value.get("stage"), Some(&Value::from("terminal_session")));
    assert_eq!(value.get("reconnect_on_next_call"), Some(&Value::from(true)));
}

#[test]
fn uploads_are_checked_asked_for_and_answered() {
    let params = |device_id: &str, remote: &str| UploadFileParams {
        device_id: device_id.to_owned(),
        local_path: "l".to_owned(),
        remote_path: remote.to_owned(),
    };
    let asked = call(upload_file(params("123", "r")));
    assert_eq!(asked.channel, SessionChannel::File);
    assert_eq!(asked.timeout_seconds, None);
    assert_eq!(
        asked.request,
        parsed("{\"operation\":\"push\",\"local_path\":\"l\",\"remote_path\":\"r\"}")
    );
    let value = refused(upload_file(params("", "")));
    assert_eq!(value.get("stage"), Some(&Value::from("validate_device")));
    let value = refused(upload_file(params("1", "")));
    assert_eq!(value.get("error"), Some(&Value::from("remote_path cannot be empty")));
    match upload_source(asked, Err("not a regular file: l".to_owned())) {
        UploadStep::Answer(result) => {
            let (is_error, value) = answer(result);
            assert!(is_error);
            assert_eq!(value.get("stage"), Some(&Value::from("validate_local_file")));
            assert_eq!(value.get("error"), Some(&Value::from("not a regular file: l")));
        }
        UploadStep::Send { .. } => panic!("nothing is asked without a fingerprint"),
    }
    match upload_source(call(upload_file(params("123", "r"))), Ok((9, "abc".to_owned()))) {
        UploadStep::Send { call, bytes, sha256 } => {
            assert_eq!((call.device_id.as_str(), bytes, sha256.as_str()), ("123", 9, "abc"));
        }
        UploadStep::Answer(_) => panic!("expected a call"),
    }
    let (is_error, value) = answer(upload_answer(Ok(parsed("{\"ok\":true,\"stage\":\"x\"}")), 9, "abc"));
    assert!(!is_error);
    assert_eq!(value, parsed("{\"ok\":true,\"bytes\":9,\"sha256\":\"abc\",\"stage\":\"remote_done\"}"));
    let bad = parsed("{\"ok\":false}");
    assert_eq!(answer(upload_answer(Ok(bad.clone()), 9, "abc")), (true, bad));
    let (_, value) = answer(upload_answer(Err("gone".to_owned()), 9, "abc"));
    assert_eq!(value.get("stage"), Some(&Value::from("file_session")));
}

#[test]
fn downloads_are_checked_asked_for_and_answered() {
    let params = |device_id: &str, remote: &str, local: &str| DownloadFileParams {
        device_id: device_id.to_owned(),
        local_path: local.to_owned(),
        remote_path: remote.to_owned(),
    };
    let asked = call(download_file(params("123", "r", "l")));
    assert_eq!(
        asked.request,
        parsed("{\"operation\":\"pull\",\"local_path\":\"l\",\"remote_path\":\"r\"}")
    );
    let value = refused(download_file(params("x", "", "")));
    assert_eq!(value.get("stage"), Some(&Value::from("validate_device")));
    let value = refused(download_file(params("1", "", "")));
    assert_eq!(value.get("stage"), Some(&Value::from("validate_remote_path")));
    let value = refused(download_file(params("1", "r", "")));
    assert_eq!(value.get("error"), Some(&Value::from("local_path cannot be empty")));

    let good = parsed("{\"ok\":true}");
    let value = match download_response(Ok(good)) {
        DownloadStep::Verify(value) => value,
        DownloadStep::Answer(_) => panic!("expected a check"),
    };
    let (is_error, verified) = answer(download_answer(value.clone(), Ok((9, "abc".to_owned()))));
    assert!(!is_error);
    assert_eq!(
        verified,
        parsed("{\"ok\":true,\"bytes\":9,\"sha256\":\"abc\",\"stage\":\"local_verified\"}")
    );
    let (is_error, failed) = answer(download_answer(value, Err("cannot read l: x".to_owned())));
    assert!(is_error);
    assert_eq!(
        failed,
        parsed("{\"ok\":false,\"stage\":\"verify_local_file\",\"error\":\"cannot read l: x\"}")
    );
    match download_response(Ok(parsed("{\"ok\":false}"))) {
        DownloadStep::Answer(result) => assert_eq!(answer(result), (true, parsed("{\"ok\":false}"))),
        DownloadStep::Verify(_) => panic!("expected an answer"),
    }
    match download_response(Err("gone".to_owned())) {
        DownloadStep::Answer(result) => {
            assert_eq!(answer(result).1.get("stage"), Some(&Value::from("file_session")));
        }
        DownloadStep::Verify(_) => panic!("expected an answer"),
    }
}

#[test]
fn files_without_a_fingerprint_say_why() {
    assert_eq!(fingerprint_error("p", &FingerprintFault::Metadata("x".to_owned())), "cannot read p: x");
    assert_eq!(fingerprint_error("p", &FingerprintFault::NotAFile), "not a regular file: p");
    assert_eq!(fingerprint_error("p", &FingerprintFault::Open("x".to_owned())), "cannot open p: x");
    assert_eq!(fingerprint_error("p", &FingerprintFault::Read("x".to_owned())), "cannot hash p: x");
}
