//! The tools: what they accept, what they ask of a session, and what they answer.

use vstd::prelude::*;
use vstd::string::*;
use vstd::utf8::*;

use crate::codec::{lossy, lossy_text};
use crate::exec::MAX_EXEC_TIMEOUT_SECONDS;
use crate::json::{
    count_at, flag_at, flag_is_set, insert, is_list, json_of, json_parsed, lemma_keys, member, no_members, object,
    parse, set_count, set_flag, set_text, text_at, with, Json,
};
use crate::session::{reject, rejection, SessionChannel};
use crate::text::{
    all_blank, all_digits, decimal, is_blank, is_space, joined, joined3, joined4, lemma_trimmed_between, number_text,
    told, trimmed, trimmed_text,
};

verus! {

/// The most bytes of an error that a tool passes on.
pub const MAX_ERROR_BYTES: usize = 16384;

/// How long the wrapper script has to list the devices, in seconds.
pub const LIST_TIMEOUT_SECONDS: u64 = 15;

/// How long a command may take where nothing else is said, in seconds.
pub const DEFAULT_EXEC_TIMEOUT_SECONDS: u64 = 60;

/// How much longer than the command a tool waits for its result, in seconds.
pub const EXEC_GRACE_SECONDS: u64 = 15;

/// What follows an error that was cut off.
pub const TRUNCATED: &'static str = "...<truncated>";

// ---------------------------------------------------------------------------
// Parameters
// ---------------------------------------------------------------------------

/// The parameters of the tool that runs a command.
pub struct RunCommandParams {
    /// Exact RustDesk device ID returned by rustdesk_list_devices.
    pub device_id: String,
    /// One command interpreted by PowerShell on Windows or /bin/sh on macOS/Linux.
    pub command: String,
    /// Hard command timeout in seconds, from 1 through 300. Defaults to 60.
    pub timeout_seconds: Option<u64>,
}

/// The parameters of the tool that uploads a file.
pub struct UploadFileParams {
    /// Exact RustDesk device ID returned by rustdesk_list_devices.
    pub device_id: String,
    /// Existing regular file on the MCP host.
    pub local_path: String,
    /// Exact destination file path on the remote device. Existing files are overwritten.
    pub remote_path: String,
}

/// The parameters of the tool that downloads a file.
pub struct DownloadFileParams {
    /// Exact RustDesk device ID returned by rustdesk_list_devices.
    pub device_id: String,
    /// Exact existing regular-file path on the remote device.
    pub remote_path: String,
    /// Exact destination file path on the MCP host. Existing files are overwritten.
    pub local_path: String,
}

/// Checks a device's number: digits and nothing else, at least one.
pub fn validate_device_id(device_id: &str) -> (r: Result<(), String>)
    ensures
        all_digits(device_id@) ==> r is Ok,
        !all_digits(device_id@) ==> told(r) == Err::<(), Seq<char>>("device_id must contain ASCII digits only"@),
{
    let chars = crate::text::chars_of(device_id);
    let mut i: usize = 0;
    while i < chars.len()
        invariant
            i <= chars@.len(),
            chars@ == device_id@,
            forall|j: int| 0 <= j < i ==> '0' <= #[trigger] chars@[j] <= '9',
        decreases chars@.len() - i,
    {
        let c = chars[i];
        if c < '0' || '9' < c {
            return Err("device_id must contain ASCII digits only".to_owned());
        }
        i = i + 1;
    }
    if chars.len() == 0 {
        return Err("device_id must contain ASCII digits only".to_owned());
    }
    Ok(())
}

// ---------------------------------------------------------------------------
// Errors
// ---------------------------------------------------------------------------

/// The text is short enough, or can be cut at the limit without cutting a character in two.
pub open spec fn can_truncate(text: Seq<char>) -> bool {
    encode_utf8(text).len() <= MAX_ERROR_BYTES || is_char_boundary(encode_utf8(text), MAX_ERROR_BYTES as int)
}

/// The text, or where it is too long its first 16384 bytes and a note.
pub open spec fn truncated(text: Seq<char>) -> Seq<char> {
    if encode_utf8(text).len() <= MAX_ERROR_BYTES {
        text
    } else {
        decode_utf8(encode_utf8(text).subrange(0, MAX_ERROR_BYTES as int)) + TRUNCATED@
    }
}

/// Cuts a text off at 16384 bytes.
pub fn truncate_text(value: String) -> (text: String)
    requires
        can_truncate(value@),
    ensures
        text@ == truncated(value@),
{
    if value.as_str().as_bytes().len() > MAX_ERROR_BYTES {
        let (head, _rest) = value.as_str().split_at(MAX_ERROR_BYTES);
        proof {
            encode_utf8_decode_utf8(head@);
        }
        joined(head, TRUNCATED)
    } else {
        value
    }
}

/// Cuts a text off at 16384 bytes, exactly where that cuts no character in two or the text is no longer.
pub fn try_truncate_text(value: String) -> (text: Option<String>)
    ensures
        text is Some <==> encode_utf8(value@).len() <= MAX_ERROR_BYTES || is_char_boundary(
            encode_utf8(value@),
            MAX_ERROR_BYTES as int,
        ),
        text matches Some(cut) ==> cut@ == truncated(value@),
{
    if value.as_str().as_bytes().len() <= MAX_ERROR_BYTES || value.as_str().is_char_boundary(MAX_ERROR_BYTES) {
        Some(truncate_text(value))
    } else {
        None
    }
}

/// A place between two characters is where the bytes of the characters before it end.
proof fn lemma_boundary(text: Seq<char>, at: int)
    ensures
        is_char_boundary(encode_utf8(text), at) <==> exists|k: int|
            0 <= k <= text.len() && encode_utf8(#[trigger] text.take(k)).len() == at,
    decreases text.len(),
{
    let bytes = encode_utf8(text);
    encode_utf8_valid_utf8(text);
    if text.len() == 0 {
        assert(text.take(0) =~= text);
        assert(encode_utf8(text.take(0)).len() == 0);
    } else if at == 0 {
        assert(encode_utf8(text.take(0)).len() == 0);
    } else if at < 0 || bytes.len() < at {
        assert forall|k: int| 0 <= k <= text.len() implies encode_utf8(#[trigger] text.take(k)).len() <= bytes.len() by {
            assert(text.take(k) + text.skip(k) =~= text);
            lemma_encode_concat(text.take(k), text.skip(k));
        }
    } else {
        let rest = text.drop_first();
        let width = encode_scalar(text[0] as u32).len() as int;
        encode_utf8_first_scalar(text);
        assert(pop_first_scalar(bytes) =~= encode_utf8(rest));
        lemma_boundary(rest, at - width);
        assert forall|k: int| 0 < k <= text.len() implies encode_utf8(#[trigger] text.take(k)).len() == width
            + encode_utf8(rest.take(k - 1)).len() by {
            assert(text.take(k).drop_first() =~= rest.take(k - 1));
        }
        if is_char_boundary(bytes, at) {
            let k = choose|k: int| 0 <= k <= rest.len() && encode_utf8(#[trigger] rest.take(k)).len() == at - width;
            assert(rest.take(k + 1 - 1) == rest.take(k));
            assert(encode_utf8(text.take(k + 1)).len() == at);
        }
        if exists|k: int| 0 <= k <= text.len() && encode_utf8(#[trigger] text.take(k)).len() == at {
            let k = choose|k: int| 0 <= k <= text.len() && encode_utf8(#[trigger] text.take(k)).len() == at;
            assert(encode_utf8(text.take(0)).len() == 0);
            assert(k > 0);
            assert(encode_utf8(rest.take(k - 1)).len() == at - width);
        }
    }
}

/// A text can be cut off exactly where it is short enough or some of its first characters take 16384 bytes
/// together: what is left of it then is those characters and the note.
pub proof fn law_cuts_fall_between_characters(text: Seq<char>)
    ensures
        can_truncate(text) <==> encode_utf8(text).len() <= MAX_ERROR_BYTES || exists|k: int|
            0 <= k <= text.len() && encode_utf8(#[trigger] text.take(k)).len() == MAX_ERROR_BYTES,
        encode_utf8(text).len() > MAX_ERROR_BYTES ==> forall|k: int|
            0 <= k <= text.len() && encode_utf8(#[trigger] text.take(k)).len() == MAX_ERROR_BYTES ==> truncated(text)
                == text.take(k) + TRUNCATED@,
{
    lemma_boundary(text, MAX_ERROR_BYTES as int);
    if encode_utf8(text).len() > MAX_ERROR_BYTES {
        assert forall|k: int|
            0 <= k <= text.len() && encode_utf8(#[trigger] text.take(k)).len() == MAX_ERROR_BYTES implies truncated(text)
            == text.take(k) + TRUNCATED@ by {
            assert(text.take(k) + text.skip(k) =~= text);
            lemma_encode_concat(text.take(k), text.skip(k));
            assert(encode_utf8(text).subrange(0, MAX_ERROR_BYTES as int) =~= encode_utf8(text.take(k)));
            encode_utf8_decode_utf8(text.take(k));
        }
    }
}

/// A text with a character that begins before the limit and ends after it cannot be cut off.
pub proof fn law_no_character_is_cut_in_two(head: Seq<char>, c: char, rest: Seq<char>)
    requires
        encode_utf8(head).len() < MAX_ERROR_BYTES < encode_utf8(head.push(c)).len(),
    ensures
        !can_truncate(head.push(c) + rest),
{
    let text = head.push(c) + rest;
    lemma_encode_concat(head.push(c), rest);
    law_cuts_fall_between_characters(text);
    assert forall|k: int| 0 <= k <= text.len() implies encode_utf8(#[trigger] text.take(k)).len() != MAX_ERROR_BYTES by {
        if k <= head.len() {
            assert(text.take(k) + head.skip(k) =~= head);
            lemma_encode_concat(text.take(k), head.skip(k));
        } else {
            assert(head.push(c) + rest.take(k - head.len() - 1) =~= text.take(k));
            lemma_encode_concat(head.push(c), rest.take(k - head.len() - 1));
        }
    }
}

/// A text that was cut off is little longer than the limit, and ends in the note.
pub proof fn law_truncated_is_short(text: Seq<char>)
    requires
        can_truncate(text),
    ensures
        encode_utf8(truncated(text)).len() <= MAX_ERROR_BYTES + 14,
        encode_utf8(text).len() > MAX_ERROR_BYTES ==> truncated(text).len() >= 14 && truncated(text).skip(
            truncated(text).len() - 14,
        ) == TRUNCATED@,
        encode_utf8(text).len() <= MAX_ERROR_BYTES ==> truncated(text) == text,
{
    if encode_utf8(text).len() > MAX_ERROR_BYTES {
        let bytes = encode_utf8(text);
        let head = decode_utf8(bytes.subrange(0, MAX_ERROR_BYTES as int));
        reveal_strlit("...<truncated>");
        encode_utf8_valid_utf8(text);
        valid_utf8_split(bytes, MAX_ERROR_BYTES as int);
        decode_utf8_encode_utf8(bytes.subrange(0, MAX_ERROR_BYTES as int));
        lemma_encode_concat(head, TRUNCATED@);
        assert(truncated(text).skip(truncated(text).len() - 14) =~= TRUNCATED@);
        assert(forall|i: int| 0 <= i < TRUNCATED@.len() ==> (TRUNCATED@[i] as u32) < 0x80);
        lemma_ascii_length(TRUNCATED@);
    }
}

/// What a tool answers.
pub struct ToolResult {
    /// It is an error.
    pub is_error: bool,
    pub value: serde_json::Value,
}

/// What a tool answers, as a value.
pub struct ToolView {
    pub is_error: bool,
    pub json: Json,
}

impl View for ToolResult {
    type V = ToolView;

    open spec fn view(&self) -> ToolView {
        ToolView { is_error: self.is_error, json: json_of(self.value) }
    }
}

/// An answer where there is one.
pub open spec fn answer_in(answer: Option<ToolResult>) -> Option<ToolView> {
    match answer {
        Some(result) => Some(result@),
        None => None,
    }
}

/// A tool's error.
pub open spec fn tool_error_view(stage: Seq<char>, message: Seq<char>) -> ToolView {
    ToolView { is_error: true, json: rejection(stage, truncated(message)) }
}

/// A tool's error: where it arose, and what it is.
pub fn tool_error(stage: &str, message: String) -> (result: ToolResult)
    requires
        can_truncate(message@),
    ensures
        result@ == tool_error_view(stage@, message@),
{
    let text = truncate_text(message);
    ToolResult { is_error: true, value: reject(stage, text.as_str()) }
}

/// An error of a session: nothing is tried again, and the next call starts a new session.
pub open spec fn session_error_view(stage: Seq<char>, message: Seq<char>) -> ToolView {
    ToolView {
        is_error: true,
        json: with(
            with(rejection(stage, truncated(message)), "replayed"@, Json::Bool(false)),
            "reconnect_on_next_call"@,
            Json::Bool(true),
        ),
    }
}

/// An error of a session whose message has been cut.
fn lost_session_error(stage: &str, text: &str) -> (result: ToolResult)
    ensures
        result@ == (ToolView {
            is_error: true,
            json: with(
                with(rejection(stage@, text@), "replayed"@, Json::Bool(false)),
                "reconnect_on_next_call"@,
                Json::Bool(true),
            ),
        }),
{
    let mut value = reject(stage, text);
    set_flag(&mut value, "replayed", false);
    set_flag(&mut value, "reconnect_on_next_call", true);
    ToolResult { is_error: true, value }
}

/// An error of a session.
pub fn session_error(stage: &str, message: String) -> (result: ToolResult)
    requires
        can_truncate(message@),
    ensures
        result@ == session_error_view(stage@, message@),
{
    lost_session_error(stage, truncate_text(message).as_str())
}

/// A tool's error, where the message can be cut at the limit.
pub open spec fn checked_tool_error(stage: Seq<char>, message: Seq<char>) -> Option<ToolView> {
    if can_truncate(message) {
        Some(tool_error_view(stage, message))
    } else {
        None
    }
}

/// A tool's error, where the message can be cut at the limit.
pub fn try_tool_error(stage: &str, message: String) -> (result: Option<ToolResult>)
    ensures
        answer_in(result) == checked_tool_error(stage@, message@),
{
    match try_truncate_text(message) {
        Some(text) => Some(ToolResult { is_error: true, value: reject(stage, text.as_str()) }),
        None => None,
    }
}

/// An error of a session, where the message can be cut at the limit.
pub open spec fn checked_session_error(stage: Seq<char>, message: Seq<char>) -> Option<ToolView> {
    if can_truncate(message) {
        Some(session_error_view(stage, message))
    } else {
        None
    }
}

/// An error of a session, where the message can be cut at the limit.
pub fn try_session_error(stage: &str, message: String) -> (result: Option<ToolResult>)
    ensures
        answer_in(result) == checked_session_error(stage@, message@),
{
    match try_truncate_text(message) {
        Some(text) => Some(lost_session_error(stage, text.as_str())),
        None => None,
    }
}

proof fn lemma_ascii_length(s: Seq<char>)
    requires
        forall|i: int| 0 <= i < s.len() ==> (#[trigger] s[i] as u32) < 0x80,
    ensures
        encode_utf8(s).len() == s.len(),
    decreases s.len(),
{
    if s.len() > 0 {
        assert forall|i: int| 0 <= i < s.drop_first().len() implies (#[trigger] s.drop_first()[i] as u32) < 0x80 by {
            assert(s.drop_first()[i] == s[i + 1]);
        }
        lemma_ascii_length(s.drop_first());
    }
}

proof fn lemma_encode_concat(a: Seq<char>, b: Seq<char>)
    ensures
        encode_utf8(a + b) == encode_utf8(a) + encode_utf8(b),
    decreases a.len(),
{
    if a.len() == 0 {
        assert(a + b =~= b);
        assert(encode_utf8(a) + encode_utf8(b) =~= encode_utf8(b));
    } else {
        assert((a + b).drop_first() =~= a.drop_first() + b);
        lemma_encode_concat(a.drop_first(), b);
        assert(encode_utf8(a + b) =~= encode_utf8(a) + encode_utf8(b));
    }
}

// ---------------------------------------------------------------------------
// The clock
// ---------------------------------------------------------------------------

/// `std::time::SystemTime::elapsed` since `UNIX_EPOCH`: the seconds that the clock shows and the nanoseconds
/// of the second that has begun, which are fewer than a billion; nothing where it shows a time before.
#[verifier::external_body]
fn clock_reading() -> (reading: Option<(u64, u32)>)
    ensures
        reading matches Some((_, nanos)) ==> nanos < 1_000_000_000,
{
    std::time::UNIX_EPOCH.elapsed().ok().map(|elapsed| (elapsed.as_secs(), elapsed.subsec_nanos()))
}

/// What a reading of the clock is in whole milliseconds: a time before the beginning counts as the
/// beginning.
pub fn millis_of(reading: Option<(u64, u32)>) -> (millis: u128)
    ensures
        millis == (match reading {
            Some((seconds, nanos)) => seconds * 1000 + nanos / 1_000_000,
            None => 0,
        }),
{
    match reading {
        Some((seconds, nanos)) => (seconds as u128) * 1000 + (nanos / 1_000_000) as u128,
        None => 0,
    }
}

/// The milliseconds since 1970 that the clock shows.
pub fn unix_time_millis() -> (millis: u128)
    ensures
        millis <= 18_446_744_073_709_551_615_999,
{
    millis_of(clock_reading())
}

// ---------------------------------------------------------------------------
// The wrapper script
// ---------------------------------------------------------------------------

/// What came of a run of the wrapper script.
pub enum WrapperRun {
    SpawnFailed(String),
    /// It was not done within so many seconds.
    TimedOut(u64),
    WaitFailed(String),
    /// It is done: whether it succeeded, and what it wrote.
    Done { success: bool, stdout: Vec<u8>, stderr: Vec<u8> },
}

/// What the wrapper script wrote.
pub struct ProcessOutput {
    pub success: bool,
    pub stdout: String,
    pub stderr: String,
}

/// What the wrapper script wrote, as values.
pub open spec fn output_of(output: ProcessOutput) -> (bool, Seq<char>, Seq<char>) {
    (output.success, output.stdout@, output.stderr@)
}

/// What a run of the wrapper script came to. There is nothing where what it complained of cannot be cut at
/// the limit.
pub open spec fn wrapper_outcome(run: WrapperRun) -> Option<Result<(bool, Seq<char>, Seq<char>), Seq<char>>> {
    match run {
        WrapperRun::SpawnFailed(error) => Some(Err("failed to start RustShell wrapper: "@ + error@)),
        WrapperRun::TimedOut(seconds) => Some(
            Err("RustShell wrapper exceeded "@ + decimal(seconds as nat) + " seconds"@),
        ),
        WrapperRun::WaitFailed(error) => Some(Err("failed while waiting for RustShell wrapper: "@ + error@)),
        WrapperRun::Done { success, stdout, stderr } => if can_truncate(lossy(stderr@)) {
            Some(Ok((success, lossy(stdout@), truncated(lossy(stderr@)))))
        } else {
            None
        },
    }
}

/// A run of the wrapper script as a value.
pub open spec fn run_told(r: Option<Result<ProcessOutput, String>>) -> Option<
    Result<(bool, Seq<char>, Seq<char>), Seq<char>>,
> {
    match r {
        Some(Ok(output)) => Some(Ok(output_of(output))),
        Some(Err(e)) => Some(Err(e@)),
        None => None,
    }
}

/// Takes what came of a run of the wrapper script. What it complained of is cut at the limit.
pub fn run_wrapper(run: WrapperRun) -> (r: Option<Result<ProcessOutput, String>>)
    ensures
        run_told(r) == wrapper_outcome(run),
{
    match run {
        WrapperRun::SpawnFailed(error) => Some(Err(joined("failed to start RustShell wrapper: ", error.as_str()))),
        WrapperRun::TimedOut(seconds) => Some(
            Err(joined3("RustShell wrapper exceeded ", number_text(seconds).as_str(), " seconds")),
        ),
        WrapperRun::WaitFailed(error) => Some(
            Err(joined("failed while waiting for RustShell wrapper: ", error.as_str())),
        ),
        WrapperRun::Done { success, stdout, stderr } => {
            let complaint = lossy_text(stderr.as_slice());
            match try_truncate_text(complaint) {
                Some(stderr) => Some(Ok(ProcessOutput { success, stdout: lossy_text(stdout.as_slice()), stderr })),
                None => None,
            }
        },
    }
}

// ---------------------------------------------------------------------------
// The list of devices
// ---------------------------------------------------------------------------

/// The arguments of the wrapper script that list the devices.
pub fn list_devices_args() -> (args: Vec<String>)
    ensures
        args@.len() == 2,
        args@[0]@ == "devices"@,
        args@[1]@ == "--json"@,
{
    let mut args: Vec<String> = Vec::new();
    args.push("devices".to_owned());
    args.push("--json".to_owned());
    args
}

/// The answer that lists devices.
pub open spec fn devices_json(devices: Json, now_millis: u64) -> Json {
    with(
        with(
            with(
                with(no_members(), "ok"@, Json::Bool(true)),
                "fresh"@,
                Json::Bool(true),
            ),
            "queried_at_unix_ms"@,
            Json::Number(Some(now_millis as int)),
        ),
        "devices"@,
        devices,
    )
}

/// What the tool that lists devices makes of a document that the wrapper script wrote.
pub open spec fn devices_answer(parsed: Result<Json, Seq<char>>, now_millis: u64) -> Option<ToolView> {
    match parsed {
        Ok(json) => if json is List {
            Some(ToolView { is_error: false, json: devices_json(json, now_millis) })
        } else {
            checked_tool_error("devices"@, "wrapper returned a non-array device list"@)
        },
        Err(error) => checked_tool_error("devices"@, "invalid device JSON from wrapper: "@ + error),
    }
}

/// A document, or why there is none, as a value.
pub open spec fn parse_told(parsed: Result<serde_json::Value, String>) -> Result<Json, Seq<char>> {
    match parsed {
        Ok(value) => Ok(json_of(value)),
        Err(e) => Err(e@),
    }
}

/// What the tool that lists devices makes of a document: a list is passed on as it is.
pub fn answer_devices(parsed: Result<serde_json::Value, String>, now_millis: u64) -> (result: Option<ToolResult>)
    ensures
        answer_in(result) == devices_answer(parse_told(parsed), now_millis),
{
    match parsed {
        Ok(devices) => {
            if is_list(&devices) {
                let mut value = object();
                set_flag(&mut value, "ok", true);
                set_flag(&mut value, "fresh", true);
                set_count(&mut value, "queried_at_unix_ms", now_millis);
                insert(&mut value, "devices", devices);
                Some(ToolResult { is_error: false, value })
            } else {
                try_tool_error("devices", "wrapper returned a non-array device list".to_owned())
            }
        },
        Err(error) => try_tool_error("devices", joined("invalid device JSON from wrapper: ", error.as_str())),
    }
}

/// The answer of the tool that lists devices.
pub open spec fn list_answer(
    output: Result<(bool, Seq<char>, Seq<char>), Seq<char>>,
    now_millis: u64,
) -> Option<ToolView> {
    match output {
        Err(error) => checked_tool_error("devices"@, error),
        Ok((success, stdout, stderr)) => if !success {
            checked_tool_error("devices"@, stderr)
        } else {
            devices_answer(json_parsed(trimmed_text(stdout)), now_millis)
        },
    }
}

/// A run of the wrapper script as a value.
pub open spec fn ran(output: Result<ProcessOutput, String>) -> Result<(bool, Seq<char>, Seq<char>), Seq<char>> {
    match output {
        Ok(output) => Ok(output_of(output)),
        Err(e) => Err(e@),
    }
}

/// The answer of the tool that lists devices. There is none where an error cannot be cut at the limit.
pub fn list_devices(output: Result<ProcessOutput, String>, now_millis: u64) -> (result: Option<ToolResult>)
    ensures
        answer_in(result) == list_answer(ran(output), now_millis),
{
    match output {
        Err(error) => try_tool_error("devices", error),
        Ok(output) => {
            if !output.success {
                try_tool_error("devices", output.stderr)
            } else {
                answer_devices(parse(trimmed(output.stdout.as_str()).as_str()), now_millis)
            }
        },
    }
}

// ---------------------------------------------------------------------------
// Commands
// ---------------------------------------------------------------------------

/// What a tool asks of a session.
pub struct SessionCall {
    pub channel: SessionChannel,
    pub device_id: String,
    pub request: serde_json::Value,
    /// How long it waits for the response, in seconds, where that is limited.
    pub timeout_seconds: Option<u64>,
}

/// What a tool asks of a session, as a value.
pub struct CallView {
    pub channel: SessionChannel,
    pub device_id: Seq<char>,
    pub request: Json,
    pub timeout_seconds: Option<u64>,
}

impl View for SessionCall {
    type V = CallView;

    open spec fn view(&self) -> CallView {
        CallView {
            channel: self.channel,
            device_id: self.device_id@,
            request: json_of(self.request),
            timeout_seconds: self.timeout_seconds,
        }
    }
}

/// What a tool asks of a session, or its answer where the parameters will not do.
pub open spec fn call_told(r: Result<SessionCall, ToolResult>) -> Result<CallView, ToolView> {
    match r {
        Ok(call) => Ok(call@),
        Err(result) => Err(result@),
    }
}

/// A request to run a command.
pub open spec fn command_request(command: Seq<char>, timeout_seconds: u64) -> Json {
    with(
        with(no_members(), "command"@, Json::Text(command)),
        "timeout_seconds"@,
        Json::Number(Some(timeout_seconds as int)),
    )
}

/// What the tool that runs a command asks of a session.
pub open spec fn command_call(params: RunCommandParams) -> Result<CallView, ToolView> {
    let timeout = match params.timeout_seconds {
        Some(seconds) => seconds,
        None => DEFAULT_EXEC_TIMEOUT_SECONDS,
    };
    if !all_digits(params.device_id@) {
        Err(tool_error_view("validate_device"@, "device_id must contain ASCII digits only"@))
    } else if all_blank(params.command@) {
        Err(tool_error_view("validate_command"@, "command cannot be empty"@))
    } else if timeout == 0 || timeout > MAX_EXEC_TIMEOUT_SECONDS {
        Err(
            tool_error_view(
                "validate_timeout"@,
                "timeout_seconds must be between 1 and "@ + decimal(MAX_EXEC_TIMEOUT_SECONDS as nat),
            ),
        )
    } else {
        Ok(
            CallView {
                channel: SessionChannel::Terminal,
                device_id: params.device_id@,
                request: command_request(params.command@, timeout),
                timeout_seconds: Some((timeout + EXEC_GRACE_SECONDS) as u64),
            },
        )
    }
}

/// An error about parameters, in words that are known to be short.
fn short_error(stage: &str, message: String) -> (result: ToolResult)
    requires
        message@.len() <= 4096,
    ensures
        result@ == tool_error_view(stage@, message@),
{
    proof {
        lemma_encode_length(message@);
    }
    tool_error(stage, message)
}

/// Checks the parameters of the tool that runs a command, and says what it asks of a session.
pub fn run_command(params: RunCommandParams) -> (r: Result<SessionCall, ToolResult>)
    ensures
        call_told(r) == command_call(params),
        r matches Ok(call) ==> {
            let seconds = match params.timeout_seconds {
                Some(seconds) => seconds as int,
                None => 60,
            };
            &&& call.channel is Terminal && call.device_id@ == params.device_id@
            &&& text_at(json_of(call.request), "command"@) == Some(params.command@)
            &&& count_at(json_of(call.request), "timeout_seconds"@) == Some(seconds)
            &&& call.timeout_seconds matches Some(wait) && wait == seconds + 15
        },
{
    proof {
        reveal_strlit("device_id must contain ASCII digits only");
        reveal_strlit("command cannot be empty");
        reveal_strlit("timeout_seconds must be between 1 and ");
        reveal_with_fuel(decimal, 4);
        lemma_keys();
    }
    if let Err(error) = validate_device_id(params.device_id.as_str()) {
        return Err(short_error("validate_device", error));
    }
    if is_blank(params.command.as_str()) {
        return Err(short_error("validate_command", "command cannot be empty".to_owned()));
    }
    let timeout: u64 = match params.timeout_seconds {
        Some(seconds) => seconds,
        None => DEFAULT_EXEC_TIMEOUT_SECONDS,
    };
    if timeout == 0 || timeout > MAX_EXEC_TIMEOUT_SECONDS {
        let message = joined(
            "timeout_seconds must be between 1 and ",
            number_text(MAX_EXEC_TIMEOUT_SECONDS).as_str(),
        );
        return Err(short_error("validate_timeout", message));
    }
    let mut request = object();
    set_text(&mut request, "command", params.command.as_str());
    set_count(&mut request, "timeout_seconds", timeout);
    Ok(
        SessionCall {
            channel: SessionChannel::Terminal,
            device_id: params.device_id,
            request,
            timeout_seconds: Some(timeout + EXEC_GRACE_SECONDS),
        },
    )
}

/// A response that reports success.
pub open spec fn is_ok(json: Json) -> bool {
    flag_at(json, "ok"@) == Some(true)
}

/// The answer of the tool that runs a command: the response, an error unless it reports success.
pub open spec fn command_answer(response: Result<Json, Seq<char>>) -> Option<ToolView> {
    match response {
        Ok(json) => Some(ToolView { is_error: !is_ok(json), json }),
        Err(error) => checked_session_error("terminal_session"@, error),
    }
}

/// The answer of the tool that runs a command. There is none where an error cannot be cut at the limit.
pub fn run_command_answer(response: Result<serde_json::Value, String>) -> (result: Option<ToolResult>)
    ensures
        answer_in(result) == command_answer(parse_told(response)),
{
    match response {
        Ok(value) => Some(ToolResult { is_error: !flag_is_set(&value, "ok"), value }),
        Err(error) => try_session_error("terminal_session", error),
    }
}

// ---------------------------------------------------------------------------
// Files
// ---------------------------------------------------------------------------

/// A request to move a file.
pub open spec fn file_request(operation: Seq<char>, local_path: Seq<char>, remote_path: Seq<char>) -> Json {
    with(
        with(
            with(no_members(), "operation"@, Json::Text(operation)),
            "local_path"@,
            Json::Text(local_path),
        ),
        "remote_path"@,
        Json::Text(remote_path),
    )
}

fn make_file_call(device_id: String, operation: &str, local_path: &str, remote_path: &str) -> (call: SessionCall)
    ensures
        call@ == (CallView {
            channel: SessionChannel::File,
            device_id: device_id@,
            request: file_request(operation@, local_path@, remote_path@),
            timeout_seconds: None,
        }),
{
    let mut request = object();
    set_text(&mut request, "operation", operation);
    set_text(&mut request, "local_path", local_path);
    set_text(&mut request, "remote_path", remote_path);
    SessionCall { channel: SessionChannel::File, device_id, request, timeout_seconds: None }
}

/// What the tool that uploads a file asks of a session, once the local file has been read.
pub open spec fn upload_call(params: UploadFileParams) -> Result<CallView, ToolView> {
    if !all_digits(params.device_id@) {
        Err(tool_error_view("validate_device"@, "device_id must contain ASCII digits only"@))
    } else if params.remote_path@.len() == 0 {
        Err(tool_error_view("validate_remote_path"@, "remote_path cannot be empty"@))
    } else {
        Ok(
            CallView {
                channel: SessionChannel::File,
                device_id: params.device_id@,
                request: file_request("push"@, params.local_path@, params.remote_path@),
                timeout_seconds: None,
            },
        )
    }
}

/// Checks the parameters of the tool that uploads a file, and says what it asks of a session. There is no
/// limit to the time that a transfer takes.
pub fn upload_file(params: UploadFileParams) -> (r: Result<SessionCall, ToolResult>)
    ensures
        call_told(r) == upload_call(params),
        r matches Ok(call) ==> {
            &&& call.channel is File && call.device_id@ == params.device_id@ && call.timeout_seconds is None
            &&& text_at(json_of(call.request), "operation"@) == Some("push"@)
            &&& text_at(json_of(call.request), "local_path"@) == Some(params.local_path@)
            &&& text_at(json_of(call.request), "remote_path"@) == Some(params.remote_path@)
        },
{
    proof {
        lemma_keys();
        reveal_strlit("device_id must contain ASCII digits only");
        reveal_strlit("remote_path cannot be empty");
    }
    if let Err(error) = validate_device_id(params.device_id.as_str()) {
        return Err(short_error("validate_device", error));
    }
    if params.remote_path.as_str().is_empty() {
        return Err(short_error("validate_remote_path", "remote_path cannot be empty".to_owned()));
    }
    Ok(make_file_call(params.device_id, "push", params.local_path.as_str(), params.remote_path.as_str()))
}

/// What the tool that downloads a file asks of a session.
pub open spec fn download_call(params: DownloadFileParams) -> Result<CallView, ToolView> {
    if !all_digits(params.device_id@) {
        Err(tool_error_view("validate_device"@, "device_id must contain ASCII digits only"@))
    } else if params.remote_path@.len() == 0 {
        Err(tool_error_view("validate_remote_path"@, "remote_path cannot be empty"@))
    } else if params.local_path@.len() == 0 {
        Err(tool_error_view("validate_local_path"@, "local_path cannot be empty"@))
    } else {
        Ok(
            CallView {
                channel: SessionChannel::File,
                device_id: params.device_id@,
                request: file_request("pull"@, params.local_path@, params.remote_path@),
                timeout_seconds: None,
            },
        )
    }
}

/// Checks the parameters of the tool that downloads a file, and says what it asks of a session.
pub fn download_file(params: DownloadFileParams) -> (r: Result<SessionCall, ToolResult>)
    ensures
        call_told(r) == download_call(params),
        r matches Ok(call) ==> {
            &&& call.channel is File && call.device_id@ == params.device_id@ && call.timeout_seconds is None
            &&& text_at(json_of(call.request), "operation"@) == Some("pull"@)
            &&& text_at(json_of(call.request), "local_path"@) == Some(params.local_path@)
            &&& text_at(json_of(call.request), "remote_path"@) == Some(params.remote_path@)
        },
{
    proof {
        lemma_keys();
        reveal_strlit("device_id must contain ASCII digits only");
        reveal_strlit("remote_path cannot be empty");
        reveal_strlit("local_path cannot be empty");
    }
    if let Err(error) = validate_device_id(params.device_id.as_str()) {
        return Err(short_error("validate_device", error));
    }
    if params.remote_path.as_str().is_empty() {
        return Err(short_error("validate_remote_path", "remote_path cannot be empty".to_owned()));
    }
    if params.local_path.as_str().is_empty() {
        return Err(short_error("validate_local_path", "local_path cannot be empty".to_owned()));
    }
    Ok(make_file_call(params.device_id, "pull", params.local_path.as_str(), params.remote_path.as_str()))
}

/// Why a local file has no fingerprint.
pub enum FingerprintFault {
    /// Nothing is known of it.
    Metadata(String),
    NotAFile,
    Open(String),
    Read(String),
}

/// Why a local file has no fingerprint, in words.
pub open spec fn fingerprint_text(path: Seq<char>, fault: FingerprintFault) -> Seq<char> {
    match fault {
        FingerprintFault::Metadata(error) => "cannot read "@ + path + ": "@ + error@,
        FingerprintFault::NotAFile => "not a regular file: "@ + path,
        FingerprintFault::Open(error) => "cannot open "@ + path + ": "@ + error@,
        FingerprintFault::Read(error) => "cannot hash "@ + path + ": "@ + error@,
    }
}

/// Why a local file has no fingerprint, in words.
pub fn fingerprint_error(path: &str, fault: &FingerprintFault) -> (text: String)
    ensures
        text@ == fingerprint_text(path@, *fault),
{
    match fault {
        FingerprintFault::Metadata(error) => joined4("cannot read ", path, ": ", error.as_str()),
        FingerprintFault::NotAFile => joined("not a regular file: ", path),
        FingerprintFault::Open(error) => joined4("cannot open ", path, ": ", error.as_str()),
        FingerprintFault::Read(error) => joined4("cannot hash ", path, ": ", error.as_str()),
    }
}

/// A fingerprint as a value.
pub open spec fn fingerprint_told(fingerprint: Result<(u64, String), String>) -> Result<(u64, Seq<char>), Seq<char>> {
    match fingerprint {
        Ok((bytes, sha256)) => Ok((bytes, sha256@)),
        Err(e) => Err(e@),
    }
}

/// What the tool that uploads a file does once it has looked at the local file.
pub enum UploadStep {
    /// This is the answer. There is none where an error cannot be cut at the limit.
    Answer(Option<ToolResult>),
    /// Ask the session, and keep the size and the digest of the local file for the answer.
    Send { call: SessionCall, bytes: u64, sha256: String },
}

/// What the tool that uploads a file does once it has looked at the local file, as a value.
pub enum UploadStepView {
    Answer(Option<ToolView>),
    Send { call: CallView, bytes: u64, sha256: Seq<char> },
}

impl View for UploadStep {
    type V = UploadStepView;

    open spec fn view(&self) -> UploadStepView {
        match self {
            UploadStep::Answer(answer) => UploadStepView::Answer(answer_in(*answer)),
            UploadStep::Send { call, bytes, sha256 } => UploadStepView::Send {
                call: call@,
                bytes: *bytes,
                sha256: sha256@,
            },
        }
    }
}

/// What the tool that uploads a file does once it has looked at the local file: without a fingerprint of it
/// nothing is asked of a session.
pub open spec fn upload_step(call: CallView, fingerprint: Result<(u64, Seq<char>), Seq<char>>) -> UploadStepView {
    match fingerprint {
        Ok((bytes, sha256)) => UploadStepView::Send { call, bytes, sha256 },
        Err(error) => UploadStepView::Answer(checked_tool_error("validate_local_file"@, error)),
    }
}

/// What the tool that uploads a file does once it has looked at the local file.
pub fn upload_source(call: SessionCall, fingerprint: Result<(u64, String), String>) -> (step: UploadStep)
    ensures
        step@ == upload_step(call@, fingerprint_told(fingerprint)),
{
    match fingerprint {
        Ok((bytes, sha256)) => UploadStep::Send { call, bytes, sha256 },
        Err(error) => UploadStep::Answer(try_tool_error("validate_local_file", error)),
    }
}

/// A response with the fingerprint of the local file.
pub open spec fn fingerprinted(json: Json, bytes: u64, sha256: Seq<char>, stage: Seq<char>) -> Json {
    with(
        with(with(json, "bytes"@, Json::Number(Some(bytes as int))), "sha256"@, Json::Text(sha256)),
        "stage"@,
        Json::Text(stage),
    )
}

fn add_fingerprint(value: serde_json::Value, bytes: u64, sha256: &str, stage: &str) -> (r: serde_json::Value)
    ensures
        json_of(r) == fingerprinted(json_of(value), bytes, sha256@, stage@),
{
    let mut value = value;
    set_count(&mut value, "bytes", bytes);
    set_text(&mut value, "sha256", sha256);
    set_text(&mut value, "stage", stage);
    value
}

/// The answer of the tool that uploads a file: the response, and where it reports success the size and the
/// digest of the local file.
pub open spec fn upload_outcome(response: Result<Json, Seq<char>>, bytes: u64, sha256: Seq<char>) -> Option<ToolView> {
    match response {
        Err(error) => checked_session_error("file_session"@, error),
        Ok(json) => if is_ok(json) {
            Some(ToolView { is_error: false, json: fingerprinted(json, bytes, sha256, "remote_done"@) })
        } else {
            Some(ToolView { is_error: true, json })
        },
    }
}

/// The answer of the tool that uploads a file. `bytes` and `sha256` are those of the local file before the
/// upload. There is no answer where an error cannot be cut at the limit.
pub fn upload_answer(response: Result<serde_json::Value, String>, bytes: u64, sha256: &str) -> (result: Option<
    ToolResult,
>)
    ensures
        answer_in(result) == upload_outcome(parse_told(response), bytes, sha256@),
{
    match response {
        Err(error) => try_session_error("file_session", error),
        Ok(value) => {
            if flag_is_set(&value, "ok") {
                Some(
                    ToolResult { is_error: false, value: add_fingerprint(value, bytes, sha256, "remote_done") },
                )
            } else {
                Some(ToolResult { is_error: true, value })
            }
        },
    }
}

/// What the tool that downloads a file does with a response.
pub enum DownloadStep {
    /// This is the answer. There is none where an error cannot be cut at the limit.
    Answer(Option<ToolResult>),
    /// Read the local file, and add its fingerprint to the response.
    Verify(serde_json::Value),
}

/// What the tool that downloads a file does with a response, as a value.
pub enum DownloadStepView {
    Answer(Option<ToolView>),
    Verify(Json),
}

impl View for DownloadStep {
    type V = DownloadStepView;

    open spec fn view(&self) -> DownloadStepView {
        match self {
            DownloadStep::Answer(answer) => DownloadStepView::Answer(answer_in(*answer)),
            DownloadStep::Verify(value) => DownloadStepView::Verify(json_of(*value)),
        }
    }
}

/// What the tool that downloads a file does with a response.
pub open spec fn download_step(response: Result<Json, Seq<char>>) -> DownloadStepView {
    match response {
        Err(error) => DownloadStepView::Answer(checked_session_error("file_session"@, error)),
        Ok(json) => if is_ok(json) {
            DownloadStepView::Verify(json)
        } else {
            DownloadStepView::Answer(Some(ToolView { is_error: true, json }))
        },
    }
}

/// What the tool that downloads a file does with a response: one that reports success is checked against
/// the local file.
pub fn download_response(response: Result<serde_json::Value, String>) -> (step: DownloadStep)
    ensures
        step@ == download_step(parse_told(response)),
{
    match response {
        Err(error) => DownloadStep::Answer(try_session_error("file_session", error)),
        Ok(value) => {
            if flag_is_set(&value, "ok") {
                DownloadStep::Verify(value)
            } else {
                DownloadStep::Answer(Some(ToolResult { is_error: true, value }))
            }
        },
    }
}

/// The answer of the tool that downloads a file, once the local file has been read.
pub open spec fn download_answer_view(
    json: Json,
    fingerprint: Result<(u64, Seq<char>), Seq<char>>,
) -> Option<ToolView> {
    match fingerprint {
        Ok((bytes, sha256)) => Some(
            ToolView { is_error: false, json: fingerprinted(json, bytes, sha256, "local_verified"@) },
        ),
        Err(error) => checked_tool_error("verify_local_file"@, error),
    }
}

/// The answer of the tool that downloads a file, once the local file has been read.
pub fn download_answer(value: serde_json::Value, fingerprint: Result<(u64, String), String>) -> (result: Option<
    ToolResult,
>)
    ensures
        answer_in(result) == download_answer_view(json_of(value), fingerprint_told(fingerprint)),
{
    match fingerprint {
        Ok((bytes, sha256)) => Some(
            ToolResult {
                is_error: false,
                value: add_fingerprint(value, bytes, sha256.as_str(), "local_verified"),
            },
        ),
        Err(error) => try_tool_error("verify_local_file", error),
    }
}

/// Checks that the wrapper script is a file.
pub fn check_wrapper(is_file: bool, path: &str) -> (r: Result<(), String>)
    ensures
        is_file ==> r is Ok,
        !is_file ==> told(r) == Err::<(), Seq<char>>("RustShell wrapper is not a file: "@ + path@),
{
    if is_file {
        Ok(())
    } else {
        Err(joined("RustShell wrapper is not a file: ", path))
    }
}

// ---------------------------------------------------------------------------
// Laws
// ---------------------------------------------------------------------------

/// The request that a tool makes is one that the session accepts, as far as what the tool can check: a
/// command that the tool passes on is not blank and has between 1 and 300 seconds, and the tool waits longer
/// than the command may take.
pub proof fn law_commands_are_checked(params: RunCommandParams)
    ensures
        command_call(params) matches Ok(call) ==> all_digits(call.device_id) && call.channel is Terminal
            && !all_blank(params.command@) && (call.timeout_seconds matches Some(wait) && EXEC_GRACE_SECONDS < wait
            <= MAX_EXEC_TIMEOUT_SECONDS + EXEC_GRACE_SECONDS && call.request == command_request(
            params.command@,
            (wait - EXEC_GRACE_SECONDS) as u64,
        )),
{
}

/// A session error says that nothing was tried again and that the next call starts a new session.
pub proof fn law_session_errors_reconnect(stage: Seq<char>, message: Seq<char>)
    ensures
        crate::resume::requires_reconnect(session_error_view(stage, message).json),
        flag_at(session_error_view(stage, message).json, "replayed"@) == Some(false),
        flag_at(session_error_view(stage, message).json, "ok"@) == Some(false),
{
    reveal_strlit("ok");
    reveal_strlit("stage");
    reveal_strlit("error");
    reveal_strlit("replayed");
    reveal_strlit("reconnect_on_next_call");
    assert("ok"@.len() == 2 && "stage"@.len() == 5 && "error"@.len() == 5 && "replayed"@.len() == 8);
    assert("reconnect_on_next_call"@.len() == 22);
}

proof fn lemma_encode_length(s: Seq<char>)
    ensures
        encode_utf8(s).len() <= 4 * s.len(),
    decreases s.len(),
{
    if s.len() > 0 {
        lemma_encode_length(s.drop_first());
    }
}

/// Nothing is asked of a session for an upload whose local file has no fingerprint, whatever the parameters
/// are. What is asked otherwise is what the parameters say, and the answer to a successful response carries
/// the size and the digest that the local file had before.
pub proof fn law_uploads_are_fingerprinted_first(
    params: UploadFileParams,
    fingerprint: Result<(u64, Seq<char>), Seq<char>>,
    response: Json,
)
    requires
        upload_call(params) is Ok,
    ensures
        upload_step(upload_call(params)->Ok_0, fingerprint) is Send <==> fingerprint is Ok,
        fingerprint matches Err(error) ==> upload_step(upload_call(params)->Ok_0, fingerprint)
            == UploadStepView::Answer(checked_tool_error("validate_local_file"@, error)),
        upload_step(upload_call(params)->Ok_0, fingerprint) matches UploadStepView::Send { call, bytes, sha256 } ==> {
            &&& call == upload_call(params)->Ok_0
            &&& fingerprint == Ok::<(u64, Seq<char>), Seq<char>>((bytes, sha256))
            &&& is_ok(response) ==> {
                &&& upload_outcome(Ok(response), bytes, sha256) is Some
                &&& !upload_outcome(Ok(response), bytes, sha256)->Some_0.is_error
                &&& count_at(upload_outcome(Ok(response), bytes, sha256)->Some_0.json, "bytes"@) == Some(bytes as int)
                &&& text_at(upload_outcome(Ok(response), bytes, sha256)->Some_0.json, "sha256"@) == Some(sha256)
            }
        },
{
    reveal_strlit("bytes");
    reveal_strlit("sha256");
    reveal_strlit("stage");
    assert("bytes"@.len() == 5 && "stage"@.len() == 5 && "sha256"@.len() == 6);
    assert("bytes"@[0] != "stage"@[0]);
}

/// Parameters that are accepted become a request for exactly that command on exactly that device, with exactly
/// the time that they give, or 60 seconds where they give none; the session is waited for 15 seconds longer. They
/// are accepted exactly where the device is a number, the command is not blank and the time lies between 1 and
/// 300 seconds; else the stage tells which of these does not hold.
pub proof fn law_commands_are_asked_for_as_given(params: RunCommandParams)
    ensures
        ({
            let seconds = match params.timeout_seconds {
                Some(seconds) => seconds as int,
                None => 60,
            };
            let blank = forall|i: int| 0 <= i < params.command@.len() ==> is_space(#[trigger] params.command@[i]);
            let accepted = is_number(params.device_id@) && !blank && 1 <= seconds <= 300;
            &&& accepted <==> command_call(params) is Ok
            &&& command_call(params) matches Ok(call) ==> {
                &&& call.channel is Terminal
                &&& call.device_id == params.device_id@
                &&& text_at(call.request, "command"@) == Some(params.command@)
                &&& count_at(call.request, "timeout_seconds"@) == Some(seconds)
                &&& call.timeout_seconds matches Some(wait) && wait == seconds + 15
            }
            &&& command_call(params) matches Err(answer) ==> answer.is_error && text_at(answer.json, "stage"@) == Some(
                if !is_number(params.device_id@) {
                    "validate_device"@
                } else if blank {
                    "validate_command"@
                } else {
                    "validate_timeout"@
                },
            ) && flag_at(answer.json, "ok"@) == Some(false)
        }),
{
    lemma_keys();
    assert(is_number(params.device_id@) == all_digits(params.device_id@));
}

/// A device is named by digits, at least one.
pub open spec fn is_number(id: Seq<char>) -> bool {
    id.len() > 0 && forall|i: int| 0 <= i < id.len() ==> '0' <= #[trigger] id[i] <= '9'
}

/// An upload that is accepted is asked for as it was given: a push of exactly the local file to exactly the
/// remote path, on exactly the device, over its file session and without a limit of time. It is accepted exactly
/// where the device is a number and the remote path is not empty.
pub proof fn law_uploads_are_asked_for_as_given(params: UploadFileParams)
    ensures
        upload_call(params) is Ok <==> is_number(params.device_id@) && params.remote_path@.len() > 0,
        upload_call(params) matches Ok(call) ==> {
            &&& call.channel is File
            &&& call.device_id == params.device_id@
            &&& call.timeout_seconds is None
            &&& text_at(call.request, "operation"@) == Some("push"@)
            &&& text_at(call.request, "local_path"@) == Some(params.local_path@)
            &&& text_at(call.request, "remote_path"@) == Some(params.remote_path@)
        },
        upload_call(params) matches Err(answer) ==> answer.is_error && text_at(answer.json, "stage"@) == Some(
            if !is_number(params.device_id@) {
                "validate_device"@
            } else {
                "validate_remote_path"@
            },
        ) && flag_at(answer.json, "ok"@) == Some(false),
{
    lemma_keys();
    assert(is_number(params.device_id@) == all_digits(params.device_id@));
}

/// A download that is accepted is asked for as it was given: a pull of exactly the remote file to exactly the
/// local path, on exactly the device, over its file session and without a limit of time. It is accepted exactly
/// where the device is a number and neither path is empty.
pub proof fn law_downloads_are_asked_for_as_given(params: DownloadFileParams)
    ensures
        download_call(params) is Ok <==> is_number(params.device_id@) && params.remote_path@.len() > 0
            && params.local_path@.len() > 0,
        download_call(params) matches Ok(call) ==> {
            &&& call.channel is File
            &&& call.device_id == params.device_id@
            &&& call.timeout_seconds is None
            &&& text_at(call.request, "operation"@) == Some("pull"@)
            &&& text_at(call.request, "local_path"@) == Some(params.local_path@)
            &&& text_at(call.request, "remote_path"@) == Some(params.remote_path@)
        },
        download_call(params) matches Err(answer) ==> answer.is_error && text_at(answer.json, "stage"@) == Some(
            if !is_number(params.device_id@) {
                "validate_device"@
            } else if params.remote_path@.len() == 0 {
                "validate_remote_path"@
            } else {
                "validate_local_path"@
            },
        ) && flag_at(answer.json, "ok"@) == Some(false),
{
    lemma_keys();
    assert(is_number(params.device_id@) == all_digits(params.device_id@));
}

/// A response is passed on: the tool that runs a command answers with the whole of it, as an error exactly where
/// it does not report success. An error of the session is told in its own words, and that the next call starts a
/// new session.
pub proof fn law_command_results_are_passed_on(json: Json, error: Seq<char>)
    ensures
        command_answer(Ok(json)) == Some(ToolView { is_error: flag_at(json, "ok"@) != Some(true), json }),
        encode_utf8(error).len() <= 16384 ==> (command_answer(Err(error)) matches Some(answer) && answer.is_error
            && text_at(answer.json, "error"@) == Some(error) && text_at(answer.json, "stage"@) == Some(
            "terminal_session"@,
        ) && flag_at(answer.json, "ok"@) == Some(false) && flag_at(answer.json, "reconnect_on_next_call"@) == Some(true)
            && flag_at(answer.json, "replayed"@) == Some(false)),
{
    lemma_keys();
}

/// A response that reports a successful transfer is passed on with the size and the digest of the local file, and
/// with the stage that the tool has reached; every other member stays. One that does not is passed on as it is,
/// as an error, and so is an error of the session, in its own words.
pub proof fn law_transfer_results_are_passed_on(
    members: Map<Seq<char>, Json>,
    bytes: u64,
    sha256: Seq<char>,
    error: Seq<char>,
    key: Seq<char>,
)
    ensures
        ({
            let json = Json::Object(members);
            let success = flag_at(json, "ok"@) == Some(true);
            let told = |answer: Option<ToolView>, stage: Seq<char>|
                answer matches Some(view) && !view.is_error && count_at(view.json, "bytes"@) == Some(bytes as int)
                    && text_at(view.json, "sha256"@) == Some(sha256) && text_at(view.json, "stage"@) == Some(stage)
                    && (key != "bytes"@ && key != "sha256"@ && key != "stage"@ ==> member(view.json, key) == member(
                    json,
                    key,
                ));
            &&& success ==> told(upload_outcome(Ok(json), bytes, sha256), "remote_done"@)
            &&& success ==> download_step(Ok(json)) == DownloadStepView::Verify(json)
            &&& told(download_answer_view(json, Ok((bytes, sha256))), "local_verified"@)
            &&& !success ==> upload_outcome(Ok(json), bytes, sha256) == Some(ToolView { is_error: true, json })
            &&& !success ==> download_step(Ok(json)) == DownloadStepView::Answer(
                Some(ToolView { is_error: true, json }),
            )
        }),
        encode_utf8(error).len() <= 16384 ==> ({
            let lost = |answer: Option<ToolView>, stage: Seq<char>|
                answer matches Some(view) && view.is_error && text_at(view.json, "error"@) == Some(error) && text_at(
                    view.json,
                    "stage"@,
                ) == Some(stage) && flag_at(view.json, "ok"@) == Some(false);
            &&& lost(upload_outcome(Err(error), bytes, sha256), "file_session"@)
            &&& download_step(Err(error)) matches DownloadStepView::Answer(answer) && lost(answer, "file_session"@)
            &&& lost(download_answer_view(Json::Object(members), Err(error)), "verify_local_file"@)
            &&& upload_outcome(Err(error), bytes, sha256) matches Some(view) && flag_at(
                view.json,
                "reconnect_on_next_call"@,
            ) == Some(true)
        }),
{
    lemma_keys();
}

/// An upload whose local file cannot be read is refused in the words of the reason, before any session is asked.
pub proof fn law_unreadable_uploads_are_refused(call: CallView, error: Seq<char>)
    ensures
        encode_utf8(error).len() <= 16384 ==> (upload_step(call, Err(error)) matches UploadStepView::Answer(Some(view))
            && view.is_error && text_at(view.json, "stage"@) == Some("validate_local_file"@) && text_at(
            view.json,
            "error"@,
        ) == Some(error) && flag_at(view.json, "ok"@) == Some(false)),
{
    lemma_keys();
}

/// The list of devices is what the wrapper script printed: a list is passed on as it is, with the time at which it
/// was asked for, whatever blanks stand around it. A script that failed is told in its own words, one that
/// printed no list is an error.
pub proof fn law_devices_are_passed_on(
    before: Seq<char>,
    text: Seq<char>,
    after: Seq<char>,
    stderr: Seq<char>,
    now_millis: u64,
)
    requires
        text.len() > 0,
        !is_space(text[0]) && !is_space(text.last()),
        forall|i: int| 0 <= i < before.len() ==> is_space(#[trigger] before[i]),
        forall|i: int| 0 <= i < after.len() ==> is_space(#[trigger] after[i]),
    ensures
        ({
            let answer = list_answer(Ok((true, before + text + after, stderr)), now_millis);
            &&& json_parsed(text) matches Ok(json) ==> if json is List {
                answer matches Some(view) && !view.is_error && member(view.json, "devices"@) == Some(json) && flag_at(
                    view.json,
                    "ok"@,
                ) == Some(true) && flag_at(view.json, "fresh"@) == Some(true) && count_at(
                    view.json,
                    "queried_at_unix_ms"@,
                ) == Some(now_millis as int)
            } else {
                answer matches Some(view) ==> view.is_error
            }
            &&& json_parsed(text) is Err ==> (answer matches Some(view) ==> view.is_error)
        }),
        encode_utf8(stderr).len() <= 16384 ==> ({
            let failed = |answer: Option<ToolView>|
                answer matches Some(view) && view.is_error && text_at(view.json, "stage"@) == Some("devices"@)
                    && text_at(view.json, "error"@) == Some(stderr) && flag_at(view.json, "ok"@) == Some(false);
            &&& failed(list_answer(Ok((false, before + text + after, stderr)), now_millis))
            &&& failed(list_answer(Err(stderr), now_millis))
        }),
{
    lemma_keys();
    lemma_trimmed_between(before, text, after);
}

/// A run of the wrapper script tells whether it succeeded, all that it printed, and what it complained of; one
/// that could not be started, took too long or was lost is an error.
pub proof fn law_wrapper_runs_are_told(run: WrapperRun)
    ensures
        match run {
            WrapperRun::Done { success, stdout, stderr } => encode_utf8(lossy(stderr@)).len() <= 16384
                ==> wrapper_outcome(run) == Some(
                Ok::<(bool, Seq<char>, Seq<char>), Seq<char>>((success, lossy(stdout@), lossy(stderr@))),
            ),
            _ => wrapper_outcome(run) matches Some(Err(_)),
        },
{
}

/// Why a file has no fingerprint is told with its path and, where there are any, the words of the system.
pub proof fn law_fingerprint_faults_are_told(path: Seq<char>, words: String)
    ensures
        fingerprint_text(path, FingerprintFault::Metadata(words)) == "cannot read "@ + path + ": "@ + words@,
        fingerprint_text(path, FingerprintFault::NotAFile) == "not a regular file: "@ + path,
        fingerprint_text(path, FingerprintFault::Open(words)) == "cannot open "@ + path + ": "@ + words@,
        fingerprint_text(path, FingerprintFault::Read(words)) == "cannot hash "@ + path + ": "@ + words@,
{
}

/// A tool's error is one that says where it arose and why, in words that are cut where they are too long.
pub proof fn law_tool_errors_say_where_and_why(stage: Seq<char>, message: Seq<char>)
    ensures
        ({
            let answer = tool_error_view(stage, message);
            &&& answer.is_error
            &&& flag_at(answer.json, "ok"@) == Some(false)
            &&& text_at(answer.json, "stage"@) == Some(stage)
            &&& text_at(answer.json, "error"@) == Some(truncated(message))
        }),
        can_truncate(message) ==> checked_tool_error(stage, message) == Some(tool_error_view(stage, message))
            && checked_session_error(stage, message) == Some(session_error_view(stage, message)),
        !can_truncate(message) ==> checked_tool_error(stage, message) is None,
        !can_truncate(message) ==> checked_session_error(stage, message) is None,
{
    lemma_keys();
}

/// What the tools ask and answer is seen as what it is.
pub proof fn law_tools_are_seen_as_they_are(
    call: SessionCall,
    result: ToolResult,
    value: serde_json::Value,
    bytes: u64,
    words: String,
    output: ProcessOutput,
)
    ensures
        call@.channel == call.channel && call@.device_id == call.device_id@ && call@.request == json_of(call.request)
            && call@.timeout_seconds == call.timeout_seconds,
        result@.is_error == result.is_error && result@.json == json_of(result.value),
        answer_in(Some(result)) == Some(result@) && answer_in(None) is None,
        call_told(Ok(call)) == Ok::<CallView, ToolView>(call@),
        call_told(Err(result)) == Err::<CallView, ToolView>(result@),
        UploadStep::Answer(Some(result))@ == UploadStepView::Answer(Some(result@)),
        (UploadStep::Send { call, bytes, sha256: words })@ == (UploadStepView::Send {
            call: call@,
            bytes,
            sha256: words@,
        }),
        DownloadStep::Answer(Some(result))@ == DownloadStepView::Answer(Some(result@)),
        DownloadStep::Verify(value)@ == DownloadStepView::Verify(json_of(value)),
        parse_told(Ok(value)) == Ok::<Json, Seq<char>>(json_of(value)),
        parse_told(Err(words)) == Err::<Json, Seq<char>>(words@),
        fingerprint_told(Ok((bytes, words))) == Ok::<(u64, Seq<char>), Seq<char>>((bytes, words@)),
        fingerprint_told(Err(words)) == Err::<(u64, Seq<char>), Seq<char>>(words@),
        output_of(output) == (output.success, output.stdout@, output.stderr@),
        ran(Ok(output)) == Ok::<(bool, Seq<char>, Seq<char>), Seq<char>>((output.success, output.stdout@, output.stderr@)),
        ran(Err(words)) == Err::<(bool, Seq<char>, Seq<char>), Seq<char>>(words@),
        run_told(Some(Ok(output))) == Some(ran(Ok(output))) && run_told(Some(Err(words))) == Some(ran(Err(words)))
            && run_told(None) is None,
{
}

/// Parameters that will not do are answered with the one that is wrong and what is wrong with it: the first of them,
/// the device before anything else.
pub proof fn law_wrong_parameters_are_named(
    command: RunCommandParams,
    upload: UploadFileParams,
    download: DownloadFileParams,
)
    ensures
        ({
            let told = |r: Result<CallView, ToolView>, stage: Seq<char>, text: Seq<char>|
                r matches Err(answer) && answer.is_error && text_at(answer.json, "stage"@) == Some(stage) && text_at(
                    answer.json,
                    "error"@,
                ) == Some(truncated(text));
            let ran = command_call(command);
            let pushed = upload_call(upload);
            let pulled = download_call(download);
            let device = "device_id must contain ASCII digits only"@;
            let time = match command.timeout_seconds {
                Some(seconds) => seconds,
                None => 60,
            };
            &&& !all_digits(command.device_id@) ==> told(ran, "validate_device"@, device)
            &&& all_digits(command.device_id@) && all_blank(command.command@) ==> told(
                ran,
                "validate_command"@,
                "command cannot be empty"@,
            )
            &&& all_digits(command.device_id@) && !all_blank(command.command@) && !(1 <= time <= 300) ==> told(
                ran,
                "validate_timeout"@,
                "timeout_seconds must be between 1 and "@ + decimal(300),
            )
            &&& !all_digits(upload.device_id@) ==> told(pushed, "validate_device"@, device)
            &&& all_digits(upload.device_id@) && upload.remote_path@.len() == 0 ==> told(
                pushed,
                "validate_remote_path"@,
                "remote_path cannot be empty"@,
            )
            &&& !all_digits(download.device_id@) ==> told(pulled, "validate_device"@, device)
            &&& all_digits(download.device_id@) && download.remote_path@.len() == 0 ==> told(
                pulled,
                "validate_remote_path"@,
                "remote_path cannot be empty"@,
            )
            &&& all_digits(download.device_id@) && download.remote_path@.len() > 0 && download.local_path@.len() == 0
                ==> told(pulled, "validate_local_path"@, "local_path cannot be empty"@)
        }),
{
    lemma_keys();
}

/// A wrapper script that does not run to its end, and a list of devices that is none, are told for what they are.
pub proof fn law_wrapper_failures_say_what_went_wrong(words: String, seconds: u64, json: Json, now_millis: u64)
    ensures
        wrapper_outcome(WrapperRun::SpawnFailed(words)) == Some(
            Err::<(bool, Seq<char>, Seq<char>), Seq<char>>("failed to start RustShell wrapper: "@ + words@),
        ),
        wrapper_outcome(WrapperRun::WaitFailed(words)) == Some(
            Err::<(bool, Seq<char>, Seq<char>), Seq<char>>("failed while waiting for RustShell wrapper: "@ + words@),
        ),
        wrapper_outcome(WrapperRun::TimedOut(seconds)) == Some(
            Err::<(bool, Seq<char>, Seq<char>), Seq<char>>(
                "RustShell wrapper exceeded "@ + decimal(seconds as nat) + " seconds"@,
            ),
        ),
        devices_answer(Err(words@), now_millis) == checked_tool_error(
            "devices"@,
            "invalid device JSON from wrapper: "@ + words@,
        ),
        !(json is List) ==> devices_answer(Ok(json), now_millis) == checked_tool_error(
            "devices"@,
            "wrapper returned a non-array device list"@,
        ),
{
}

/// What the tools ask for and answer holds the members that it should, and no other.
pub proof fn law_requests_hold_nothing_else(
    command: RunCommandParams,
    upload: UploadFileParams,
    download: DownloadFileParams,
    stage: Seq<char>,
    message: Seq<char>,
    devices: Json,
    now_millis: u64,
    key: Seq<char>,
)
    ensures
        command_call(command) matches Ok(call) ==> (member(call.request, key) is Some <==> key == "command"@ || key
            == "timeout_seconds"@),
        upload_call(upload) matches Ok(call) ==> (member(call.request, key) is Some <==> key == "operation"@ || key
            == "local_path"@ || key == "remote_path"@),
        download_call(download) matches Ok(call) ==> (member(call.request, key) is Some <==> key == "operation"@ || key
            == "local_path"@ || key == "remote_path"@),
        member(tool_error_view(stage, message).json, key) is Some <==> key == "ok"@ || key == "stage"@ || key
            == "error"@,
        member(session_error_view(stage, message).json, key) is Some <==> key == "ok"@ || key == "stage"@ || key
            == "error"@ || key == "replayed"@ || key == "reconnect_on_next_call"@,
        member(devices_json(devices, now_millis), key) is Some <==> key == "ok"@ || key == "fresh"@ || key
            == "queried_at_unix_ms"@ || key == "devices"@,
{
}

}
