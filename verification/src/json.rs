//! JSON documents, held by the `serde_json` crate.

use vstd::prelude::*;
use vstd::string::*;
use vstd::utf8::*;

use crate::text::text_eq;

verus! {

/// A JSON document as a value.
pub enum Json {
    Null,
    Bool(bool),
    /// A number, and the integer that it is where it was written or made as one that fits in 64 bits.
    Number(Option<int>),
    Text(Seq<char>),
    List(Seq<Json>),
    Object(Map<Seq<char>, Json>),
}

/// The document type of `serde_json`.
#[verifier::external_type_specification]
#[verifier::external_body]
pub struct ExValue(serde_json::Value);

/// The document that a `serde_json::Value` holds.
pub uninterp spec fn json_of(value: serde_json::Value) -> Json;

/// What `serde_json` reads from a text: a document, or the words of its error.
pub uninterp spec fn json_parsed(text: Seq<char>) -> Result<Json, Seq<char>>;

/// The member of an object under a key.
pub open spec fn member(json: Json, key: Seq<char>) -> Option<Json> {
    match json {
        Json::Object(members) => if members.dom().contains(key) {
            Some(members[key])
        } else {
            None
        },
        _ => None,
    }
}

/// The text under a key.
pub open spec fn text_at(json: Json, key: Seq<char>) -> Option<Seq<char>> {
    match member(json, key) {
        Some(Json::Text(text)) => Some(text),
        _ => None,
    }
}

/// The truth value under a key.
pub open spec fn flag_at(json: Json, key: Seq<char>) -> Option<bool> {
    match member(json, key) {
        Some(Json::Bool(flag)) => Some(flag),
        _ => None,
    }
}

/// The natural number under a key.
pub open spec fn count_at(json: Json, key: Seq<char>) -> Option<int> {
    match member(json, key) {
        Some(Json::Number(Some(n))) => if n >= 0 {
            Some(n)
        } else {
            None
        },
        _ => None,
    }
}

/// An object with a member set; anything else stays what it is.
pub open spec fn with(json: Json, key: Seq<char>, item: Json) -> Json {
    match json {
        Json::Object(members) => Json::Object(members.insert(key, item)),
        _ => json,
    }
}

/// The object without members.
pub open spec fn no_members() -> Json {
    Json::Object(Map::empty())
}

/// Lists and objects stand in one another no more than `depth` deep.
pub open spec fn nests_within(json: Json, depth: nat) -> bool
    decreases depth,
{
    match json {
        Json::List(items) => depth > 0 && forall|i: int|
            0 <= i < items.len() ==> nests_within(#[trigger] items[i], (depth - 1) as nat),
        Json::Object(members) => depth > 0 && forall|key: Seq<char>| #[trigger]
            members.dom().contains(key) ==> nests_within(members[key], (depth - 1) as nat),
        _ => true,
    }
}

/// The document is not too deep to be read.
pub open spec fn is_readable(json: Json) -> bool {
    nests_within(json, 127)
}

/// An object whose members hold no further members is not too deep to be read.
pub proof fn law_flat_objects_are_readable(json: Json)
    requires
        json matches Json::Object(members) && forall|key: Seq<char>| #[trigger]
            members.dom().contains(key) ==> !(members[key] is List) && !(members[key] is Object),
    ensures
        is_readable(json),
{
    reveal_with_fuel(nests_within, 2);
}

/// `serde_json::Value::get` with a text index: the member under the key, if the document is an object that
/// has one.
#[verifier::external_body]
pub(crate) fn get<'a>(value: &'a serde_json::Value, key: &str) -> (item: Option<&'a serde_json::Value>)
    ensures
        member(json_of(*value), key@) == (match item {
            Some(v) => Some(json_of(*v)),
            None => None,
        }),
{
    value.get(key)
}

/// `serde_json::Value::as_str`: the text, if the document is one.
#[verifier::external_body]
pub(crate) fn as_text<'a>(value: &'a serde_json::Value) -> (text: Option<&'a str>)
    ensures
        match text {
            Some(s) => json_of(*value) == Json::Text(s@),
            None => !(json_of(*value) is Text),
        },
{
    value.as_str()
}

/// `serde_json::Value::as_bool`: the truth value, if the document is one.
#[verifier::external_body]
pub(crate) fn as_flag(value: &serde_json::Value) -> (flag: Option<bool>)
    ensures
        match flag {
            Some(b) => json_of(*value) == Json::Bool(b),
            None => !(json_of(*value) is Bool),
        },
{
    value.as_bool()
}

/// `serde_json::Value::as_u64`: the natural number, if the document is one that is held as an integer.
#[verifier::external_body]
pub(crate) fn as_count(value: &serde_json::Value) -> (count: Option<u64>)
    ensures
        match count {
            Some(n) => json_of(*value) == Json::Number(Some(n as int)),
            None => !(json_of(*value) matches Json::Number(Some(n)) && n >= 0),
        },
{
    value.as_u64()
}

/// `serde_json::Value::is_array`.
#[verifier::external_body]
pub(crate) fn is_list(value: &serde_json::Value) -> (r: bool)
    ensures
        r == (json_of(*value) is List),
{
    value.is_array()
}

/// `serde_json::Map::insert` on the members of an object, from `serde_json::Value::as_object_mut`: the
/// member is set. A document of another kind has no members and stays as it is.
#[verifier::external_body]
pub(crate) fn insert(value: &mut serde_json::Value, key: &str, item: serde_json::Value)
    ensures
        json_of(*final(value)) == with(json_of(*old(value)), key@, json_of(item)),
{
    if let Some(members) = value.as_object_mut() {
        members.insert(key.to_owned(), item);
    }
}

/// `serde_json::Map::new`, as a document.
#[verifier::external_body]
pub(crate) fn object() -> (value: serde_json::Value)
    ensures
        json_of(value) == no_members(),
{
    serde_json::Value::Object(serde_json::Map::new())
}

/// `serde_json::Value::from` a truth value.
#[verifier::external_body]
pub(crate) fn from_flag(flag: bool) -> (value: serde_json::Value)
    ensures
        json_of(value) == Json::Bool(flag),
{
    serde_json::Value::from(flag)
}

/// `serde_json::Value::from` a text.
#[verifier::external_body]
pub(crate) fn from_text(text: &str) -> (value: serde_json::Value)
    ensures
        json_of(value) == Json::Text(text@),
{
    serde_json::Value::from(text)
}

/// `serde_json::Value::from` a natural number.
#[verifier::external_body]
pub(crate) fn from_count(count: u64) -> (value: serde_json::Value)
    ensures
        json_of(value) == Json::Number(Some(count as int)),
{
    serde_json::Value::from(count)
}

/// `serde_json::Value::from` an integer.
#[verifier::external_body]
pub(crate) fn from_integer(n: i32) -> (value: serde_json::Value)
    ensures
        json_of(value) == Json::Number(Some(n as int)),
{
    serde_json::Value::from(n)
}

/// `serde_json::from_str` into a document: the document, or the words of the error, are a function of the
/// text.
#[verifier::external_body]
pub(crate) fn parse(text: &str) -> (value: Result<serde_json::Value, String>)
    ensures
        json_parsed(text@) == (match value {
            Ok(v) => Ok(json_of(v)),
            Err(e) => Err(e@),
        }),
{
    serde_json::from_str(text).map_err(|error: serde_json::Error| error.to_string())
}

/// The bytes are the text of a document that reads back as `json`.
pub open spec fn reads_back_as(bytes: Seq<u8>, json: Json) -> bool {
    json_parsed(decode_utf8(bytes)) == Ok::<Json, Seq<char>>(json)
}

/// No line feed among the bytes.
pub open spec fn one_line(bytes: Seq<u8>) -> bool {
    forall|i: int| 0 <= i < bytes.len() ==> #[trigger] bytes[i] != 10
}

/// `serde_json::to_vec` of a document, which does not fail: UTF-8 without a line feed, which reads back as
/// the document where that is not too deep: the reader stops where lists and objects stand 128 deep in one
/// another.
#[verifier::external_body]
pub(crate) fn encode(value: &serde_json::Value) -> (bytes: Result<Vec<u8>, String>)
    ensures
        bytes is Ok,
        bytes matches Ok(b) ==> valid_utf8(b@),
        bytes matches Ok(b) ==> one_line(b@),
        bytes matches Ok(b) ==> (is_readable(json_of(*value)) ==> reads_back_as(b@, json_of(*value))),
{
    serde_json::to_vec(value).map_err(|error| error.to_string())
}

/// The text under a key.
pub fn text_field(value: &serde_json::Value, key: &str) -> (text: Option<String>)
    ensures
        text_at(json_of(*value), key@) == (match text {
            Some(s) => Some(s@),
            None => None,
        }),
{
    match get(value, key) {
        Some(item) => match as_text(item) {
            Some(text) => Some(text.to_owned()),
            None => None,
        },
        None => None,
    }
}

/// The truth value under a key.
pub fn flag_field(value: &serde_json::Value, key: &str) -> (flag: Option<bool>)
    ensures
        flag_at(json_of(*value), key@) == flag,
{
    match get(value, key) {
        Some(item) => as_flag(item),
        None => None,
    }
}

/// The natural number under a key.
pub fn count_field(value: &serde_json::Value, key: &str) -> (count: Option<u64>)
    ensures
        count_at(json_of(*value), key@) == (match count {
            Some(n) => Some(n as int),
            None => None,
        }),
{
    match get(value, key) {
        Some(item) => as_count(item),
        None => None,
    }
}

/// Whether the text under a key is a given one.
pub fn text_is(value: &serde_json::Value, key: &str, text: &str) -> (r: bool)
    ensures
        r == (text_at(json_of(*value), key@) == Some(text@)),
{
    match get(value, key) {
        Some(item) => match as_text(item) {
            Some(found) => text_eq(found, text),
            None => false,
        },
        None => false,
    }
}

/// Whether the truth value under a key is true.
pub fn flag_is_set(value: &serde_json::Value, key: &str) -> (r: bool)
    ensures
        r == (flag_at(json_of(*value), key@) == Some(true)),
{
    match flag_field(value, key) {
        Some(flag) => flag,
        None => false,
    }
}

/// Sets the text under a key.
pub fn set_text(value: &mut serde_json::Value, key: &str, text: &str)
    ensures
        json_of(*final(value)) == with(json_of(*old(value)), key@, Json::Text(text@)),
{
    insert(value, key, from_text(text));
}

/// Sets the truth value under a key.
pub fn set_flag(value: &mut serde_json::Value, key: &str, flag: bool)
    ensures
        json_of(*final(value)) == with(json_of(*old(value)), key@, Json::Bool(flag)),
{
    insert(value, key, from_flag(flag));
}

/// Sets the number under a key.
pub fn set_count(value: &mut serde_json::Value, key: &str, count: u64)
    ensures
        json_of(*final(value)) == with(json_of(*old(value)), key@, Json::Number(Some(count as int))),
{
    insert(value, key, from_count(count));
}

/// A document as one line: its bytes, none of which is a line feed, and a line feed. One that is not too deep
/// reads back as itself.
pub fn json_line(value: &serde_json::Value) -> (line: Result<Vec<u8>, String>)
    ensures
        line is Ok,
        line matches Ok(bytes) ==> bytes@.len() > 0 && bytes@.last() == 10 && one_line(bytes@.drop_last())
            && valid_utf8(bytes@.drop_last()) && (is_readable(json_of(*value)) ==> reads_back_as(
            bytes@.drop_last(),
            json_of(*value),
        )),
{
    match encode(value) {
        Ok(bytes) => {
            let mut line = bytes;
            let ghost body = line@;
            line.push(10u8);
            assert(line@.drop_last() =~= body);
            Ok(line)
        },
        Err(e) => Err(e),
    }
}

/// The keys of the documents that are exchanged are all different.
pub(crate) proof fn lemma_keys()
    ensures
        "ok"@.len() == 2,
        "type"@.len() == 4,
        "stage"@.len() == 5,
        "error"@.len() == 5,
        "bytes"@.len() == 5,
        "fresh"@.len() == 5,
        "stdout"@.len() == 6,
        "stderr"@.len() == 6,
        "sha256"@.len() == 6,
        "channel"@.len() == 7,
        "command"@.len() == 7,
        "devices"@.len() == 7,
        "hostname"@.len() == 8,
        "platform"@.len() == 8,
        "protocol"@.len() == 8,
        "replayed"@.len() == 8,
        "device_id"@.len() == 9,
        "operation"@.len() == 9,
        "exit_code"@.len() == 9,
        "timed_out"@.len() == 9,
        "local_path"@.len() == 10,
        "remote_path"@.len() == 11,
        "duration_ms"@.len() == 11,
        "resumed_from"@.len() == 12,
        "attempt_bytes"@.len() == 13,
        "progress_bytes"@.len() == 14,
        "session_reused"@.len() == 14,
        "resume_stalled"@.len() == 14,
        "session_channel"@.len() == 15,
        "output_complete"@.len() == 15,
        "timeout_seconds"@.len() == 15,
        "resume_supported"@.len() == 16,
        "resume_exhausted"@.len() == 16,
        "partial_preserved"@.len() == 17,
        "connection_policy"@.len() == 17,
        "resume_reconnects"@.len() == 17,
        "queried_at_unix_ms"@.len() == 18,
        "idle_timeout_seconds"@.len() == 20,
        "same_high_water_limit"@.len() == 21,
        "reconnect_on_next_call"@.len() == 22,
        "automatic_resume_limit"@.len() == 22,
        "initial_session_reused"@.len() == 22,
        "chunk_fallback_required"@.len() == 23,
        "same_high_water_reconnects"@.len() == 26,
        "stage"@ != "error"@,
        "stage"@ != "bytes"@,
        "stage"@ != "fresh"@,
        "error"@ != "bytes"@,
        "error"@ != "fresh"@,
        "bytes"@ != "fresh"@,
        "stdout"@ != "stderr"@,
        "stdout"@ != "sha256"@,
        "stderr"@ != "sha256"@,
        "channel"@ != "command"@,
        "channel"@ != "devices"@,
        "command"@ != "devices"@,
        "hostname"@ != "platform"@,
        "hostname"@ != "protocol"@,
        "hostname"@ != "replayed"@,
        "platform"@ != "protocol"@,
        "platform"@ != "replayed"@,
        "protocol"@ != "replayed"@,
        "device_id"@ != "operation"@,
        "device_id"@ != "exit_code"@,
        "device_id"@ != "timed_out"@,
        "operation"@ != "exit_code"@,
        "operation"@ != "timed_out"@,
        "exit_code"@ != "timed_out"@,
        "remote_path"@ != "duration_ms"@,
        "progress_bytes"@ != "session_reused"@,
        "progress_bytes"@ != "resume_stalled"@,
        "session_reused"@ != "resume_stalled"@,
        "session_channel"@ != "output_complete"@,
        "session_channel"@ != "timeout_seconds"@,
        "output_complete"@ != "timeout_seconds"@,
        "resume_supported"@ != "resume_exhausted"@,
        "partial_preserved"@ != "connection_policy"@,
        "partial_preserved"@ != "resume_reconnects"@,
        "connection_policy"@ != "resume_reconnects"@,
        "reconnect_on_next_call"@ != "automatic_resume_limit"@,
        "reconnect_on_next_call"@ != "initial_session_reused"@,
        "automatic_resume_limit"@ != "initial_session_reused"@,
{
    reveal_strlit("ok");
    reveal_strlit("type");
    reveal_strlit("stage");
    reveal_strlit("error");
    reveal_strlit("bytes");
    reveal_strlit("fresh");
    reveal_strlit("stdout");
    reveal_strlit("stderr");
    reveal_strlit("sha256");
    reveal_strlit("channel");
    reveal_strlit("command");
    reveal_strlit("devices");
    reveal_strlit("hostname");
    reveal_strlit("platform");
    reveal_strlit("protocol");
    reveal_strlit("replayed");
    reveal_strlit("device_id");
    reveal_strlit("operation");
    reveal_strlit("exit_code");
    reveal_strlit("timed_out");
    reveal_strlit("local_path");
    reveal_strlit("remote_path");
    reveal_strlit("duration_ms");
    reveal_strlit("resumed_from");
    reveal_strlit("attempt_bytes");
    reveal_strlit("progress_bytes");
    reveal_strlit("session_reused");
    reveal_strlit("resume_stalled");
    reveal_strlit("session_channel");
    reveal_strlit("output_complete");
    reveal_strlit("timeout_seconds");
    reveal_strlit("resume_supported");
    reveal_strlit("resume_exhausted");
    reveal_strlit("partial_preserved");
    reveal_strlit("connection_policy");
    reveal_strlit("resume_reconnects");
    reveal_strlit("queried_at_unix_ms");
    reveal_strlit("idle_timeout_seconds");
    reveal_strlit("same_high_water_limit");
    reveal_strlit("reconnect_on_next_call");
    reveal_strlit("automatic_resume_limit");
    reveal_strlit("initial_session_reused");
    reveal_strlit("chunk_fallback_required");
    reveal_strlit("same_high_water_reconnects");
    assert("stage"@[0] != "error"@[0]);
    assert("stage"@[0] != "bytes"@[0]);
    assert("stage"@[0] != "fresh"@[0]);
    assert("error"@[0] != "bytes"@[0]);
    assert("error"@[0] != "fresh"@[0]);
    assert("bytes"@[0] != "fresh"@[0]);
    assert("stdout"@[3] != "stderr"@[3]);
    assert("stdout"@[1] != "sha256"@[1]);
    assert("stderr"@[1] != "sha256"@[1]);
    assert("channel"@[1] != "command"@[1]);
    assert("channel"@[0] != "devices"@[0]);
    assert("command"@[0] != "devices"@[0]);
    assert("hostname"@[0] != "platform"@[0]);
    assert("hostname"@[0] != "protocol"@[0]);
    assert("hostname"@[0] != "replayed"@[0]);
    assert("platform"@[1] != "protocol"@[1]);
    assert("platform"@[0] != "replayed"@[0]);
    assert("protocol"@[0] != "replayed"@[0]);
    assert("device_id"@[0] != "operation"@[0]);
    assert("device_id"@[0] != "exit_code"@[0]);
    assert("device_id"@[0] != "timed_out"@[0]);
    assert("operation"@[0] != "exit_code"@[0]);
    assert("operation"@[0] != "timed_out"@[0]);
    assert("exit_code"@[0] != "timed_out"@[0]);
    assert("remote_path"@[0] != "duration_ms"@[0]);
    assert("progress_bytes"@[0] != "session_reused"@[0]);
    assert("progress_bytes"@[0] != "resume_stalled"@[0]);
    assert("session_reused"@[0] != "resume_stalled"@[0]);
    assert("session_channel"@[0] != "output_complete"@[0]);
    assert("session_channel"@[0] != "timeout_seconds"@[0]);
    assert("output_complete"@[0] != "timeout_seconds"@[0]);
    assert("resume_supported"@[7] != "resume_exhausted"@[7]);
    assert("partial_preserved"@[0] != "connection_policy"@[0]);
    assert("partial_preserved"@[0] != "resume_reconnects"@[0]);
    assert("connection_policy"@[0] != "resume_reconnects"@[0]);
    assert("reconnect_on_next_call"@[0] != "automatic_resume_limit"@[0]);
    assert("reconnect_on_next_call"@[0] != "initial_session_reused"@[0]);
    assert("automatic_resume_limit"@[0] != "initial_session_reused"@[0]);
}

/// A member that was set is the one that is read, as what it is and as nothing else, and every other member
/// stays what it was.
pub proof fn law_members_read_back(members: Map<Seq<char>, Json>, key: Seq<char>, item: Json, other: Seq<char>)
    ensures
        ({
            let before = Json::Object(members);
            let json = with(before, key, item);
            &&& json is Object
            &&& member(json, key) == Some(item)
            &&& other != key ==> member(json, other) == member(before, other)
            &&& text_at(json, key) == (match item {
                Json::Text(text) => Some(text),
                _ => None,
            })
            &&& flag_at(json, key) == (match item {
                Json::Bool(flag) => Some(flag),
                _ => None,
            })
            &&& item matches Json::Number(Some(n)) ==> (n >= 0 ==> count_at(json, key) == Some(n)) && (n < 0
                ==> count_at(json, key) is None)
            &&& !(item is Number) || item == Json::Number(None) ==> count_at(json, key) is None
        }),
        member(Json::Object(members), key) is None <==> !members.dom().contains(key),
        member(no_members(), key) is None,
        no_members() is Object,
{
}

}
