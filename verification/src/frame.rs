//! The frame in which a remote command reports its exit code and its output.
//!
//! A frame is `MARKER:CODE:STDOUT:STDERR:END`, both outputs in Base64. It stands somewhere in the output
//! of a terminal, often after an echo of the command that printed it.

use vstd::prelude::*;
use vstd::string::*;
use vstd::utf8::*;

use crate::codec::{base64_bytes, base64_decode, decodes_to, lossy, lossy_text};
use crate::text::{
    chars_of, joined, law_decimal_reads_back, matches_at, parse_integer, parsed_integer, signed_decimal, stands_at, text_of,
};

verus! {

/// What a frame says: the exit code, the standard output and the standard error.
pub struct FrameView {
    pub exit_code: int,
    pub stdout: Seq<char>,
    pub stderr: Seq<char>,
}

/// The frame that an exit code, a standard output and a standard error make.
pub open spec fn frame_of(parts: (i32, String, String)) -> FrameView {
    FrameView { exit_code: parts.0 as int, stdout: parts.1@, stderr: parts.2@ }
}

/// What ends a frame.
pub open spec fn frame_end() -> Seq<char> {
    seq![':', 'E', 'N', 'D']
}

/// The first position from `from` on at which `pattern` stands in `text`.
pub open spec fn first_match(text: Seq<char>, pattern: Seq<char>, from: int) -> Option<int>
    decreases text.len() + 1 - from,
{
    if from > text.len() {
        None
    } else if matches_at(text, pattern, from) {
        Some(from)
    } else {
        first_match(text, pattern, from + 1)
    }
}

/// The last position at which `pattern` stands in `text` so that it ends at `end` or before.
pub open spec fn last_match(text: Seq<char>, pattern: Seq<char>, end: int) -> Option<int>
    decreases end,
{
    if end < pattern.len() {
        None
    } else if matches_at(text, pattern, end - pattern.len()) {
        Some(end - pattern.len())
    } else if end == 0 {
        None
    } else {
        last_match(text, pattern, end - 1)
    }
}

/// The three fields of `body`: up to the first colon, up to the second, and the rest.
pub open spec fn three_fields(body: Seq<char>) -> Option<(Seq<char>, Seq<char>, Seq<char>)> {
    match first_match(body, seq![':'], 0) {
        Some(one) => match first_match(body, seq![':'], one + 1) {
            Some(two) => Some((body.take(one), body.subrange(one + 1, two), body.skip(two + 1))),
            None => None,
        },
        None => None,
    }
}

/// The exit code and the two outputs, still in Base64, of the frame that `payload` begins with, where it
/// does: `payload` is the text after one occurrence of the marker.
pub open spec fn candidate(payload: Seq<char>) -> Option<(int, Seq<char>, Seq<char>)> {
    match first_match(payload, frame_end(), 0) {
        None => None,
        Some(end) => match three_fields(payload.take(end)) {
            None => None,
            Some((code, stdout, stderr)) => match parsed_integer(code, i32::MIN as int, i32::MAX as int) {
                None => None,
                Some(exit_code) => Some((exit_code, stdout, stderr)),
            },
        },
    }
}

/// The frame in the part of `text` before `end`, where the marker and its colon are `prefix`: that of the
/// last occurrence of `prefix` that begins one.
pub open spec fn fields_before(text: Seq<char>, prefix: Seq<char>, end: int) -> Option<(int, Seq<char>, Seq<char>)>
    decreases end,
{
    match last_match(text, prefix, end) {
        None => None,
        Some(at) => match candidate(text.skip(at + prefix.len())) {
            Some(fields) => Some(fields),
            None => if 0 <= at < end {
                fields_before(text, prefix, at)
            } else {
                None
            },
        },
    }
}

/// The exit code and the two outputs, still in Base64, of the last frame in terminal output.
pub open spec fn fields_in(text: Seq<char>, marker: Seq<char>) -> Option<(int, Seq<char>, Seq<char>)> {
    fields_before(text, marker.push(':'), text.len() as int)
}

/// A frame whose outputs are decoded, or which of them is not Base64.
pub open spec fn decoded(fields: (int, Seq<char>, Seq<char>)) -> Result<FrameView, Seq<char>> {
    match (base64_bytes(fields.1), base64_bytes(fields.2)) {
        (Err(e), _) => Err("[exec_parse] invalid stdout encoding: "@ + e),
        (Ok(_), Err(e)) => Err("[exec_parse] invalid stderr encoding: "@ + e),
        (Ok(out), Ok(err)) => Ok(FrameView { exit_code: fields.0, stdout: lossy(out), stderr: lossy(err) }),
    }
}

/// The frame in terminal output.
pub open spec fn frame_in(text: Seq<char>, marker: Seq<char>) -> Result<Option<FrameView>, Seq<char>> {
    match fields_in(text, marker) {
        None => Ok(None),
        Some(fields) => match decoded(fields) {
            Ok(frame) => Ok(Some(frame)),
            Err(e) => Err(e),
        },
    }
}

pub(crate) proof fn lemma_last_match_bounds(text: Seq<char>, pattern: Seq<char>, end: int)
    requires
        0 <= end <= text.len(),
    ensures
        last_match(text, pattern, end) matches Some(at) ==> 0 <= at <= end - pattern.len() && matches_at(
            text,
            pattern,
            at,
        ) && forall|q: int| at < q <= end - pattern.len() ==> !matches_at(text, pattern, q),
        last_match(text, pattern, end) is None ==> forall|q: int|
            0 <= q <= end - pattern.len() ==> !matches_at(text, pattern, q),
    decreases end,
{
    if end >= pattern.len() && !matches_at(text, pattern, end - pattern.len()) && end > 0 {
        lemma_last_match_bounds(text, pattern, end - 1);
    }
}

pub(crate) proof fn lemma_first_match_bounds(text: Seq<char>, pattern: Seq<char>, from: int)
    requires
        0 <= from,
    ensures
        first_match(text, pattern, from) matches Some(at) ==> from <= at && matches_at(text, pattern, at)
            && forall|q: int| from <= q < at ==> !matches_at(text, pattern, q),
        first_match(text, pattern, from) is None ==> forall|q: int| from <= q ==> !matches_at(text, pattern, q),
    decreases text.len() + 1 - from,
{
    if from <= text.len() && !matches_at(text, pattern, from) {
        lemma_first_match_bounds(text, pattern, from + 1);
    }
}

fn find(text: &Vec<char>, pattern: &Vec<char>, from: usize) -> (r: Option<usize>)
    requires
        from <= text@.len(),
    ensures
        match r {
            Some(at) => first_match(text@, pattern@, from as int) == Some(at as int),
            None => first_match(text@, pattern@, from as int) is None,
        },
        r matches Some(at) ==> from <= at && at + pattern@.len() <= text@.len(),
{
    let mut at: usize = from;
    while at < text.len()
        invariant
            from <= at <= text@.len(),
            first_match(text@, pattern@, from as int) == first_match(text@, pattern@, at as int),
        decreases text@.len() - at,
    {
        if stands_at(text, pattern, at) {
            return Some(at);
        }
        at = at + 1;
    }
    if stands_at(text, pattern, at) {
        Some(at)
    } else {
        assert(first_match(text@, pattern@, at + 1) is None);
        None
    }
}

fn find_last(text: &Vec<char>, pattern: &Vec<char>, end: usize) -> (r: Option<usize>)
    requires
        end <= text@.len(),
    ensures
        match r {
            Some(at) => last_match(text@, pattern@, end as int) == Some(at as int),
            None => last_match(text@, pattern@, end as int) is None,
        },
        r matches Some(at) ==> at + pattern@.len() <= end,
{
    let mut last: usize = end;
    while last >= pattern.len()
        invariant
            last <= end <= text@.len(),
            last_match(text@, pattern@, end as int) == last_match(text@, pattern@, last as int),
        decreases last,
    {
        if stands_at(text, pattern, last - pattern.len()) {
            return Some(last - pattern.len());
        }
        if last == 0 {
            return None;
        }
        last = last - 1;
    }
    None
}

/// An exit code and two texts as values.
pub open spec fn fields_of(r: Option<(i32, String, String)>) -> Option<(int, Seq<char>, Seq<char>)> {
    match r {
        Some((exit_code, stdout, stderr)) => Some((exit_code as int, stdout@, stderr@)),
        None => None,
    }
}

fn read_candidate(text: &Vec<char>, start: usize, end_mark: &Vec<char>, colon: &Vec<char>) -> (r: Option<
    (i32, String, String),
>)
    requires
        start <= text@.len(),
        end_mark@ == frame_end(),
        colon@ == seq![':'],
    ensures
        fields_of(r) == candidate(text@.skip(start as int)),
{
    let payload = chars_of(text_of(text, start, text.len()).as_str());
    assert(payload@ =~= text@.skip(start as int));
    let end: usize = match find(&payload, end_mark, 0) {
        Some(end) => end,
        None => {
            return None;
        },
    };
    let body = chars_of(text_of(&payload, 0, end).as_str());
    assert(body@ =~= payload@.take(end as int));
    let one: usize = match find(&body, colon, 0) {
        Some(one) => one,
        None => {
            return None;
        },
    };
    let two: usize = match find(&body, colon, one + 1) {
        Some(two) => two,
        None => {
            return None;
        },
    };
    let code = chars_of(text_of(&body, 0, one).as_str());
    let stdout = text_of(&body, one + 1, two);
    let stderr = text_of(&body, two + 1, body.len());
    proof {
        lemma_first_match_bounds(body@, colon@, 0);
        lemma_first_match_bounds(body@, colon@, one + 1);
        assert(code@ =~= body@.take(one as int));
        assert(stderr@ =~= body@.skip(two + 1));
    }
    match parse_integer(&code, i32::MIN as i64, i32::MAX as i64) {
        Some(exit_code) => Some((exit_code as i32, stdout, stderr)),
        None => None,
    }
}

/// Finds the last frame that `marker` begins in a text: its exit code and its two outputs, still in Base64.
pub fn find_frame(text: &str, marker: &str) -> (r: Option<(i32, String, String)>)
    ensures
        fields_of(r) == fields_in(text@, marker@),
{
    let chars = chars_of(text);
    let mut prefix = chars_of(marker);
    prefix.push(':');
    let end_mark = vec![':', 'E', 'N', 'D'];
    let colon = vec![':'];
    assert(end_mark@ =~= frame_end());
    assert(colon@ =~= seq![':']);
    let ghost whole = fields_in(text@, marker@);
    let mut end: usize = chars.len();
    loop
        invariant
            end <= text@.len(),
            chars@ == text@,
            prefix@ == marker@.push(':'),
            end_mark@ == frame_end(),
            colon@ == seq![':'],
            whole == fields_in(text@, marker@),
            whole == fields_before(text@, prefix@, end as int),
        decreases end,
    {
        let at: usize = match find_last(&chars, &prefix, end) {
            Some(at) => at,
            None => {
                return None;
            },
        };
        match read_candidate(&chars, at + prefix.len(), &end_mark, &colon) {
            Some(fields) => {
                return Some(fields);
            },
            None => {},
        }
        end = at;
    }
}

/// A frame as a value, or the words of its error.
pub open spec fn decode_result(r: Result<(i32, String, String), String>) -> Result<FrameView, Seq<char>> {
    match r {
        Ok(parts) => Ok(frame_of(parts)),
        Err(e) => Err(e@),
    }
}

/// Decodes the outputs of a frame. Output that is not Base64 is an error; what it decodes to is text, with
/// what is not UTF-8 replaced.
pub fn decode_frame(exit_code: i32, stdout: &str, stderr: &str) -> (r: Result<(i32, String, String), String>)
    ensures
        decode_result(r) == decoded((exit_code as int, stdout@, stderr@)),
{
    let out = match base64_decode(stdout) {
        Ok(out) => out,
        Err(e) => {
            return Err(joined("[exec_parse] invalid stdout encoding: ", e.as_str()));
        },
    };
    let err = match base64_decode(stderr) {
        Ok(err) => err,
        Err(e) => {
            return Err(joined("[exec_parse] invalid stderr encoding: ", e.as_str()));
        },
    };
    Ok((exit_code, lossy_text(out.as_slice()), lossy_text(err.as_slice())))
}

/// The result of a search for a frame, as a value.
pub open spec fn parse_result(r: Result<Option<(i32, String, String)>, String>) -> Result<
    Option<FrameView>,
    Seq<char>,
> {
    match r {
        Ok(Some(parts)) => Ok(Some(frame_of(parts))),
        Ok(None) => Ok(None),
        Err(e) => Err(e@),
    }
}

/// Finds the last whole frame that `marker` begins in terminal output. There may be none yet; output that
/// is not Base64 is an error.
pub fn parse_command_frame(data: &[u8], marker: &str) -> (r: Result<Option<(i32, String, String)>, String>)
    ensures
        frame_in(lossy(data@), marker@) == parse_result(r),
        valid_utf8(data@) ==> frame_in(decode_utf8(data@), marker@) == parse_result(r),
{
    match find_frame(lossy_text(data).as_str(), marker) {
        None => Ok(None),
        Some((exit_code, stdout, stderr)) => match decode_frame(exit_code, stdout.as_str(), stderr.as_str()) {
            Ok(frame) => Ok(Some(frame)),
            Err(e) => Err(e),
        },
    }
}

/// A whole frame as text, both outputs in Base64.
pub open spec fn frame_text(marker: Seq<char>, exit_code: int, stdout: Seq<char>, stderr: Seq<char>) -> Seq<char> {
    marker.push(':') + (signed_decimal(exit_code) + seq![':'] + stdout + seq![':'] + stderr + frame_end())
}

proof fn lemma_first_match_is(text: Seq<char>, pattern: Seq<char>, from: int, at: int)
    requires
        0 <= from <= at,
        matches_at(text, pattern, at),
        forall|q: int| from <= q < at ==> !matches_at(text, pattern, q),
    ensures
        first_match(text, pattern, from) == Some(at),
{
    lemma_first_match_bounds(text, pattern, from);
    match first_match(text, pattern, from) {
        Some(other) => {
            if other < at {
                assert(!matches_at(text, pattern, other));
            } else if at < other {
                assert(!matches_at(text, pattern, at));
            }
        },
        None => {
            assert(!matches_at(text, pattern, at));
        },
    }
}

/// Where the colons of a payload stand: after the code, after the standard output and at the end.
proof fn lemma_payload_colons(
    payload: Seq<char>,
    code: Seq<char>,
    stdout: Seq<char>,
    stderr: Seq<char>,
    after: Seq<char>,
)
    requires
        !code.contains(':'),
        !stdout.contains(':'),
        !stderr.contains(':'),
        payload == code + seq![':'] + stdout + seq![':'] + stderr + frame_end() + after,
    ensures
        ({
            let one = code.len() as int;
            let two = one + 1 + stdout.len();
            let end = two + 1 + stderr.len();
            &&& payload.len() >= end + 4
            &&& payload[one] == ':' && payload[two] == ':' && payload[end] == ':'
            &&& forall|q: int| 0 <= q < end && q != one && q != two ==> #[trigger] payload[q] != ':'
            &&& payload.subrange(one + 1, two) == stdout
            &&& payload.subrange(two + 1, end) == stderr
            &&& payload.subrange(end, end + 4) == frame_end()
            &&& payload.take(one) == code
        }),
{
    let one = code.len() as int;
    let two = one + 1 + stdout.len();
    let end = two + 1 + stderr.len();
    assert(payload.take(one) =~= code);
    assert(payload.subrange(one + 1, two) =~= stdout);
    assert(payload.subrange(two + 1, end) =~= stderr);
    assert(payload.subrange(end, end + 4) =~= frame_end());
    assert forall|q: int| 0 <= q < end && q != one && q != two implies #[trigger] payload[q] != ':' by {
        if q < one {
            assert(payload[q] == code[q]);
            assert(code.contains(code[q]));
        } else if q < two {
            assert(payload[q] == stdout[q - one - 1]);
            assert(stdout.contains(stdout[q - one - 1]));
        } else {
            assert(payload[q] == stderr[q - two - 1]);
            assert(stderr.contains(stderr[q - two - 1]));
        }
    }
}

/// A field that does not begin with the letters of the end mark makes none with the colon before it.
proof fn lemma_no_end_mark_at(payload: Seq<char>, at: int, field: Seq<char>)
    requires
        0 <= at,
        at + 1 + field.len() < payload.len(),
        payload.subrange(at + 1, at + 1 + field.len()) == field,
        payload[at + 1 + field.len()] == ':',
        !matches_at(field, seq!['E', 'N', 'D'], 0),
    ensures
        !matches_at(payload, frame_end(), at),
{
    if matches_at(payload, frame_end(), at) {
        let window = payload.subrange(at, at + 4);
        let letters = seq!['E', 'N', 'D'];
        assert(window[1] == payload[at + 1] && window[2] == payload[at + 2] && window[3] == payload[at + 3]);
        if field.len() >= 3 {
            assert(field[0] == payload[at + 1] && field[1] == payload[at + 2] && field[2] == payload[at + 3]);
            assert(field.subrange(0, 3) =~= letters);
        } else {
            assert(window[1 + field.len() as int] == ':');
        }
    }
}

proof fn lemma_not_at_other_char(text: Seq<char>, pattern: Seq<char>, at: int)
    requires
        0 <= at < text.len(),
        pattern.len() > 0,
        text[at] != pattern[0],
    ensures
        !matches_at(text, pattern, at),
{
    if matches_at(text, pattern, at) {
        assert(text.subrange(at, at + pattern.len())[0] == text[at]);
    }
}

proof fn lemma_payload_is_whole(
    payload: Seq<char>,
    after: Seq<char>,
    exit_code: int,
    stdout: Seq<char>,
    stderr: Seq<char>,
)
    requires
        i32::MIN <= exit_code <= i32::MAX,
        !stdout.contains(':'),
        !stderr.contains(':'),
        !matches_at(stdout, seq!['E', 'N', 'D'], 0),
        !matches_at(stderr, seq!['E', 'N', 'D'], 0),
        payload == signed_decimal(exit_code) + seq![':'] + stdout + seq![':'] + stderr + frame_end() + after,
    ensures
        candidate(payload) == Some((exit_code, stdout, stderr)),
{
    let code = signed_decimal(exit_code);
    law_decimal_reads_back(exit_code, i32::MIN as int, i32::MAX as int);
    lemma_payload_colons(payload, code, stdout, stderr, after);
    let one = code.len() as int;
    let two = one + 1 + stdout.len();
    let end = two + 1 + stderr.len();
    let colon = seq![':'];
    // The end mark stands at `end` and nowhere before.
    assert forall|q: int| 0 <= q < end implies !matches_at(payload, frame_end(), q) by {
        if q == one {
            lemma_no_end_mark_at(payload, one, stdout);
        } else if q == two {
            lemma_no_end_mark_at(payload, two, stderr);
        } else {
            lemma_not_at_other_char(payload, frame_end(), q);
        }
    }
    lemma_first_match_is(payload, frame_end(), 0, end);
    // The body splits at its two colons.
    let body = payload.take(end);
    assert forall|q: int| 0 <= q < end && q != one && q != two implies !matches_at(body, colon, q) by {
        assert(body[q] == payload[q]);
        lemma_not_at_other_char(body, colon, q);
    }
    assert(body.subrange(one, one + 1) =~= colon);
    assert(body.subrange(two, two + 1) =~= colon);
    lemma_first_match_is(body, colon, 0, one);
    lemma_first_match_is(body, colon, one + 1, two);
    assert(body.take(one) =~= payload.take(one));
    assert(body.subrange(one + 1, two) =~= payload.subrange(one + 1, two));
    assert(body.skip(two + 1) =~= payload.subrange(two + 1, end));
}

proof fn lemma_frame_found(
    text: Seq<char>,
    prefix: Seq<char>,
    at: int,
    end: int,
    fields: (int, Seq<char>, Seq<char>),
)
    requires
        prefix.len() > 0,
        matches_at(text, prefix, at),
        at + prefix.len() <= end <= text.len(),
        candidate(text.skip(at + prefix.len())) == Some(fields),
        forall|q: int| at < q < at + prefix.len() ==> !matches_at(text, prefix, q),
        forall|q: int|
            at + prefix.len() <= q && matches_at(text, prefix, q) ==> candidate(text.skip(q + prefix.len())) is None,
    ensures
        fields_before(text, prefix, end) == Some(fields),
    decreases end,
{
    lemma_last_match_bounds(text, prefix, end);
    match last_match(text, prefix, end) {
        None => {
            assert(!matches_at(text, prefix, at));
        },
        Some(found) => {
            if found < at {
                assert(!matches_at(text, prefix, at));
            }
            if found > at {
                assert(found >= at + prefix.len());
                lemma_frame_found(text, prefix, at, found, fields);
            }
        },
    }
}

/// A frame reads back what was written into it, whatever stands before it, an echo of the command that
/// printed the marker for one, and after it.
///
/// The outputs are given in Base64. The frame must be the last one: another occurrence of the marker after
/// it begins no frame, and none overlaps with its marker, which none can where the marker has no colon. A
/// field that begins with the letters of the end mark is left out: its colon and those letters are taken for
/// the end of the frame.
pub proof fn law_frame_reads_back(
    before: Seq<char>,
    after: Seq<char>,
    marker: Seq<char>,
    exit_code: int,
    stdout: Seq<char>,
    stderr: Seq<char>,
    out: Seq<u8>,
    err: Seq<u8>,
)
    requires
        i32::MIN <= exit_code <= i32::MAX,
        decodes_to(stdout, out),
        decodes_to(stderr, err),
        !stdout.contains(':'),
        !stderr.contains(':'),
        !matches_at(stdout, seq!['E', 'N', 'D'], 0),
        !matches_at(stderr, seq!['E', 'N', 'D'], 0),
        ({
            let text = before + frame_text(marker, exit_code, stdout, stderr) + after;
            let prefix = marker.push(':');
            let at = before.len() as int;
            &&& marker.contains(':') ==> forall|q: int|
                at < q < at + prefix.len() ==> !matches_at(text, prefix, q)
            &&& forall|q: int|
                at + prefix.len() <= q && matches_at(text, prefix, q) ==> candidate(text.skip(q + prefix.len()))
                    is None
        }),
    ensures
        frame_in(before + frame_text(marker, exit_code, stdout, stderr) + after, marker) == Ok::<
            Option<FrameView>,
            Seq<char>,
        >(Some(FrameView { exit_code, stdout: lossy(out), stderr: lossy(err) })),
{
    let text = before + frame_text(marker, exit_code, stdout, stderr) + after;
    let prefix = marker.push(':');
    let at = before.len() as int;
    let payload = text.skip(at + prefix.len());
    assert(payload =~= signed_decimal(exit_code) + seq![':'] + stdout + seq![':'] + stderr + frame_end() + after);
    lemma_payload_is_whole(payload, after, exit_code, stdout, stderr);
    assert(text.subrange(at, at + prefix.len()) =~= prefix);
    if !marker.contains(':') {
        assert forall|q: int| at < q < at + prefix.len() implies !matches_at(text, prefix, q) by {
            if matches_at(text, prefix, q) {
                let colon = at + prefix.len() - 1;
                assert(text.subrange(at, at + prefix.len())[prefix.len() - 1] == text[colon]);
                assert(text.subrange(q, q + prefix.len())[colon - q] == text[colon]);
                assert(marker.contains(marker[colon - q]));
            }
        }
    }
    lemma_frame_found(text, prefix, at, text.len() as int, (exit_code, stdout, stderr));
}

/// Without the marker there is no frame, and no error either.
pub proof fn law_no_marker_no_frame(text: Seq<char>, marker: Seq<char>)
    requires
        forall|q: int| !matches_at(text, marker.push(':'), q),
    ensures
        frame_in(text, marker) == Ok::<Option<FrameView>, Seq<char>>(None),
{
    lemma_last_match_bounds(text, marker.push(':'), text.len() as int);
}

/// A frame with these fields stands at a position: the marker, the three fields and the end, with colons between.
pub open spec fn frame_stands_at(
    text: Seq<char>,
    marker: Seq<char>,
    at: int,
    code: Seq<char>,
    stdout: Seq<char>,
    stderr: Seq<char>,
) -> bool {
    &&& matches_at(
        text,
        marker + seq![':'] + code + seq![':'] + stdout + seq![':'] + stderr + seq![':', 'E', 'N', 'D'],
        at,
    )
    &&& !code.contains(':') && !stdout.contains(':')
}

proof fn lemma_fields_stand(text: Seq<char>, marker: Seq<char>, end: int)
    requires
        0 <= end <= text.len(),
    ensures
        fields_before(text, marker.push(':'), end) matches Some((exit_code, stdout, stderr)) ==> exists|
            at: int,
            code: Seq<char>,
        | #[trigger]
            frame_stands_at(text, marker, at, code, stdout, stderr) && parsed_integer(code, -0x8000_0000, 0x7fff_ffff)
                == Some(exit_code),
    decreases end,
{
    let prefix = marker.push(':');
    lemma_last_match_bounds(text, prefix, end);
    match last_match(text, prefix, end) {
        None => {},
        Some(at) => {
            let payload = text.skip(at + prefix.len());
            match candidate(payload) {
                None => {
                    if at < end {
                        lemma_fields_stand(text, marker, at);
                    }
                },
                Some((exit_code, stdout, stderr)) => {
                    lemma_first_match_bounds(payload, frame_end(), 0);
                    let stop = first_match(payload, frame_end(), 0).unwrap();
                    let body = payload.take(stop);
                    let colon = seq![':'];
                    lemma_first_match_bounds(body, colon, 0);
                    let one = first_match(body, colon, 0).unwrap();
                    lemma_first_match_bounds(body, colon, one + 1);
                    let two = first_match(body, colon, one + 1).unwrap();
                    let code = body.take(one);
                    assert forall|i: int| 0 <= i < code.len() implies code[i] != ':' by {
                        if code[i] == ':' {
                            assert(body.subrange(i, i + 1) =~= colon);
                            assert(matches_at(body, colon, i));
                        }
                    }
                    assert forall|i: int| 0 <= i < stdout.len() implies stdout[i] != ':' by {
                        if stdout[i] == ':' {
                            assert(body.subrange(one + 1 + i, one + 2 + i) =~= colon);
                            assert(matches_at(body, colon, one + 1 + i));
                        }
                    }
                    assert(body.subrange(one, one + 1)[0] == ':');
                    assert(body.subrange(two, two + 1)[0] == ':');
                    assert(payload.subrange(stop, stop + 4) == frame_end());
                    let whole = marker + seq![':'] + code + seq![':'] + stdout + seq![':'] + stderr + seq![
                        ':',
                        'E',
                        'N',
                        'D',
                    ];
                    assert(body =~= code + seq![':'] + stdout + seq![':'] + stderr);
                    assert(text.subrange(at, at + prefix.len()) == marker + seq![':']);
                    assert(text.subrange(at, at + whole.len()) =~= text.subrange(at, at + prefix.len()) + body
                        + payload.subrange(stop, stop + 4));
                    assert(whole =~= (marker + seq![':']) + (code + seq![':'] + stdout + seq![':'] + stderr)
                        + frame_end());
                    assert(frame_stands_at(text, marker, at, code, stdout, stderr));
                },
            }
        },
    }
}

/// No result is made up: what is reported stands in the text as a whole frame, whose first field is the exit code
/// and whose other two are the outputs in Base64.
pub proof fn law_reported_frames_are_there(text: Seq<char>, marker: Seq<char>)
    ensures
        frame_in(text, marker) matches Ok(Some(frame)) ==> exists|
            at: int,
            code: Seq<char>,
            stdout: Seq<char>,
            stderr: Seq<char>,
        | #[trigger]
            frame_stands_at(text, marker, at, code, stdout, stderr) && parsed_integer(code, -0x8000_0000, 0x7fff_ffff)
                == Some(frame.exit_code) && (base64_bytes(stdout) matches Ok(out) && frame.stdout == lossy(out)) && (
            base64_bytes(stderr) matches Ok(err) && frame.stderr == lossy(err)),
{
    lemma_fields_stand(text, marker, text.len() as int);
}

/// Output that cannot be decoded is an error that says which output it was and why, never a result.
pub proof fn law_undecodable_output_is_told(exit_code: int, stdout: Seq<char>, stderr: Seq<char>)
    ensures
        ({
            let read = decoded((exit_code, stdout, stderr));
            match (base64_bytes(stdout), base64_bytes(stderr)) {
                (Err(why), _) => read == Err::<FrameView, Seq<char>>("[exec_parse] invalid stdout encoding: "@ + why),
                (Ok(_), Err(why)) => read == Err::<FrameView, Seq<char>>(
                    "[exec_parse] invalid stderr encoding: "@ + why,
                ),
                (Ok(out), Ok(err)) => read matches Ok(frame) && frame.exit_code == exit_code && frame.stdout == lossy(
                    out,
                ) && frame.stderr == lossy(err),
            }
        }),
{
}

/// A frame in terminal output whose outputs cannot be decoded is an error. Of where it stands the same holds as
/// where `law_frame_reads_back` speaks of it.
pub proof fn law_undecodable_frames_are_errors(
    before: Seq<char>,
    after: Seq<char>,
    marker: Seq<char>,
    exit_code: int,
    stdout: Seq<char>,
    stderr: Seq<char>,
)
    requires
        i32::MIN <= exit_code <= i32::MAX,
        base64_bytes(stdout) is Err || base64_bytes(stderr) is Err,
        !marker.contains(':'),
        !stdout.contains(':'),
        !stderr.contains(':'),
        !matches_at(stdout, seq!['E', 'N', 'D'], 0),
        !matches_at(stderr, seq!['E', 'N', 'D'], 0),
        ({
            let text = before + frame_text(marker, exit_code, stdout, stderr) + after;
            forall|q: int|
                before.len() + marker.len() + 1 <= q && matches_at(text, marker.push(':'), q) ==> candidate(
                    text.skip(q + marker.len() + 1),
                ) is None
        }),
    ensures
        frame_in(before + frame_text(marker, exit_code, stdout, stderr) + after, marker) is Err,
{
    let text = before + frame_text(marker, exit_code, stdout, stderr) + after;
    let prefix = marker.push(':');
    let at = before.len() as int;
    let payload = text.skip(at + prefix.len());
    assert(payload =~= signed_decimal(exit_code) + seq![':'] + stdout + seq![':'] + stderr + frame_end() + after);
    lemma_payload_is_whole(payload, after, exit_code, stdout, stderr);
    assert(text.subrange(at, at + prefix.len()) =~= prefix);
    assert forall|q: int| at < q < at + prefix.len() implies !matches_at(text, prefix, q) by {
        if matches_at(text, prefix, q) {
            let colon = at + prefix.len() - 1;
            assert(text.subrange(at, at + prefix.len())[prefix.len() - 1] == text[colon]);
            assert(text.subrange(q, q + prefix.len())[colon - q] == text[colon]);
            assert(marker.contains(marker[colon - q]));
        }
    }
    lemma_frame_found(text, prefix, at, text.len() as int, (exit_code, stdout, stderr));
}

/// A frame as text is the marker, the exit code, the two outputs and the end, with colons between.
pub proof fn law_frames_are_written_so(marker: Seq<char>, exit_code: int, stdout: Seq<char>, stderr: Seq<char>)
    ensures
        frame_text(marker, exit_code, stdout, stderr) == marker + seq![':'] + signed_decimal(exit_code) + seq![':']
            + stdout + seq![':'] + stderr + seq![':', 'E', 'N', 'D'],
{
}

/// Results are seen as what they are.
pub proof fn law_frames_are_seen_as_they_are(parts: (i32, String, String), words: String)
    ensures
        frame_of(parts).exit_code == parts.0 && frame_of(parts).stdout == parts.1@ && frame_of(parts).stderr == parts.2@,
        fields_of(Some(parts)) == Some((parts.0 as int, parts.1@, parts.2@)) && fields_of(None) is None,
        decode_result(Ok(parts)) == Ok::<FrameView, Seq<char>>(frame_of(parts)),
        decode_result(Err(words)) == Err::<FrameView, Seq<char>>(words@),
        parse_result(Ok(Some(parts))) == Ok::<Option<FrameView>, Seq<char>>(Some(frame_of(parts))),
        parse_result(Ok(None)) == Ok::<Option<FrameView>, Seq<char>>(None),
        parse_result(Err(words)) == Err::<Option<FrameView>, Seq<char>>(words@),
{
}

}
