//! The echo of a script: a terminal often prints what it is sent, the marker of the result included. That is
//! not taken for a result.

use vstd::prelude::*;
use vstd::string::*;

use crate::codec::{is_base64, is_base64_char, is_hex_digit};
use crate::frame::{
    candidate, fields_before, first_match, frame_end, frame_in, last_match, law_no_marker_no_frame,
    lemma_first_match_bounds, lemma_last_match_bounds, FrameView,
};
use crate::script::{
    are_marker_digits, marker_of, outer_script, posix_script, powershell_encoded, quoted_char, quoted_chars,
    single_quoted, windows_script, POSIX_HEAD, POSIX_REPORT, POSIX_RUN, POWERSHELL,
};
use crate::text::{has_text, matches_at, parsed_integer};

verus! {

// ---------------------------------------------------------------------------
// Occurrences
// ---------------------------------------------------------------------------

/// Where a pattern stands, its characters stand.
proof fn lemma_char_at(text: Seq<char>, pattern: Seq<char>, at: int, i: int)
    requires
        matches_at(text, pattern, at),
        0 <= i < pattern.len(),
    ensures
        text[at + i] == pattern[i],
{
    assert(text.subrange(at, at + pattern.len())[i] == text[at + i]);
}

/// Where the characters of a pattern stand, it stands.
proof fn lemma_stands(text: Seq<char>, pattern: Seq<char>, at: int)
    requires
        0 <= at,
        at + pattern.len() <= text.len(),
        forall|i: int| 0 <= i < pattern.len() ==> text[at + i] == #[trigger] pattern[i],
    ensures
        matches_at(text, pattern, at),
{
    assert(text.subrange(at, at + pattern.len()) =~= pattern);
}

/// Where no occurrence of the marker begins a frame, there is none.
proof fn lemma_no_fields(text: Seq<char>, prefix: Seq<char>, end: int)
    requires
        0 <= end <= text.len(),
        prefix.len() > 0,
        forall|at: int| #[trigger] matches_at(text, prefix, at) ==> candidate(text.skip(at + prefix.len())) is None,
    ensures
        fields_before(text, prefix, end) is None,
    decreases end,
{
    lemma_last_match_bounds(text, prefix, end);
    match last_match(text, prefix, end) {
        None => {},
        Some(at) => {
            lemma_no_fields(text, prefix, at);
        },
    }
}

// ---------------------------------------------------------------------------
// Quoting
// ---------------------------------------------------------------------------

/// A text without quotes.
spec fn unquoted(s: Seq<char>) -> bool {
    forall|i: int| 0 <= i < s.len() ==> #[trigger] s[i] != '\'' && s[i] != '"'
}

/// A text without quotes that ends the quoted form of `s` ends `s`.
proof fn lemma_quoted_end(s: Seq<char>, end: Seq<char>)
    requires
        unquoted(end),
        end.len() <= quoted_chars(s).len(),
        quoted_chars(s).skip(quoted_chars(s).len() - end.len()) == end,
    ensures
        end.len() <= s.len(),
        s.skip(s.len() - end.len()) == end,
    decreases end.len(),
{
    if end.len() == 0 {
        assert(s.skip(s.len() - end.len()) =~= end);
    } else {
        let shorter = quoted_chars(s.drop_last());
        let all = quoted_chars(s);
        let from = all.len() - end.len();
        assert(all == shorter + quoted_char(s.last()));
        assert(end.last() == all.skip(from)[end.len() - 1]);
        assert(end.last() == all.last());
        assert(all.last() == quoted_char(s.last()).last());
        assert(s.last() != '\'');
        assert(shorter.skip(shorter.len() - (end.len() - 1)) =~= end.drop_last()) by {
            assert forall|i: int| 0 <= i < end.len() - 1 implies shorter.skip(shorter.len() - (end.len() - 1))[i]
                == end[i] by {
                assert(all.skip(from)[i] == all[from + i]);
            }
        }
        lemma_quoted_end(s.drop_last(), end.drop_last());
        assert(s.skip(s.len() - end.len()) =~= end) by {
            let short = s.drop_last();
            assert forall|i: int| 0 <= i < end.len() implies s.skip(s.len() - end.len())[i] == end[i] by {
                if i < end.len() - 1 {
                    assert(short.skip(short.len() - (end.len() - 1))[i] == end.drop_last()[i]);
                }
            }
        }
    }
}

/// A text without quotes that stands in the quoted form of `s` stands in `s`.
proof fn lemma_quoted_has(s: Seq<char>, pattern: Seq<char>, at: int)
    requires
        unquoted(pattern),
        pattern.len() > 0,
        matches_at(quoted_chars(s), pattern, at),
    ensures
        has_text(s, pattern),
    decreases s.len(),
{
    let all = quoted_chars(s);
    let shorter = quoted_chars(s.drop_last());
    lemma_char_at(all, pattern, at, pattern.len() - 1);
    if at + pattern.len() <= shorter.len() {
        assert(shorter.subrange(at, at + pattern.len()) =~= all.subrange(at, at + pattern.len()));
        lemma_quoted_has(s.drop_last(), pattern, at);
        let found = choose|q: int| matches_at(s.drop_last(), pattern, q);
        assert(s.subrange(found, found + pattern.len()) =~= s.drop_last().subrange(found, found + pattern.len()));
        assert(matches_at(s, pattern, found));
    } else {
        let i = at + pattern.len() - 1 - shorter.len();
        assert(all[at + pattern.len() - 1] == quoted_char(s.last())[i]);
        assert(s.last() != '\'');
        assert(all.skip(all.len() - pattern.len()) =~= pattern);
        lemma_quoted_end(s, pattern);
        let found = s.len() - pattern.len();
        assert(s.subrange(found, found + pattern.len()) =~= s.skip(found));
        assert(matches_at(s, pattern, found));
    }
}

// ---------------------------------------------------------------------------
// The marker
// ---------------------------------------------------------------------------

/// The characters of a marker with its colon: underscores, some capital letters and hexadecimal digits.
spec fn is_marker_char(c: char) -> bool {
    c == '_' || c == ':' || ('A' <= c <= 'Z') || ('0' <= c <= '9') || ('a' <= c <= 'f')
}

/// What is known of a marker with its colon.
proof fn lemma_marker(digits: Seq<char>)
    requires
        are_marker_digits(digits),
    ensures
        marker_of(digits).len() == 53,
        forall|i: int| 0 <= i < 54 ==> is_marker_char(#[trigger] marker_of(digits).push(':')[i]),
        marker_of(digits)[0] == '_',
        marker_of(digits)[1] == '_',
        marker_of(digits)[2] == 'R',
        forall|i: int|
            0 <= i < 52 && #[trigger] marker_of(digits)[i] == '_' && marker_of(digits)[i + 1] == 'R' ==> i == 1 || (i
                == 11 && marker_of(digits)[i - 1] != '_'),
{
    reveal_strlit("__RUSTSHELL_RESULT_");
    reveal_strlit("__");
    let marker = marker_of(digits);
    let head = "__RUSTSHELL_RESULT_"@;
    assert(head.len() == 19);
    assert forall|i: int| 0 <= i < 54 implies is_marker_char(#[trigger] marker.push(':')[i]) by {
        if i < 19 {
            assert(marker[i] == head[i]);
        } else if i < 51 {
            assert(marker[i] == digits[i - 19]);
            assert(is_hex_digit(digits[i - 19]));
        }
    }
    assert forall|i: int|
        0 <= i < 52 && #[trigger] marker[i] == '_' && marker[i + 1] == 'R' implies i == 1 || (i == 11 && marker[i - 1]
        != '_') by {
        if i < 18 {
            assert(marker[i] == head[i] && marker[i + 1] == head[i + 1]);
        } else if i < 50 {
            assert(marker[i + 1] == digits[i + 1 - 19]);
            assert(is_hex_digit(digits[i + 1 - 19]));
        } else {
            assert(marker[51] == '_' && marker[52] == '_');
        }
    }
}

/// Nowhere in the fixed parts of the POSIX script does a capital R stand after an underscore.
proof fn lemma_fixed_parts()
    ensures
        POSIX_HEAD@.len() > 0,
        POSIX_HEAD@[0] == 'u',
        forall|i: int| 0 <= i < POSIX_HEAD@.len() - 1 ==> !(#[trigger] POSIX_HEAD@[i] == '_' && POSIX_HEAD@[i + 1] == 'R'),
        POSIX_RUN@.len() > 0,
        forall|i: int| 0 <= i < POSIX_RUN@.len() ==> #[trigger] POSIX_RUN@[i] != 'R',
        POSIX_REPORT@.len() > 5,
        forall|i: int| 0 <= i < POSIX_REPORT@.len() ==> #[trigger] POSIX_REPORT@[i] != 'R',
        POSIX_REPORT@[0] == ':',
        POSIX_REPORT@[1] == '%',
        POSIX_REPORT@[2] == 's',
        POSIX_REPORT@[3] == ':',
        POSIX_REPORT@[4] == '\'',
        POSIX_REPORT@.last() == '\'',
{
    reveal_strlit("unset HISTFILE; set +e; __rs_o=$(mktemp \"${TMPDIR:-/tmp}/rustshell-out.XXXXXX\"); \
     __rs_e=$(mktemp \"${TMPDIR:-/tmp}/rustshell-err.XXXXXX\"); /bin/sh -c ");
    reveal_strlit(" >\"$__rs_o\" 2>\"$__rs_e\"; __rs_c=$?; printf '\\n");
    reveal_strlit(":%s:' \"$__rs_c\"; base64 <\"$__rs_o\" | tr -d '\\r\\n'; printf ':'; base64 <\"$__rs_e\" | tr \
     -d '\\r\\n'; rm -f \"$__rs_o\" \"$__rs_e\"; printf ':END\\n'");
}

/// The marker with its colon stands wholly in the middle one of three texts, where the other two do not hold
/// the marker and the middle one begins and ends with characters of no marker. It may end anywhere if nothing
/// comes after it.
proof fn lemma_outside(before: Seq<char>, middle: Seq<char>, after: Seq<char>, marker: Seq<char>, at: int)
    requires
        marker.len() == 53,
        forall|i: int| 0 <= i < 54 ==> is_marker_char(#[trigger] marker.push(':')[i]),
        !has_text(before, marker),
        !has_text(after, marker),
        middle.len() > 0 ==> !is_marker_char(middle[0]),
        after.len() > 0 ==> middle.len() > 0 && !is_marker_char(middle.last()),
        matches_at(before + middle + after, marker.push(':'), at),
    ensures
        before.len() <= at,
        at + 54 <= before.len() + middle.len(),
{
    let prefix = marker.push(':');
    let text = before + middle + after;
    let b = before.len() as int;
    let e = b + middle.len();
    if at + 53 <= b {
        assert forall|i: int| 0 <= i < 53 implies before[at + i] == #[trigger] marker[i] by {
            lemma_char_at(text, prefix, at, i);
        }
        lemma_stands(before, marker, at);
    } else if at < b {
        if middle.len() > 0 {
            lemma_char_at(text, prefix, at, b - at);
            assert(is_marker_char(prefix[b - at]));
        }
    } else if at >= e {
        assert forall|i: int| 0 <= i < 53 implies after[at - e + i] == #[trigger] marker[i] by {
            lemma_char_at(text, prefix, at, i);
        }
        lemma_stands(after, marker, at - e);
    } else if at + 54 > e {
        lemma_char_at(text, prefix, at, e - 1 - at);
        assert(is_marker_char(prefix[e - 1 - at]));
    }
}

/// Where the marker stands in the POSIX script.
spec fn marker_place(command: Seq<char>) -> int {
    (POSIX_HEAD@.len() + single_quoted(command).len() + POSIX_RUN@.len()) as int
}

/// The marker with its colon stands in the POSIX script at its place only, unless the command holds it.
proof fn lemma_one_marker(command: Seq<char>, digits: Seq<char>, at: int)
    requires
        are_marker_digits(digits),
        !has_text(command, marker_of(digits)),
        matches_at(posix_script(command, marker_of(digits)), marker_of(digits).push(':'), at),
    ensures
        at == marker_place(command),
{
    let marker = marker_of(digits);
    let prefix = marker.push(':');
    let script = posix_script(command, marker);
    let quoted = quoted_chars(command);
    let head = POSIX_HEAD@.len() as int;
    let run = head + quoted.len() + 2;
    let place = marker_place(command);
    lemma_marker(digits);
    lemma_fixed_parts();
    lemma_char_at(script, prefix, at, 0);
    lemma_char_at(script, prefix, at, 1);
    lemma_char_at(script, prefix, at, 2);
    assert(script[at] == '_' && script[at + 1] == '_' && script[at + 2] == 'R');
    let first = at + 1;
    if first + 1 < head {
        assert(script[first] == POSIX_HEAD@[first] && script[first + 1] == POSIX_HEAD@[first + 1]);
    } else if first < head {
        assert(script[head] == '\'');
    } else if first == head {
        assert(script[head] == '\'');
    } else if first < run - 1 {
        assert(script[run - 1] == '\'');
        assert(script[head] == '\'');
        assert(at > head);
        if at + 54 > run - 1 {
            lemma_char_at(script, prefix, at, run - 1 - at);
            assert(is_marker_char(prefix[run - 1 - at]));
        }
        assert forall|i: int| 0 <= i < 53 implies quoted[at - head - 1 + i] == #[trigger] marker[i] by {
            lemma_char_at(script, prefix, at, i);
            assert(script[at + i] == quoted[at + i - head - 1]);
        }
        lemma_stands(quoted, marker, at - head - 1);
        assert forall|i: int| 0 <= i < marker.len() implies #[trigger] marker[i] != '\'' && marker[i] != '"' by {
            assert(is_marker_char(prefix[i]));
        }
        lemma_quoted_has(command, marker, at - head - 1);
    } else if first == run - 1 {
        assert(script[run - 1] == '\'');
    } else if first + 1 < place {
        assert(script[first + 1] == POSIX_RUN@[first + 1 - run]);
    } else if first + 1 == place {
        assert(script[place] == marker[0]);
    } else if first < place + 52 {
        assert(script[first] == marker[first - place] && script[first + 1] == marker[first + 1 - place]);
        if first == place + 11 {
            assert(script[at] == marker[10]);
        }
    } else {
        assert(script[first + 1] == POSIX_REPORT@[first + 1 - place - 53]);
    }
}

/// What follows the marker in the POSIX script, as far as it is there, begins no frame: the place of the exit
/// code is taken by a format.
proof fn lemma_format_is_no_code(payload: Seq<char>)
    requires
        payload.len() > 0 ==> payload[0] == '%',
        payload.len() > 1 ==> payload[1] == 's',
        payload.len() > 2 ==> payload[2] == ':',
        payload.len() > 3 ==> payload[3] == '\'',
    ensures
        candidate(payload) is None,
{
    lemma_first_match_bounds(payload, frame_end(), 0);
    match first_match(payload, frame_end(), 0) {
        None => {},
        Some(end) => {
            lemma_char_at(payload, frame_end(), end, 0);
            lemma_char_at(payload, frame_end(), end, 1);
            assert(end > 2);
            let body = payload.take(end);
            lemma_first_match_bounds(body, seq![':'], 0);
            lemma_stands(body, seq![':'], 2);
            match first_match(body, seq![':'], 0) {
                None => {},
                Some(one) => {
                    lemma_char_at(body, seq![':'], one, 0);
                    assert(one == 2);
                    assert(body.take(one)[0] == '%');
                    assert(parsed_integer(body.take(one), i32::MIN as int, i32::MAX as int) is None);
                },
            }
        },
    }
}

/// The echo of a POSIX script is no result, and no error either, whether it is there in full or up to some
/// character: the marker stands in it, but no frame. What stands before and after it, and the command itself,
/// do not hold the marker.
pub proof fn law_posix_echo_is_no_frame(
    before: Seq<char>,
    command: Seq<char>,
    digits: Seq<char>,
    n: int,
    after: Seq<char>,
)
    requires
        are_marker_digits(digits),
        0 <= n <= posix_script(command, marker_of(digits)).len(),
        n < posix_script(command, marker_of(digits)).len() ==> after.len() == 0,
        !has_text(before, marker_of(digits)),
        !has_text(command, marker_of(digits)),
        !has_text(after, marker_of(digits)),
    ensures
        frame_in(before + posix_script(command, marker_of(digits)).take(n) + after, marker_of(digits)) == Ok::<
            Option<FrameView>,
            Seq<char>,
        >(None),
{
    let marker = marker_of(digits);
    let prefix = marker.push(':');
    let script = posix_script(command, marker);
    let echo = script.take(n);
    let text = before + echo + after;
    let b = before.len() as int;
    lemma_marker(digits);
    lemma_fixed_parts();
    assert forall|at: int| #[trigger] matches_at(text, prefix, at) implies candidate(text.skip(at + prefix.len()))
        is None by {
        lemma_outside(before, echo, after, marker, at);
        assert forall|i: int| 0 <= i < 54 implies script[at - b + i] == #[trigger] prefix[i] by {
            lemma_char_at(text, prefix, at, i);
        }
        lemma_stands(script, prefix, at - b);
        lemma_one_marker(command, digits, at - b);
        let payload = text.skip(at + prefix.len());
        let place = marker_place(command);
        assert forall|i: int| 0 <= i < 4 && i < payload.len() implies #[trigger] payload[i] == POSIX_REPORT@[i + 1] by {
            assert(payload[i] == text[at + 54 + i]);
            assert(text[at + 54 + i] == script[place + 54 + i]);
        }
        lemma_format_is_no_code(payload);
    }
    lemma_no_fields(text, prefix, text.len() as int);
}

/// Nowhere in the fixed part of the Windows script does an underscore stand.
proof fn lemma_start_of_powershell()
    ensures
        POWERSHELL@.len() > 0,
        POWERSHELL@[0] == 'p',
        forall|i: int| 0 <= i < POWERSHELL@.len() ==> #[trigger] POWERSHELL@[i] != '_',
{
    reveal_strlit("powershell.exe -NoLogo -NoProfile -NonInteractive -EncodedCommand ");
}

/// The echo of a Windows script is no result, and no error either, whether it is there in full or up to some
/// character: the marker, like the command, stands in it in Base64 only. What stands before and after it does
/// not hold the marker.
pub proof fn law_windows_echo_is_no_frame(
    before: Seq<char>,
    command: Seq<char>,
    digits: Seq<char>,
    n: int,
    after: Seq<char>,
)
    requires
        are_marker_digits(digits),
        is_base64(powershell_encoded(outer_script(command, marker_of(digits)))),
        0 <= n <= windows_script(command, marker_of(digits)).len(),
        n < windows_script(command, marker_of(digits)).len() ==> after.len() == 0,
        !has_text(before, marker_of(digits)),
        !has_text(after, marker_of(digits)),
    ensures
        frame_in(before + windows_script(command, marker_of(digits)).take(n) + after, marker_of(digits)) == Ok::<
            Option<FrameView>,
            Seq<char>,
        >(None),
{
    let marker = marker_of(digits);
    let prefix = marker.push(':');
    let script = windows_script(command, marker);
    let encoded = powershell_encoded(outer_script(command, marker));
    let echo = script.take(n);
    let text = before + echo + after;
    let b = before.len() as int;
    let e = b + n;
    lemma_marker(digits);
    lemma_start_of_powershell();
    assert forall|at: int| !matches_at(text, prefix, at) by {
        if matches_at(text, prefix, at) {
            lemma_char_at(text, prefix, at, 0);
            if at + 53 <= b {
                assert forall|i: int| 0 <= i < 53 implies before[at + i] == #[trigger] marker[i] by {
                    lemma_char_at(text, prefix, at, i);
                }
                lemma_stands(before, marker, at);
            } else if at < b {
                if n > 0 {
                    lemma_char_at(text, prefix, at, b - at);
                    assert(is_marker_char(prefix[b - at]));
                }
            } else if at < e {
                let i = at - b;
                assert(text[at] == script[i]);
                if i >= POWERSHELL@.len() {
                    assert(script[i] == encoded[i - POWERSHELL@.len()]);
                    assert(is_base64_char(encoded[i - POWERSHELL@.len()]));
                }
            } else {
                assert forall|i: int| 0 <= i < 53 implies after[at - e + i] == #[trigger] marker[i] by {
                    lemma_char_at(text, prefix, at, i);
                }
                lemma_stands(after, marker, at - e);
            }
        }
    }
    law_no_marker_no_frame(text, marker);
}

}
