//! Text: conversions between strings and characters, ASCII case, blanks and decimal numbers.

use vstd::prelude::*;
use vstd::string::*;
use vstd::utf8::*;

verus! {

/// `String::push` of the standard library: the character is added at the end.
pub assume_specification[ String::push ](s: &mut String, c: char)
    ensures
        final(s)@ == old(s)@.push(c),
;

/// The characters of a string.
pub fn chars_of(text: &str) -> (chars: Vec<char>)
    ensures
        chars@ == text@,
{
    let mut chars: Vec<char> = Vec::new();
    for c in it: text.chars()
        invariant
            chars@ == it.seq().take(it.index() as int),
            it.seq() == text@,
    {
        chars.push(c);
    }
    chars
}

/// The string made of the characters `chars[from..to]`.
pub fn text_of(chars: &Vec<char>, from: usize, to: usize) -> (text: String)
    requires
        from <= to <= chars@.len(),
    ensures
        text@ == chars@.subrange(from as int, to as int),
{
    let mut text = String::new();
    let mut i: usize = from;
    while i < to
        invariant
            from <= i <= to <= chars@.len(),
            text@ == chars@.subrange(from as int, i as int),
        decreases to - i,
    {
        text.push(chars[i]);
        i = i + 1;
    }
    text
}

/// Whether two strings hold the same characters.
pub fn text_eq(a: &str, b: &str) -> (same: bool)
    ensures
        same == (a@ == b@),
{
    let x = a.as_bytes();
    let y = b.as_bytes();
    proof {
        encode_utf8_decode_utf8(a@);
        encode_utf8_decode_utf8(b@);
    }
    if x.len() != y.len() {
        return false;
    }
    let mut i: usize = 0;
    while i < x.len()
        invariant
            i <= x@.len(),
            x@.len() == y@.len(),
            x@ == encode_utf8(a@),
            y@ == encode_utf8(b@),
            forall|j: int| 0 <= j < i ==> x@[j] == y@[j],
        decreases x@.len() - i,
    {
        if x[i] != y[i] {
            return false;
        }
        i = i + 1;
    }
    assert(x@ =~= y@);
    true
}

/// The ASCII lower-case form of a character; every other character is itself.
pub open spec fn lower(c: char) -> char {
    if 'A' <= c <= 'Z' {
        ((c as u8) + 32) as char
    } else {
        c
    }
}

/// A sequence of characters with every ASCII capital lowered.
pub open spec fn lowered(s: Seq<char>) -> Seq<char> {
    Seq::new(s.len(), |i: int| lower(s[i]))
}

pub fn to_lower(c: char) -> (r: char)
    ensures
        r == lower(c),
{
    if 'A' <= c && c <= 'Z' {
        ((c as u8) + 32) as char
    } else {
        c
    }
}

/// Two texts, one after the other.
pub fn joined(a: &str, b: &str) -> (text: String)
    ensures
        text@ == a@ + b@,
{
    let mut text = a.to_owned();
    text.append(b);
    text
}

/// Three texts, one after the other.
pub fn joined3(a: &str, b: &str, c: &str) -> (text: String)
    ensures
        text@ == a@ + b@ + c@,
{
    let mut text = joined(a, b);
    text.append(c);
    text
}

/// Four texts, one after the other.
pub fn joined4(a: &str, b: &str, c: &str, d: &str) -> (text: String)
    ensures
        text@ == a@ + b@ + c@ + d@,
{
    let mut text = joined3(a, b, c);
    text.append(d);
    text
}

/// A text where there is one.
pub open spec fn text_in(text: Option<String>) -> Option<Seq<char>> {
    match text {
        Some(s) => Some(s@),
        None => None,
    }
}

/// What a computation tells: its value, or the words of its error.
pub open spec fn told<T>(r: Result<T, String>) -> Result<T, Seq<char>> {
    match r {
        Ok(v) => Ok(v),
        Err(e) => Err(e@),
    }
}

/// Whether two strings are equal but for the case of ASCII letters.
pub fn eq_ignore_ascii_case(a: &str, b: &str) -> (same: bool)
    ensures
        same == (lowered(a@) == lowered(b@)),
{
    let x = chars_of(a);
    let y = chars_of(b);
    if x.len() != y.len() {
        assert(lowered(a@).len() != lowered(b@).len());
        return false;
    }
    let mut i: usize = 0;
    while i < x.len()
        invariant
            i <= x@.len(),
            x@.len() == y@.len(),
            x@ == a@,
            y@ == b@,
            forall|j: int| 0 <= j < i ==> lower(x@[j]) == lower(y@[j]),
        decreases x@.len() - i,
    {
        if to_lower(x[i]) != to_lower(y[i]) {
            assert(lowered(a@)[i as int] != lowered(b@)[i as int]);
            return false;
        }
        i = i + 1;
    }
    assert(lowered(a@) =~= lowered(b@));
    true
}

/// A copy of the characters with every ASCII capital lowered.
pub fn lowered_chars(text: &str) -> (chars: Vec<char>)
    ensures
        chars@ == lowered(text@),
{
    let source = chars_of(text);
    let mut chars: Vec<char> = Vec::new();
    let mut i: usize = 0;
    while i < source.len()
        invariant
            i <= source@.len(),
            source@ == text@,
            chars@ == lowered(text@).take(i as int),
        decreases source@.len() - i,
    {
        chars.push(to_lower(source[i]));
        i = i + 1;
    }
    assert(lowered(text@).take(text@.len() as int) =~= lowered(text@));
    chars
}

// ---------------------------------------------------------------------------
// Searching
// ---------------------------------------------------------------------------

/// `pattern` stands in `text` at position `at`.
pub open spec fn matches_at(text: Seq<char>, pattern: Seq<char>, at: int) -> bool {
    &&& 0 <= at
    &&& at + pattern.len() <= text.len()
    &&& text.subrange(at, at + pattern.len()) == pattern
}

/// `pattern` stands somewhere in `text`.
pub open spec fn has_text(text: Seq<char>, pattern: Seq<char>) -> bool {
    exists|at: int| matches_at(text, pattern, at)
}

pub fn stands_at(text: &Vec<char>, pattern: &Vec<char>, at: usize) -> (found: bool)
    ensures
        found == matches_at(text@, pattern@, at as int),
{
    if at > text.len() || pattern.len() > text.len() - at {
        return false;
    }
    let ghost window = text@.subrange(at as int, at + pattern@.len());
    let mut i: usize = 0;
    while i < pattern.len()
        invariant
            i <= pattern@.len(),
            at + pattern@.len() <= text@.len() <= usize::MAX,
            window == text@.subrange(at as int, at + pattern@.len()),
            forall|j: int| 0 <= j < i ==> window[j] == pattern@[j],
        decreases pattern@.len() - i,
    {
        if text[at + i] != pattern[i] {
            assert(window[i as int] != pattern@[i as int]);
            return false;
        }
        i = i + 1;
    }
    assert(window =~= pattern@);
    true
}

/// Whether `pattern` stands somewhere in `text`.
pub fn contains(text: &Vec<char>, pattern: &Vec<char>) -> (found: bool)
    ensures
        found == has_text(text@, pattern@),
{
    let mut at: usize = 0;
    while at < text.len()
        invariant
            at <= text@.len(),
            forall|j: int| 0 <= j < at ==> !matches_at(text@, pattern@, j),
        decreases text@.len() - at,
    {
        if stands_at(text, pattern, at) {
            return true;
        }
        at = at + 1;
    }
    let last = stands_at(text, pattern, at);
    assert(last == has_text(text@, pattern@)) by {
        if has_text(text@, pattern@) {
            let w = choose|w: int| matches_at(text@, pattern@, w);
            assert(matches_at(text@, pattern@, w));
            assert(w <= text@.len());
        }
    }
    last
}

// ---------------------------------------------------------------------------
// Blanks
// ---------------------------------------------------------------------------

/// The characters with the Unicode property White_Space.
pub open spec fn is_space(c: char) -> bool {
    ||| '\u{9}' <= c <= '\u{d}'
    ||| c == '\u{20}'
    ||| c == '\u{85}'
    ||| c == '\u{a0}'
    ||| c == '\u{1680}'
    ||| '\u{2000}' <= c <= '\u{200a}'
    ||| c == '\u{2028}'
    ||| c == '\u{2029}'
    ||| c == '\u{202f}'
    ||| c == '\u{205f}'
    ||| c == '\u{3000}'
}

/// Whether a character has the Unicode property White_Space.
pub fn is_white_space(c: char) -> (r: bool)
    ensures
        r == is_space(c),
{
    ('\u{9}' <= c && c <= '\u{d}') || c == '\u{20}' || c == '\u{85}' || c == '\u{a0}' || c == '\u{1680}'
        || ('\u{2000}' <= c && c <= '\u{200a}') || c == '\u{2028}' || c == '\u{2029}' || c == '\u{202f}'
        || c == '\u{205f}' || c == '\u{3000}'
}

/// Nothing but white space, or nothing at all.
pub open spec fn all_blank(s: Seq<char>) -> bool {
    forall|i: int| 0 <= i < s.len() ==> is_space(#[trigger] s[i])
}

/// Whether a string is empty once white space is trimmed off.
pub fn is_blank(text: &str) -> (blank: bool)
    ensures
        blank == all_blank(text@),
{
    let chars = chars_of(text);
    let mut i: usize = 0;
    while i < chars.len()
        invariant
            i <= chars@.len(),
            chars@ == text@,
            forall|j: int| 0 <= j < i ==> is_space(#[trigger] chars@[j]),
        decreases chars@.len() - i,
    {
        if !is_white_space(chars[i]) {
            return false;
        }
        i = i + 1;
    }
    true
}

/// `core` is `s` without the white space at both ends.
pub open spec fn is_trimmed_of(core: Seq<char>, s: Seq<char>) -> bool {
    exists|from: int, to: int| #[trigger] trims_to(s, from, to) && core == s.subrange(from, to)
}

/// White space fills `s` before `from` and from `to` on, and neither end of `s[from..to]` is blank.
pub open spec fn trims_to(s: Seq<char>, from: int, to: int) -> bool {
    &&& 0 <= from <= to <= s.len()
    &&& all_blank(s.subrange(0, from))
    &&& all_blank(s.subrange(to, s.len() as int))
    &&& from < to ==> !is_space(s[from]) && !is_space(s[to - 1])
}

/// A text without the white space at both ends.
pub open spec fn trimmed_text(s: Seq<char>) -> Seq<char> {
    choose|core: Seq<char>| is_trimmed_of(core, s)
}

proof fn lemma_trimmed_once(s: Seq<char>, from: int, to: int, start: int, end: int)
    requires
        trims_to(s, from, to),
        trims_to(s, start, end),
    ensures
        s.subrange(from, to) == s.subrange(start, end),
{
    if from < to {
        if start > from {
            assert(s.subrange(0, start)[from] == s[from]);
        }
        if end < to {
            assert(s.subrange(end, s.len() as int)[to - 1 - end] == s[to - 1]);
        }
    }
    if start < end {
        if from > start {
            assert(s.subrange(0, from)[start] == s[start]);
        }
        if to < end {
            assert(s.subrange(to, s.len() as int)[end - 1 - to] == s[end - 1]);
        }
    }
    assert(s.subrange(from, to) =~= s.subrange(start, end));
}

/// A string without the white space at both ends.
pub fn trimmed(text: &str) -> (core: String)
    ensures
        core@ == trimmed_text(text@),
        is_trimmed_of(core@, text@),
{
    let chars = chars_of(text);
    let mut from: usize = 0;
    while from < chars.len() && is_white_space(chars[from])
        invariant
            from <= chars@.len(),
            all_blank(chars@.subrange(0, from as int)),
        decreases chars@.len() - from,
    {
        assert(chars@.subrange(0, from + 1) =~= chars@.subrange(0, from as int).push(chars@[from as int]));
        from = from + 1;
    }
    let mut to: usize = chars.len();
    while from < to && is_white_space(chars[to - 1])
        invariant
            from <= to <= chars@.len(),
            all_blank(chars@.subrange(to as int, chars@.len() as int)),
        decreases to,
    {
        let ghost rest = chars@.subrange(to as int, chars@.len() as int);
        assert(chars@.subrange(to - 1, chars@.len() as int) =~= seq![chars@[to - 1]] + rest);
        to = to - 1;
    }
    assert(trims_to(text@, from as int, to as int));
    let core = text_of(&chars, from, to);
    proof {
        assert(is_trimmed_of(core@, text@));
        let other = trimmed_text(text@);
        let (start, end) = choose|start: int, end: int|
            #[trigger] trims_to(text@, start, end) && other == text@.subrange(start, end);
        lemma_trimmed_once(text@, from as int, to as int, start, end);
    }
    core
}

// ---------------------------------------------------------------------------
// Decimal numbers
// ---------------------------------------------------------------------------

/// The character of a decimal digit.
pub open spec fn digit(d: nat) -> char {
    (('0' as u8) + d) as char
}

/// A natural number in decimal, without leading zeros.
pub open spec fn decimal(n: nat) -> Seq<char>
    decreases n,
{
    if n < 10 {
        seq![digit(n)]
    } else {
        decimal(n / 10).push(digit(n % 10))
    }
}

/// An integer in decimal, with a minus sign where it is negative.
pub open spec fn signed_decimal(n: int) -> Seq<char> {
    if n < 0 {
        seq!['-'] + decimal((-n) as nat)
    } else {
        decimal(n as nat)
    }
}

fn push_decimal(out: &mut String, n: u64)
    ensures
        final(out)@ == old(out)@ + decimal(n as nat),
    decreases n,
{
    if n >= 10 {
        push_decimal(out, n / 10);
    }
    let d: u8 = (n % 10) as u8;
    out.push(('0' as u8 + d) as char);
}

/// A natural number in decimal.
pub fn number_text(n: u64) -> (text: String)
    ensures
        text@ == decimal(n as nat),
{
    let mut text = String::new();
    push_decimal(&mut text, n);
    text
}

/// An integer in decimal.
pub fn integer_text(n: i32) -> (text: String)
    ensures
        text@ == signed_decimal(n as int),
{
    let mut text = String::new();
    if n < 0 {
        text.push('-');
        push_decimal(&mut text, (-(n as i64)) as u64);
    } else {
        push_decimal(&mut text, n as u64);
    }
    text
}

/// The number that a row of decimal digits stands for.
pub open spec fn digits_value(s: Seq<char>) -> int
    decreases s.len(),
{
    if s.len() == 0 {
        0
    } else {
        digits_value(s.drop_last()) * 10 + (s.last() as int - '0' as int)
    }
}

/// One or more ASCII digits and nothing else.
pub open spec fn all_digits(s: Seq<char>) -> bool {
    &&& s.len() > 0
    &&& forall|i: int| 0 <= i < s.len() ==> '0' <= #[trigger] s[i] <= '9'
}

/// The integer that `s` spells in decimal, where it lies between `low` and `high`: digits, after a plus
/// sign or, where `low` is negative, a minus sign, or after no sign.
pub open spec fn parsed_integer(s: Seq<char>, low: int, high: int) -> Option<int> {
    let minus = low < 0 && s.len() > 0 && s[0] == '-';
    let plus = s.len() > 0 && s[0] == '+';
    let digits = if minus || plus {
        s.drop_first()
    } else {
        s
    };
    let value = if minus {
        -digits_value(digits)
    } else {
        digits_value(digits)
    };
    if all_digits(digits) && low <= value <= high {
        Some(value)
    } else {
        None
    }
}

/// The number that the digits from `start` on stand for, capped where it is out of any use; `None` where
/// something else than digits stands there.
fn read_digits(chars: &Vec<char>, start: usize) -> (r: Option<i64>)
    requires
        start <= chars@.len(),
    ensures
        r is Some <==> all_digits(chars@.skip(start as int)),
        r matches Some(v) ==> 0 <= v <= 0x2_0000_0000 && (v == digits_value(chars@.skip(start as int)) || (v
            == 0x2_0000_0000 && digits_value(chars@.skip(start as int)) >= 0x2_0000_0000)),
{
    let ghost digits = chars@.skip(start as int);
    if start == chars.len() {
        return None;
    }
    let mut value: i64 = 0;
    let mut i: usize = start;
    while i < chars.len()
        invariant
            start <= i <= chars@.len(),
            digits == chars@.skip(start as int),
            forall|j: int| 0 <= j < i - start ==> '0' <= #[trigger] digits[j] <= '9',
            0 <= value <= 0x2_0000_0000,
            value == digits_value(digits.take(i - start)) || (value == 0x2_0000_0000
                && digits_value(digits.take(i - start)) >= 0x2_0000_0000),
        decreases chars@.len() - i,
    {
        let c = chars[i];
        assert(digits[i - start] == c);
        if !('0' <= c && c <= '9') {
            return None;
        }
        let d: i64 = (c as u8 - '0' as u8) as i64;
        proof {
            let longer = digits.take(i + 1 - start);
            assert(longer.drop_last() =~= digits.take(i - start));
            assert(longer.last() == c);
            assert(digits_value(longer) == digits_value(digits.take(i - start)) * 10 + d);
        }
        value = value * 10 + d;
        if value > 0x2_0000_0000 {
            value = 0x2_0000_0000;
        }
        i = i + 1;
    }
    assert(digits.take(digits.len() as int) =~= digits);
    Some(value)
}

/// The integer that `chars` spells in decimal between `low` and `high`, if it does.
pub fn parse_integer(chars: &Vec<char>, low: i64, high: i64) -> (r: Option<i64>)
    requires
        -0x1_0000_0000 <= low <= high <= 0x1_0000_0000,
    ensures
        parsed_integer(chars@, low as int, high as int) == (match r {
            Some(n) => Some(n as int),
            None => None,
        }),
{
    let minus = low < 0 && chars.len() > 0 && chars[0] == '-';
    let plus = chars.len() > 0 && chars[0] == '+';
    let start: usize = if minus || plus { 1 } else { 0 };
    assert(minus || plus ==> chars@.skip(start as int) =~= chars@.drop_first());
    assert(!(minus || plus) ==> chars@.skip(start as int) =~= chars@);
    let mut value: i64 = match read_digits(chars, start) {
        Some(value) => value,
        None => {
            return None;
        },
    };
    if minus {
        value = -value;
    }
    if low <= value && value <= high {
        Some(value)
    } else {
        None
    }
}

proof fn lemma_decimal_digits(n: nat)
    ensures
        all_digits(decimal(n)),
        digits_value(decimal(n)) == n,
    decreases n,
{
    if n < 10 {
        let s = seq![digit(n)];
        assert(s.drop_last() =~= Seq::<char>::empty());
        assert(digits_value(s.drop_last()) == 0);
    } else {
        lemma_decimal_digits(n / 10);
        assert(decimal(n).drop_last() =~= decimal(n / 10));
    }
}

/// A number written in decimal reads back as itself.
pub proof fn law_decimal_reads_back(n: int, low: int, high: int)
    requires
        low <= n <= high,
    ensures
        parsed_integer(signed_decimal(n), low, high) == Some(n),
        !signed_decimal(n).contains(':'),
{
    if n < 0 {
        lemma_decimal_digits((-n) as nat);
        assert(signed_decimal(n).drop_first() =~= decimal((-n) as nat));
        assert forall|i: int| 0 <= i < signed_decimal(n).len() implies signed_decimal(n)[i] != ':' by {
            if i > 0 {
                assert(signed_decimal(n)[i] == decimal((-n) as nat)[i - 1]);
            }
        }
    } else {
        lemma_decimal_digits(n as nat);
    }
}

/// What stands between blanks, and neither begins nor ends with one, is what trimming leaves.
pub(crate) proof fn lemma_trimmed_between(before: Seq<char>, core: Seq<char>, after: Seq<char>)
    requires
        core.len() > 0,
        !is_space(core[0]) && !is_space(core.last()),
        forall|i: int| 0 <= i < before.len() ==> is_space(#[trigger] before[i]),
        forall|i: int| 0 <= i < after.len() ==> is_space(#[trigger] after[i]),
    ensures
        trimmed_text(before + core + after) == core,
{
    let s = before + core + after;
    let from = before.len() as int;
    let to = from + core.len();
    assert(s.subrange(0, from) =~= before);
    assert(s.subrange(to, s.len() as int) =~= after);
    assert(s.subrange(from, to) =~= core);
    assert(trims_to(s, from, to));
    assert(is_trimmed_of(core, s));
    let other = trimmed_text(s);
    let (start, end) = choose|start: int, end: int| #[trigger] trims_to(s, start, end) && other == s.subrange(start, end);
    lemma_trimmed_once(s, from, to, start, end);
}

// ---------------------------------------------------------------------------
// Laws
// ---------------------------------------------------------------------------

/// Lower case changes the 26 capital letters of ASCII, each into its own small letter, and nothing else, wherever
/// they stand.
pub proof fn law_lower_case(c: char, s: Seq<char>, i: int)
    ensures
        'A' <= c <= 'Z' ==> lower(c) as int == c as int + 32,
        !('A' <= c <= 'Z') ==> lower(c) == c,
        lowered(s).len() == s.len(),
        0 <= i < s.len() ==> lowered(s)[i] == lower(s[i]),
{
}

/// A text holds another exactly where something stands before it and something after it.
pub proof fn law_text_is_found_where_it_stands(before: Seq<char>, pattern: Seq<char>, after: Seq<char>, at: int)
    ensures
        has_text(before + pattern + after, pattern),
        matches_at(before + pattern + after, pattern, before.len() as int),
        matches_at(before, pattern, at) ==> before.take(at) + pattern + before.skip(at + pattern.len()) == before,
{
    let text = before + pattern + after;
    assert(text.subrange(before.len() as int, (before.len() + pattern.len()) as int) =~= pattern);
    assert(matches_at(text, pattern, before.len() as int));
    if matches_at(before, pattern, at) {
        let other = before.take(at) + pattern + before.skip(at + pattern.len());
        assert forall|i: int| 0 <= i < before.len() implies other[i] == before[i] by {
            if at <= i < at + pattern.len() {
                assert(before.subrange(at, at + pattern.len())[i - at] == before[i]);
            }
        }
        assert(other =~= before);
    }
}

/// White space is what Unicode calls so: of ASCII the tab, the four line breaks and the space, and no letter, digit
/// or sign.
pub proof fn law_white_space(c: char)
    ensures
        (c as u32) < 0x80 ==> (is_space(c) <==> 9 <= c as u32 <= 13 || c as u32 == 32),
        0x80 <= c as u32 && c as u32 <= 0xff ==> (is_space(c) <==> c as u32 == 0x85 || c as u32 == 0xa0),
        0x100 <= c as u32 ==> (is_space(c) <==> c as u32 == 0x1680 || 0x2000 <= c as u32 <= 0x200a || c as u32 == 0x2028
            || c as u32 == 0x2029 || c as u32 == 0x202f || c as u32 == 0x205f || c as u32 == 0x3000),
{
}

/// A text is blank exactly where every character of it is white space.
pub proof fn law_blank_texts(s: Seq<char>, c: char)
    ensures
        all_blank(Seq::<char>::empty()),
        all_blank(s.push(c)) <==> all_blank(s) && is_space(c),
{
    if all_blank(s.push(c)) {
        assert forall|i: int| 0 <= i < s.len() implies is_space(#[trigger] s[i]) by {
            assert(s.push(c)[i] == s[i]);
        }
        assert(s.push(c)[s.len() as int] == c);
    }
}

/// Trimming takes the white space at both ends away, and nothing else.
pub proof fn law_trimming(before: Seq<char>, core: Seq<char>, after: Seq<char>)
    requires
        core.len() > 0,
        !is_space(core[0]) && !is_space(core.last()),
        forall|i: int| 0 <= i < before.len() ==> is_space(#[trigger] before[i]),
        forall|i: int| 0 <= i < after.len() ==> is_space(#[trigger] after[i]),
    ensures
        trimmed_text(before + core + after) == core,
{
    lemma_trimmed_between(before, core, after);
}

/// The digits of a number are its own: the last one is what is left over by ten, and those before it are the
/// digits of a tenth of it.
pub proof fn law_decimal_digits(n: nat)
    ensures
        n < 10 ==> decimal(n).len() == 1 && decimal(n)[0] as int == 48 + n,
        n >= 10 ==> decimal(n).last() as int == 48 + n % 10 && decimal(n).drop_last() == decimal(n / 10),
        all_digits(decimal(n)),
        signed_decimal(n as int) == decimal(n),
        n > 0 ==> signed_decimal(-(n as int)) == seq!['-'] + decimal(n),
{
    lemma_decimal_digits(n);
    if n >= 10 {
        assert(decimal(n).drop_last() =~= decimal(n / 10));
    }
}

/// Only digits are a number, at least one of them, wherever they come from.
pub proof fn law_digits(s: Seq<char>, c: char)
    ensures
        !all_digits(Seq::<char>::empty()),
        all_digits(s.push(c)) <==> (s.len() == 0 || all_digits(s)) && '0' <= c <= '9',
{
    if all_digits(s.push(c)) {
        assert forall|i: int| 0 <= i < s.len() implies '0' <= #[trigger] s[i] <= '9' by {
            assert(s.push(c)[i] == s[i]);
        }
        assert(s.push(c)[s.len() as int] == c);
    }
}

/// An integer is read from its digits, with or without a sign, exactly where it lies within the bounds: one that
/// does not, and a text with anything else in it, is none. A minus sign needs a lower bound below zero.
pub proof fn law_integers_are_read(n: nat, s: Seq<char>, low: int, high: int)
    ensures
        low <= n <= high ==> parsed_integer(decimal(n), low, high) == Some(n as int),
        !(low <= n <= high) ==> parsed_integer(decimal(n), low, high) is None,
        low <= n <= high ==> parsed_integer(seq!['+'] + decimal(n), low, high) == Some(n as int),
        low < 0 && low <= -(n as int) <= high ==> parsed_integer(seq!['-'] + decimal(n), low, high) == Some(-(n as int)),
        low >= 0 ==> parsed_integer(seq!['-'] + decimal(n), low, high) is None,
        parsed_integer(s, low, high) matches Some(v) ==> low <= v <= high && s.len() > 0 && (forall|i: int|
            1 <= i < s.len() ==> '0' <= #[trigger] s[i] <= '9') && ('0' <= s[0] <= '9' || s[0] == '+' || s[0] == '-'),
{
    lemma_decimal_digits(n);
    assert((seq!['+'] + decimal(n)).drop_first() =~= decimal(n));
    assert((seq!['-'] + decimal(n)).drop_first() =~= decimal(n));
    let minus = seq!['-'] + decimal(n);
    assert(minus[0] == '-');
    if parsed_integer(s, low, high) is Some {
        if (low < 0 && s.len() > 0 && s[0] == '-') || (s.len() > 0 && s[0] == '+') {
            assert forall|i: int| 1 <= i < s.len() implies '0' <= #[trigger] s[i] <= '9' by {
                assert(s.drop_first()[i - 1] == s[i]);
            }
        } else {
            assert('0' <= s[0] <= '9');
        }
    }
}

proof fn lemma_leading_zero(s: Seq<char>)
    ensures
        digits_value(seq!['0'] + s) == digits_value(s),
    decreases s.len(),
{
    let longer = seq!['0'] + s;
    if s.len() == 0 {
        assert(longer.drop_last() =~= Seq::<char>::empty());
        assert(longer.last() == '0');
        assert(digits_value(longer.drop_last()) == 0);
    } else {
        assert(longer.drop_last() =~= seq!['0'] + s.drop_last());
        assert(longer.last() == s.last());
        lemma_leading_zero(s.drop_last());
    }
}

/// Zeros before a number do not change it, with or without a sign before them.
pub proof fn law_leading_zeros(s: Seq<char>, sign: char, low: int, high: int)
    requires
        all_digits(s),
    ensures
        parsed_integer(seq!['0'] + s, low, high) == parsed_integer(s, low, high),
        sign == '+' || sign == '-' ==> parsed_integer(seq![sign] + (seq!['0'] + s), low, high) == parsed_integer(
            seq![sign] + s,
            low,
            high,
        ),
{
    assert((seq![sign] + (seq!['0'] + s)).drop_first() =~= seq!['0'] + s);
    assert((seq![sign] + s).drop_first() =~= s);
    assert((seq![sign] + (seq!['0'] + s))[0] == sign && (seq![sign] + s)[0] == sign);
    lemma_leading_zero(s);
    let longer = seq!['0'] + s;
    assert forall|i: int| 0 <= i < longer.len() implies '0' <= #[trigger] longer[i] <= '9' by {
        if i > 0 {
            assert(longer[i] == s[i - 1]);
        }
    }
    assert('0' <= s[0] <= '9');
}

/// Values, words and texts are seen as what they are.
pub proof fn law_outcomes_are_seen_as_they_are<T>(value: T, words: String)
    ensures
        told(Ok::<T, String>(value)) == Ok::<T, Seq<char>>(value),
        told(Err::<T, String>(words)) == Err::<T, Seq<char>>(words@),
        text_in(Some(words)) == Some(words@),
        text_in(None) is None,
{
}

}
