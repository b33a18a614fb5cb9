//! Encodings: Base64, UTF-16, lower-case hexadecimal, lossy UTF-8 and SHA-256.

use base64::Engine;
use vstd::prelude::*;
use vstd::string::*;
use vstd::utf8::*;

use crate::text::chars_of;

verus! {

// ---------------------------------------------------------------------------
// Base64
// ---------------------------------------------------------------------------

/// The text that `base64`'s standard engine gives for `data`.
pub uninterp spec fn base64_text(data: Seq<u8>) -> Seq<char>;

/// What `base64`'s standard engine makes of `text`: the bytes, or the words of its error.
pub uninterp spec fn base64_bytes(text: Seq<char>) -> Result<Seq<u8>, Seq<char>>;

/// `text` is Base64 for `data`.
pub open spec fn decodes_to(text: Seq<char>, data: Seq<u8>) -> bool {
    base64_bytes(text) == Ok::<Seq<u8>, Seq<char>>(data)
}

/// The characters of the standard Base64 alphabet, and the padding character.
pub open spec fn is_base64_char(c: char) -> bool {
    ||| 'A' <= c <= 'Z'
    ||| 'a' <= c <= 'z'
    ||| '0' <= c <= '9'
    ||| c == '+'
    ||| c == '/'
    ||| c == '='
}

/// A text in the standard Base64 alphabet.
pub open spec fn is_base64(text: Seq<char>) -> bool {
    forall|i: int| 0 <= i < text.len() ==> is_base64_char(#[trigger] text[i])
}

/// The number of characters that Base64 with padding takes for `n` bytes.
pub open spec fn base64_len(n: int) -> int {
    (n + 2) / 3 * 4
}

/// `base64::engine::general_purpose::STANDARD.encode`: the text is a function of the bytes, holds only
/// characters of the alphabet, four for every three bytes begun, and decodes to the bytes again. The
/// encoder panics where the text would not fit in memory: such lengths are left out.
#[verifier::external_body]
pub(crate) fn base64_encode(data: &[u8]) -> (text: String)
    requires
        base64_len(data@.len() as int) <= isize::MAX,
    ensures
        text@ == base64_text(data@),
        text@.len() == base64_len(data@.len() as int),
        is_base64(text@),
        decodes_to(text@, data@),
{
    base64::engine::general_purpose::STANDARD.encode(data)
}

/// `base64::engine::general_purpose::STANDARD.decode`: the bytes, or the words of the error, are a
/// function of the text.
#[verifier::external_body]
pub(crate) fn base64_decode(text: &str) -> (bytes: Result<Vec<u8>, String>)
    ensures
        match bytes {
            Ok(b) => base64_bytes(text@) matches Ok(c) && c == b@,
            Err(e) => base64_bytes(text@) matches Err(f) && f == e@,
        },
{
    base64::engine::general_purpose::STANDARD.decode(text).map_err(|error| error.to_string())
}

// ---------------------------------------------------------------------------
// Lossy UTF-8
// ---------------------------------------------------------------------------

/// The text that `String::from_utf8_lossy` gives for `bytes`.
pub uninterp spec fn lossy(bytes: Seq<u8>) -> Seq<char>;

/// `String::from_utf8_lossy`: the text is a function of the bytes, and where these are valid UTF-8 it is
/// the text that they encode. What stands in the text for other bytes is left unsaid.
#[verifier::external_body]
pub(crate) fn lossy_text(bytes: &[u8]) -> (text: String)
    ensures
        text@ == lossy(bytes@),
        valid_utf8(bytes@) ==> text@ == decode_utf8(bytes@),
{
    String::from_utf8_lossy(bytes).into_owned()
}

// ---------------------------------------------------------------------------
// UTF-16
// ---------------------------------------------------------------------------

/// The UTF-16 code units of one character: one, or a surrogate pair.
pub open spec fn utf16_of_char(c: char) -> Seq<u16> {
    if (c as u32) < 0x10000 {
        seq![c as u16]
    } else {
        seq![
            (0xD800 + (c as u32 - 0x10000) / 0x400) as u16,
            (0xDC00 + (c as u32 - 0x10000) % 0x400) as u16,
        ]
    }
}

/// The UTF-16 code units of a text.
pub open spec fn utf16_of(s: Seq<char>) -> Seq<u16>
    decreases s.len(),
{
    if s.len() == 0 {
        Seq::empty()
    } else {
        utf16_of(s.drop_last()) + utf16_of_char(s.last())
    }
}

proof fn lemma_char_range(c: char)
    ensures
        0 <= c as int <= 0x10FFFF,
        !(0xD800 <= c as int <= 0xDFFF),
{
}

/// Code units as bytes, the low byte of each first.
pub open spec fn little_endian(units: Seq<u16>) -> Seq<u8> {
    Seq::new(
        units.len() * 2,
        |i: int|
            if i % 2 == 0 {
                (units[i / 2] % 256) as u8
            } else {
                (units[i / 2] / 256) as u8
            },
    )
}

/// A text in UTF-16, each code unit with its low byte first.
pub open spec fn utf16le_of(s: Seq<char>) -> Seq<u8> {
    little_endian(utf16_of(s))
}

proof fn lemma_little_endian_push(units: Seq<u16>, unit: u16)
    ensures
        little_endian(units.push(unit)) == little_endian(units).push((unit % 256) as u8).push(
            (unit / 256) as u8,
        ),
{
    let longer = little_endian(units.push(unit));
    let pushed = little_endian(units).push((unit % 256) as u8).push((unit / 256) as u8);
    assert forall|i: int| 0 <= i < longer.len() implies longer[i] == pushed[i] by {
        if i < units.len() * 2 {
            assert(units.push(unit)[i / 2] == units[i / 2]);
        }
    }
    assert(longer =~= pushed);
}

fn push_unit(bytes: &mut Vec<u8>, unit: u16, units: Ghost<Seq<u16>>)
    requires
        old(bytes)@ == little_endian(units@),
    ensures
        final(bytes)@ == little_endian(units@.push(unit)),
{
    proof {
        lemma_little_endian_push(units@, unit);
    }
    bytes.push((unit % 256) as u8);
    bytes.push((unit / 256) as u8);
}

/// A text in UTF-16, each code unit with its low byte first.
pub fn utf16le(text: &str) -> (bytes: Vec<u8>)
    ensures
        bytes@ == utf16le_of(text@),
{
    let chars = chars_of(text);
    let mut bytes: Vec<u8> = Vec::new();
    let mut i: usize = 0;
    assert(bytes@ =~= utf16le_of(text@.take(0)));
    while i < chars.len()
        invariant
            i <= chars@.len(),
            chars@ == text@,
            bytes@ == utf16le_of(text@.take(i as int)),
        decreases chars@.len() - i,
    {
        let c = chars[i];
        let code: u32 = c as u32;
        proof {
            lemma_char_range(c);
        }
        let ghost before = utf16_of(text@.take(i as int));
        assert(text@.take(i + 1).drop_last() =~= text@.take(i as int));
        if code < 0x10000 {
            push_unit(&mut bytes, code as u16, Ghost(before));
            assert(before.push(code as u16) =~= before + utf16_of_char(c));
        } else {
            let high: u16 = (0xD800 + (code - 0x10000) / 0x400) as u16;
            let low: u16 = (0xDC00 + (code - 0x10000) % 0x400) as u16;
            push_unit(&mut bytes, high, Ghost(before));
            push_unit(&mut bytes, low, Ghost(before.push(high)));
            assert(before.push(high).push(low) =~= before + utf16_of_char(c));
        }
        i = i + 1;
    }
    assert(text@.take(text@.len() as int) =~= text@);
    bytes
}

/// The text that UTF-16 code units stand for, the last character first: `None` where a surrogate stands
/// alone.
pub open spec fn utf16_read(units: Seq<u16>) -> Option<Seq<char>>
    decreases units.len(),
{
    if units.len() == 0 {
        Some(Seq::empty())
    } else if 0xDC00 <= units.last() <= 0xDFFF {
        if units.len() >= 2 && 0xD800 <= units[units.len() - 2] <= 0xDBFF {
            match utf16_read(units.take(units.len() - 2)) {
                Some(s) => Some(
                    s.push(
                        (0x10000 + (units[units.len() - 2] - 0xD800) * 0x400 + (units.last() - 0xDC00)) as char,
                    ),
                ),
                None => None,
            }
        } else {
            None
        }
    } else if 0xD800 <= units.last() <= 0xDBFF {
        None
    } else {
        match utf16_read(units.drop_last()) {
            Some(s) => Some(s.push(units.last() as char)),
            None => None,
        }
    }
}

/// UTF-16 loses nothing: the code units of a text read back as the text.
pub proof fn law_utf16_reads_back(s: Seq<char>)
    ensures
        utf16_read(utf16_of(s)) == Some(s),
    decreases s.len(),
{
    if s.len() > 0 {
        let c = s.last();
        let rest = utf16_of(s.drop_last());
        let units = utf16_of(s);
        lemma_char_range(c);
        law_utf16_reads_back(s.drop_last());
        assert(s.drop_last().push(c) =~= s);
        if (c as u32) < 0x10000 {
            assert(units.drop_last() =~= rest);
            assert(units.last() == c as u16);
            assert(units.last() as char == c);
        } else {
            assert(units.take(units.len() - 2) =~= rest);
            assert(0x10000 + (units[units.len() - 2] - 0xD800) * 0x400 + (units.last() - 0xDC00) == c as int);
        }
    } else {
        assert(s =~= Seq::empty());
    }
}

/// The bytes of a UTF-16 text tell its code units.
pub proof fn law_little_endian_tells_units(a: Seq<u16>, b: Seq<u16>)
    requires
        little_endian(a) == little_endian(b),
    ensures
        a == b,
{
    assert(little_endian(a).len() == a.len() * 2 && little_endian(b).len() == b.len() * 2);
    assert forall|i: int| 0 <= i < a.len() implies a[i] == b[i] by {
        assert(little_endian(a)[i * 2] == (a[i] % 256) as u8);
        assert(little_endian(a)[i * 2 + 1] == (a[i] / 256) as u8);
        assert(little_endian(b)[i * 2] == (b[i] % 256) as u8);
        assert(little_endian(b)[i * 2 + 1] == (b[i] / 256) as u8);
    }
    assert(a =~= b);
}

// ---------------------------------------------------------------------------
// Hexadecimal
// ---------------------------------------------------------------------------

/// A lower-case hexadecimal digit.
pub open spec fn hex_digit(d: nat) -> char {
    if d < 10 {
        (('0' as u8) + d) as char
    } else {
        (('a' as u8) + (d - 10)) as char
    }
}

/// Bytes in lower-case hexadecimal, two digits each.
pub open spec fn hex_of(bytes: Seq<u8>) -> Seq<char> {
    Seq::new(
        bytes.len() * 2,
        |i: int|
            if i % 2 == 0 {
                hex_digit((bytes[i / 2] / 16) as nat)
            } else {
                hex_digit((bytes[i / 2] % 16) as nat)
            },
    )
}

fn hex_char(d: u8) -> (c: char)
    requires
        d < 16,
    ensures
        c == hex_digit(d as nat),
{
    if d < 10 {
        ('0' as u8 + d) as char
    } else {
        ('a' as u8 + (d - 10)) as char
    }
}

/// Bytes in lower-case hexadecimal, two digits each.
pub fn hex_text(bytes: &[u8]) -> (text: String)
    ensures
        text@ == hex_of(bytes@),
{
    let mut text = String::new();
    let mut i: usize = 0;
    while i < bytes.len()
        invariant
            i <= bytes@.len(),
            text@ == hex_of(bytes@.take(i as int)),
        decreases bytes@.len() - i,
    {
        let b: u8 = bytes[i];
        text.push(hex_char(b / 16));
        text.push(hex_char(b % 16));
        proof {
            let longer = hex_of(bytes@.take(i + 1));
            assert forall|j: int| 0 <= j < longer.len() implies longer[j] == text@[j] by {
                if j < i * 2 {
                    assert(bytes@.take(i + 1)[j / 2] == bytes@.take(i as int)[j / 2]);
                }
            }
            assert(text@ =~= longer);
        }
        i = i + 1;
    }
    assert(bytes@.take(bytes@.len() as int) =~= bytes@);
    text
}

// ---------------------------------------------------------------------------
// SHA-256
// ---------------------------------------------------------------------------

/// A running SHA-256 computation, held by the `sha2` crate.
#[verifier::external_body]
pub struct Hasher {
    inner: sha2::Sha256,
}

/// The bytes that a running computation has taken in so far.
pub uninterp spec fn hashed_so_far(hasher: Hasher) -> Seq<u8>;

/// The SHA-256 digest of `data`, as the `sha2` crate computes it.
pub uninterp spec fn sha256(data: Seq<u8>) -> Seq<u8>;

/// `sha2::Sha256::new`: nothing has been taken in.
#[verifier::external_body]
pub(crate) fn sha256_new() -> (hasher: Hasher)
    ensures
        hashed_so_far(hasher) == Seq::<u8>::empty(),
{
    Hasher { inner: sha2::Digest::new() }
}

/// `sha2::Sha256::update`: the bytes are taken in after those before.
#[verifier::external_body]
pub(crate) fn sha256_update(hasher: &mut Hasher, data: &[u8])
    ensures
        hashed_so_far(*final(hasher)) == hashed_so_far(*old(hasher)) + data@,
{
    sha2::Digest::update(&mut hasher.inner, data)
}

/// `sha2::Sha256::finalize`: the digest of all the bytes taken in, thirty-two bytes long.
#[verifier::external_body]
pub(crate) fn sha256_finalize(hasher: Hasher) -> (digest: Vec<u8>)
    ensures
        digest@ == sha256(hashed_so_far(hasher)),
        digest@.len() == 32,
{
    sha2::Digest::finalize(hasher.inner).to_vec()
}

/// The fingerprint of a file that is read piece by piece: its SHA-256 in hexadecimal.
pub struct FileHasher {
    hasher: Hasher,
}

impl FileHasher {
    /// The bytes read so far.
    pub closed spec fn read(&self) -> Seq<u8> {
        hashed_so_far(self.hasher)
    }

    /// Nothing has been read.
    pub fn new() -> (r: FileHasher)
        ensures
            r.read() == Seq::<u8>::empty(),
    {
        FileHasher { hasher: sha256_new() }
    }

    /// The next piece of the file.
    pub fn update(&mut self, piece: &[u8])
        ensures
            final(self).read() == old(self).read() + piece@,
    {
        sha256_update(&mut self.hasher, piece);
    }

    /// The digest of everything read, in lower-case hexadecimal.
    pub fn finish(self) -> (text: String)
        ensures
            text@ == hex_of(sha256(self.read())),
            text@.len() == 64,
    {
        let digest = sha256_finalize(self.hasher);
        hex_text(digest.as_slice())
    }
}

/// The answer to a password challenge: the digest of the challenge after the digest of the salted
/// password.
pub open spec fn challenge_answer(password: Seq<char>, salt: Seq<char>, challenge: Seq<char>) -> Seq<u8> {
    sha256(sha256(encode_utf8(password) + encode_utf8(salt)) + encode_utf8(challenge))
}

/// The answer to a password challenge, which the login request carries in place of the password.
pub fn password_response(password: &str, salt: &str, challenge: &str) -> (answer: Vec<u8>)
    ensures
        answer@ == challenge_answer(password@, salt@, challenge@),
        answer@.len() == 32,
{
    let mut inner = sha256_new();
    sha256_update(&mut inner, password.as_bytes());
    sha256_update(&mut inner, salt.as_bytes());
    let salted = sha256_finalize(inner);
    let mut outer = sha256_new();
    sha256_update(&mut outer, salted.as_slice());
    sha256_update(&mut outer, challenge.as_bytes());
    assert(Seq::<u8>::empty() + encode_utf8(password@) =~= encode_utf8(password@));
    assert(Seq::<u8>::empty() + salted@ =~= salted@);
    sha256_finalize(outer)
}

// ---------------------------------------------------------------------------
// Random identifiers
// ---------------------------------------------------------------------------

/// A lower-case hexadecimal digit.
pub open spec fn is_hex_digit(c: char) -> bool {
    ('0' <= c <= '9') || ('a' <= c <= 'f')
}

/// `uuid::Uuid::new_v4` in its simple form: thirty-two lower-case hexadecimal digits, chosen at random.
#[verifier::external_body]
pub(crate) fn random_simple_id() -> (id: String)
    ensures
        id@.len() == 32,
        forall|i: int| 0 <= i < 32 ==> is_hex_digit(#[trigger] id@[i]),
{
    uuid::Uuid::new_v4().simple().to_string()
}

/// The hyphenated form of an identifier: thirty-six characters, hyphens after eight, twelve, sixteen and
/// twenty of the hexadecimal digits.
pub open spec fn is_hyphenated_id(id: Seq<char>) -> bool {
    &&& id.len() == 36
    &&& forall|i: int|
        0 <= i < 36 ==> if i == 8 || i == 13 || i == 18 || i == 23 {
            #[trigger] id[i] == '-'
        } else {
            is_hex_digit(id[i])
        }
}

/// `uuid::Uuid::new_v4` in its hyphenated form: thirty-six characters, hyphens after eight, twelve,
/// sixteen and twenty of the random hexadecimal digits.
#[verifier::external_body]
pub(crate) fn random_hyphenated_id() -> (id: String)
    ensures
        is_hyphenated_id(id@),
{
    uuid::Uuid::new_v4().to_string()
}

// ---------------------------------------------------------------------------
// Laws
// ---------------------------------------------------------------------------

/// The answer to a challenge is the digest of the digest of the password and the salt, followed by the challenge.
pub proof fn law_challenges_are_answered(password: Seq<char>, salt: Seq<char>, challenge: Seq<char>)
    ensures
        challenge_answer(password, salt, challenge) == sha256(
            sha256(encode_utf8(password) + encode_utf8(salt)) + encode_utf8(challenge),
        ),
{
}

/// Hexadecimal tells the bytes: two digits for each, the high one first, the letters in lower case.
pub proof fn law_hexadecimal_tells_the_bytes(bytes: Seq<u8>, i: int)
    requires
        0 <= i < bytes.len(),
    ensures
        hex_of(bytes).len() == 2 * bytes.len(),
        is_hex_digit(hex_of(bytes)[2 * i]) && is_hex_digit(hex_of(bytes)[2 * i + 1]),
        16 * hex_value(hex_of(bytes)[2 * i]) + hex_value(hex_of(bytes)[2 * i + 1]) == bytes[i],
{
    assert((2 * i) / 2 == i && (2 * i) % 2 == 0);
    assert((2 * i + 1) / 2 == i && (2 * i + 1) % 2 == 1);
}

/// The value of a hexadecimal digit.
pub open spec fn hex_value(c: char) -> int {
    if '0' <= c <= '9' {
        c as int - 48
    } else {
        c as int - 87
    }
}

/// Random identifiers are made of hexadecimal digits, in groups of eight, four, four, four and twelve where they
/// have hyphens.
pub proof fn law_identifiers_are_hexadecimal(id: Seq<char>, i: int)
    requires
        is_hyphenated_id(id),
        0 <= i < 36,
    ensures
        id.len() == 36,
        i == 8 || i == 13 || i == 18 || i == 23 ==> id[i] == '-',
        i != 8 && i != 13 && i != 18 && i != 23 ==> ('0' <= id[i] <= '9' || 'a' <= id[i] <= 'f'),
{
    assert(id[i] == id[i]);
}

/// Every code unit of a text takes two bytes, the low one first.
pub proof fn law_low_byte_comes_first(s: Seq<char>, i: int)
    requires
        0 <= i < utf16_of(s).len(),
    ensures
        utf16le_of(s).len() == 2 * utf16_of(s).len(),
        utf16le_of(s)[2 * i] as int + 256 * utf16le_of(s)[2 * i + 1] as int == utf16_of(s)[i] as int,
{
}

}
