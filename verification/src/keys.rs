//! Keys of the local keyboard as the bytes that a terminal sends for them.

use vstd::prelude::*;
use vstd::string::*;
use vstd::utf8::*;

use crate::text::{lower, to_lower};

verus! {

/// A key.
#[derive(Clone, Copy, Debug, PartialEq, Eq, Structural)]
pub enum Key {
    Char(char),
    Enter,
    Backspace,
    Tab,
    Esc,
    Up,
    Down,
    Right,
    Left,
    Home,
    End,
    PageUp,
    PageDown,
    Delete,
    Insert,
    F(u8),
    Other,
}

/// An ASCII letter, of either case.
pub open spec fn is_letter(c: char) -> bool {
    ('a' <= c <= 'z') || ('A' <= c <= 'Z')
}

/// Whether a character is an ASCII letter.
pub fn is_ascii_letter(c: char) -> (r: bool)
    ensures
        r == is_letter(c),
{
    ('a' <= c && c <= 'z') || ('A' <= c && c <= 'Z')
}

/// The byte of Control and a letter: its place in the alphabet.
pub open spec fn control_byte(c: char) -> u8 {
    (lower(c) as u8 - 'a' as u8 + 1) as u8
}

/// The byte of Control and a letter.
pub fn control_letter(c: char) -> (b: u8)
    requires
        is_letter(c),
    ensures
        b == control_byte(c),
        1 <= b <= 26,
{
    (to_lower(c) as u8) - ('a' as u8) + 1
}

/// The byte of Control and any character. One without a control code gives the low byte of its number.
pub open spec fn control_code(c: char) -> u8 {
    if is_letter(c) {
        control_byte(c)
    } else if c == '[' {
        0x1b
    } else if c == ']' {
        0x1d
    } else if c == '\\' {
        0x1c
    } else if c == '^' {
        0x1e
    } else {
        (c as u32 % 256) as u8
    }
}

/// The bytes of a function key.
pub open spec fn function_key(n: u8) -> Seq<u8> {
    if n == 1 {
        seq![0x1bu8, 'O' as u8, 'P' as u8]
    } else if n == 2 {
        seq![0x1bu8, 'O' as u8, 'Q' as u8]
    } else if n == 3 {
        seq![0x1bu8, 'O' as u8, 'R' as u8]
    } else if n == 4 {
        seq![0x1bu8, 'O' as u8, 'S' as u8]
    } else if n == 5 {
        seq![0x1bu8, '[' as u8, '1' as u8, '5' as u8, '~' as u8]
    } else if n == 6 {
        seq![0x1bu8, '[' as u8, '1' as u8, '7' as u8, '~' as u8]
    } else if n == 7 {
        seq![0x1bu8, '[' as u8, '1' as u8, '8' as u8, '~' as u8]
    } else if n == 8 {
        seq![0x1bu8, '[' as u8, '1' as u8, '9' as u8, '~' as u8]
    } else if n == 9 {
        seq![0x1bu8, '[' as u8, '2' as u8, '0' as u8, '~' as u8]
    } else if n == 10 {
        seq![0x1bu8, '[' as u8, '2' as u8, '1' as u8, '~' as u8]
    } else if n == 11 {
        seq![0x1bu8, '[' as u8, '2' as u8, '3' as u8, '~' as u8]
    } else if n == 12 {
        seq![0x1bu8, '[' as u8, '2' as u8, '4' as u8, '~' as u8]
    } else {
        Seq::empty()
    }
}

/// The bytes of a key. Control goes before Alt; Alt puts an escape before a character; both do nothing to
/// other keys.
pub open spec fn key_bytes(key: Key, ctrl: bool, alt: bool) -> Seq<u8> {
    match key {
        Key::Char(c) => if ctrl {
            seq![control_code(c)]
        } else if alt {
            seq![0x1bu8] + encode_utf8(seq![c])
        } else {
            encode_utf8(seq![c])
        },
        Key::Enter => seq![13u8],
        Key::Backspace => seq![0x7fu8],
        Key::Tab => seq![9u8],
        Key::Esc => seq![0x1bu8],
        Key::Up => seq![0x1bu8, '[' as u8, 'A' as u8],
        Key::Down => seq![0x1bu8, '[' as u8, 'B' as u8],
        Key::Right => seq![0x1bu8, '[' as u8, 'C' as u8],
        Key::Left => seq![0x1bu8, '[' as u8, 'D' as u8],
        Key::Home => seq![0x1bu8, '[' as u8, 'H' as u8],
        Key::End => seq![0x1bu8, '[' as u8, 'F' as u8],
        Key::PageUp => seq![0x1bu8, '[' as u8, '5' as u8, '~' as u8],
        Key::PageDown => seq![0x1bu8, '[' as u8, '6' as u8, '~' as u8],
        Key::Delete => seq![0x1bu8, '[' as u8, '3' as u8, '~' as u8],
        Key::Insert => seq![0x1bu8, '[' as u8, '2' as u8, '~' as u8],
        Key::F(n) => function_key(n),
        Key::Other => Seq::empty(),
    }
}

/// An escape, a bracket and one more character.
fn arrow(last: char) -> (bytes: Vec<u8>)
    requires
        last < '\u{80}',
    ensures
        bytes@ == seq![0x1bu8, '[' as u8, last as u8],
{
    let bytes = vec![0x1bu8, '[' as u8, last as u8];
    assert(bytes@ =~= seq![0x1bu8, '[' as u8, last as u8]);
    bytes
}

/// An escape, a bracket, a digit and a tilde.
fn pad(digit: char) -> (bytes: Vec<u8>)
    requires
        digit < '\u{80}',
    ensures
        bytes@ == seq![0x1bu8, '[' as u8, digit as u8, '~' as u8],
{
    let bytes = vec![0x1bu8, '[' as u8, digit as u8, '~' as u8];
    assert(bytes@ =~= seq![0x1bu8, '[' as u8, digit as u8, '~' as u8]);
    bytes
}

/// An escape, a bracket, two digits and a tilde.
fn two_digits(tens: char, ones: char) -> (bytes: Vec<u8>)
    requires
        tens < '\u{80}',
        ones < '\u{80}',
    ensures
        bytes@ == seq![0x1bu8, '[' as u8, tens as u8, ones as u8, '~' as u8],
{
    let bytes = vec![0x1bu8, '[' as u8, tens as u8, ones as u8, '~' as u8];
    assert(bytes@ =~= seq![0x1bu8, '[' as u8, tens as u8, ones as u8, '~' as u8]);
    bytes
}

/// An escape, the letter O and one more letter.
fn shifted(last: char) -> (bytes: Vec<u8>)
    requires
        last < '\u{80}',
    ensures
        bytes@ == seq![0x1bu8, 'O' as u8, last as u8],
{
    let bytes = vec![0x1bu8, 'O' as u8, last as u8];
    assert(bytes@ =~= seq![0x1bu8, 'O' as u8, last as u8]);
    bytes
}

/// One byte.
fn byte(b: u8) -> (bytes: Vec<u8>)
    ensures
        bytes@ == seq![b],
{
    let bytes = vec![b];
    assert(bytes@ =~= seq![b]);
    bytes
}

fn function_bytes(n: u8) -> (bytes: Vec<u8>)
    ensures
        bytes@ == function_key(n),
{
    match n {
        1 => shifted('P'),
        2 => shifted('Q'),
        3 => shifted('R'),
        4 => shifted('S'),
        5 => two_digits('1', '5'),
        6 => two_digits('1', '7'),
        7 => two_digits('1', '8'),
        8 => two_digits('1', '9'),
        9 => two_digits('2', '0'),
        10 => two_digits('2', '1'),
        11 => two_digits('2', '3'),
        12 => two_digits('2', '4'),
        _ => Vec::new(),
    }
}

fn control_bytes(c: char) -> (bytes: Vec<u8>)
    ensures
        bytes@ == seq![control_code(c)],
{
    if is_ascii_letter(c) {
        byte(control_letter(c))
    } else {
        match c {
            '[' => byte(0x1b),
            ']' => byte(0x1d),
            '\\' => byte(0x1c),
            '^' => byte(0x1e),
            _ => byte((c as u32 % 256) as u8),
        }
    }
}

fn char_bytes(c: char) -> (bytes: Vec<u8>)
    ensures
        bytes@ == encode_utf8(seq![c]),
{
    let mut text = String::new();
    text.push(c);
    assert(text@ =~= seq![c]);
    text.as_str().as_bytes_vec()
}

/// The bytes of a key.
pub fn key_event_to_bytes(key: Key, ctrl: bool, alt: bool) -> (bytes: Vec<u8>)
    ensures
        bytes@ == key_bytes(key, ctrl, alt),
{
    match key {
        Key::Char(c) => {
            if ctrl {
                control_bytes(c)
            } else if alt {
                let mut bytes = byte(0x1b);
                let mut rest = char_bytes(c);
                bytes.append(&mut rest);
                bytes
            } else {
                char_bytes(c)
            }
        },
        Key::Enter => byte(13),
        Key::Backspace => byte(0x7f),
        Key::Tab => byte(9),
        Key::Esc => byte(0x1b),
        Key::Up => arrow('A'),
        Key::Down => arrow('B'),
        Key::Right => arrow('C'),
        Key::Left => arrow('D'),
        Key::Home => arrow('H'),
        Key::End => arrow('F'),
        Key::PageUp => pad('5'),
        Key::PageDown => pad('6'),
        Key::Delete => pad('3'),
        Key::Insert => pad('2'),
        Key::F(n) => function_bytes(n),
        Key::Other => Vec::new(),
    }
}

/// Control and a letter give one byte, whatever the letter's case and whether Alt is down; different
/// letters give different bytes.
pub proof fn law_control_letters(c: char, d: char, alt: bool)
    requires
        is_letter(c),
        is_letter(d),
    ensures
        key_bytes(Key::Char(c), true, alt) == seq![control_byte(c)],
        1 <= control_byte(c) <= 26,
        control_byte(c) == control_byte(d) <==> lower(c) == lower(d),
{
}

/// A character is sent as itself, in UTF-8; Alt puts an escape before it and nothing else.
pub proof fn law_characters_are_sent_as_they_are(c: char)
    ensures
        decode_utf8(key_bytes(Key::Char(c), false, false)) == seq![c],
        key_bytes(Key::Char(c), false, true) == seq![27u8] + key_bytes(Key::Char(c), false, false),
{
    encode_utf8_decode_utf8(seq![c]);
}

/// Control and a letter is the letter's place in the alphabet; the four signs that have a control code have theirs,
/// and any other character of one byte stays itself.
pub proof fn law_control_codes(c: char, alt: bool)
    ensures
        key_bytes(Key::Char(c), true, alt).len() == 1,
        'a' <= c <= 'z' ==> key_bytes(Key::Char(c), true, alt)[0] as int == c as int - 96,
        'A' <= c <= 'Z' ==> key_bytes(Key::Char(c), true, alt)[0] as int == c as int - 64,
        c == '[' || c == '\\' || c == ']' || c == '^' ==> key_bytes(Key::Char(c), true, alt)[0] as int == c as int - 64,
        !is_letter(c) && c != '[' && c != '\\' && c != ']' && c != '^' ==> key_bytes(Key::Char(c), true, alt)[0] as int
            == c as int % 256,
{
}

/// The keys without a character are sent as terminals send them, whatever else is held down.
pub proof fn law_other_keys_are_sent_as_terminals_do(ctrl: bool, alt: bool, n: u8)
    ensures
        ({
            let sent = |key: Key| key_bytes(key, ctrl, alt);
            &&& sent(Key::Enter) == seq![13u8] && sent(Key::Tab) == seq![9u8] && sent(Key::Esc) == seq![27u8] && sent(
                Key::Backspace,
            ) == seq![127u8]
            &&& sent(Key::Up) == seq![27u8, 91u8, 65u8] && sent(Key::Down) == seq![27u8, 91u8, 66u8]
            &&& sent(Key::Right) == seq![27u8, 91u8, 67u8] && sent(Key::Left) == seq![27u8, 91u8, 68u8]
            &&& sent(Key::Home) == seq![27u8, 91u8, 72u8] && sent(Key::End) == seq![27u8, 91u8, 70u8]
            &&& sent(Key::Insert) == seq![27u8, 91u8, 50u8, 126u8] && sent(Key::Delete) == seq![27u8, 91u8, 51u8, 126u8]
            &&& sent(Key::PageUp) == seq![27u8, 91u8, 53u8, 126u8] && sent(Key::PageDown) == seq![
                27u8,
                91u8,
                54u8,
                126u8,
            ]
            &&& sent(Key::Other).len() == 0
            &&& 1 <= n <= 4 ==> sent(Key::F(n)) == seq![27u8, 79u8, (79 + n) as u8]
            &&& n == 5 ==> sent(Key::F(n)) == seq![27u8, 91u8, 49u8, 53u8, 126u8]
            &&& 6 <= n <= 8 ==> sent(Key::F(n)) == seq![27u8, 91u8, 49u8, (49 + n) as u8, 126u8]
            &&& 9 <= n <= 10 ==> sent(Key::F(n)) == seq![27u8, 91u8, 50u8, (39 + n) as u8, 126u8]
            &&& 11 <= n <= 12 ==> sent(Key::F(n)) == seq![27u8, 91u8, 50u8, (40 + n) as u8, 126u8]
            &&& n == 0 || n > 12 ==> sent(Key::F(n)).len() == 0
        }),
{
}

}
