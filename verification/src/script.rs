//! The scripts that run one command on the remote device and print its result as a frame.

use vstd::prelude::*;
use vstd::string::*;
use vstd::utf8::*;

use crate::codec::{
    base64_encode, base64_len, base64_text, decodes_to, is_base64, is_base64_char, is_hex_digit, random_simple_id, utf16_of, utf16le,
    utf16le_of,
};
use crate::text::{chars_of, contains, has_text, lowered, lowered_chars, matches_at};

verus! {

/// What the POSIX script does before it runs the command: it makes two files for the output.
pub const POSIX_HEAD: &'static str = "unset HISTFILE; set +e; __rs_o=$(mktemp \"${TMPDIR:-/tmp}/rustshell-out.XXXXXX\"); \
     __rs_e=$(mktemp \"${TMPDIR:-/tmp}/rustshell-err.XXXXXX\"); /bin/sh -c ";

/// What runs the command, up to the marker.
pub const POSIX_RUN: &'static str = " >\"$__rs_o\" 2>\"$__rs_e\"; __rs_c=$?; printf '\\n";

/// What prints the rest of the frame.
pub const POSIX_REPORT: &'static str = ":%s:' \"$__rs_c\"; base64 <\"$__rs_o\" | tr -d '\\r\\n'; printf ':'; base64 <\"$__rs_e\" | tr \
     -d '\\r\\n'; rm -f \"$__rs_o\" \"$__rs_e\"; printf ':END\\n'";

/// What the inner PowerShell script does before it decodes the command.
pub const USER_HEAD: &'static str = "$ErrorActionPreference='Continue'; $ProgressPreference='SilentlyContinue'; \
     $__rs_utf8=New-Object Text.UTF8Encoding $false; [Console]::OutputEncoding=$__rs_utf8; \
     [Console]::InputEncoding=$__rs_utf8; $OutputEncoding=$__rs_utf8; $global:LASTEXITCODE=$null; \
     $__rs_cmd=[Text.Encoding]::UTF8.GetString([Convert]::FromBase64String('";

/// What runs the decoded command and passes its exit code on.
pub const USER_TAIL: &'static str = "')); try { & ([ScriptBlock]::Create($__rs_cmd)); if ($null -ne $LASTEXITCODE) { exit \
     $LASTEXITCODE }; if ($?) { exit 0 } else { exit 1 } } catch { \
     [Console]::Error.WriteLine($_.ToString()); exit 1 }";

/// What the outer PowerShell script does before the inner script.
pub const OUTER_HEAD: &'static str = "$ErrorActionPreference='Continue'; $__rs_o=[IO.Path]::GetTempFileName(); \
     $__rs_e=[IO.Path]::GetTempFileName(); \
     $__rs_args=@('-NoLogo','-NoProfile','-NonInteractive','-OutputFormat','Text','-EncodedCommand','";

/// What runs the inner script and reads its output, up to the marker.
pub const OUTER_RUN: &'static str = "'); $__rs_p=Start-Process -FilePath 'powershell.exe' -ArgumentList $__rs_args \
     -RedirectStandardOutput $__rs_o -RedirectStandardError $__rs_e -Wait -PassThru -NoNewWindow; \
     $__rs_c=$__rs_p.ExitCode; $__rs_ot=[IO.File]::ReadAllText($__rs_o); \
     $__rs_et=[IO.File]::ReadAllText($__rs_e); if ($__rs_et.StartsWith('#< CLIXML')) { try { \
     $__rs_xml=[xml]($__rs_et -replace '^#< CLIXML\\r?\\n',''); \
     $__rs_parts=@($__rs_xml.Objs.ChildNodes | Where-Object { $_.Name -eq 'S' -and \
     $_.GetAttribute('S') -eq 'Error' } | ForEach-Object { $_.InnerText }); if ($__rs_parts.Count \
     -gt 0) { $__rs_et=$__rs_parts -join ''; $__rs_et=$__rs_et -replace '_x000D__x000A_',\"`r`n\" \
     -replace '_x000A_',\"`n\" -replace '_x000D_',\"`r\" -replace '_x005F_','_' } } catch { } }; \
     $__rs_ob=[Convert]::ToBase64String([Text.Encoding]::UTF8.GetBytes($__rs_ot)); \
     $__rs_eb=[Convert]::ToBase64String([Text.Encoding]::UTF8.GetBytes($__rs_et)); Remove-Item \
     -Force $__rs_o,$__rs_e; [Console]::Out.WriteLine(\"`n";

/// What prints the rest of the frame.
pub const OUTER_REPORT: &'static str = ":{0}:{1}:{2}:END\",$__rs_c,$__rs_ob,$__rs_eb)";

/// What starts PowerShell with an encoded script.
pub const POWERSHELL: &'static str = "powershell.exe -NoLogo -NoProfile -NonInteractive -EncodedCommand ";

// ---------------------------------------------------------------------------
// POSIX
// ---------------------------------------------------------------------------

/// How one character stands inside single quotes: a single quote closes them, stands in double quotes and
/// opens them again.
pub open spec fn quoted_char(c: char) -> Seq<char> {
    if c == '\'' {
        seq!['\'', '"', '\'', '"', '\'']
    } else {
        seq![c]
    }
}

/// How a text stands inside single quotes.
pub open spec fn quoted_chars(s: Seq<char>) -> Seq<char>
    decreases s.len(),
{
    if s.len() == 0 {
        Seq::empty()
    } else {
        quoted_chars(s.drop_last()) + quoted_char(s.last())
    }
}

/// A text as one quoted word of a POSIX shell.
pub open spec fn single_quoted(s: Seq<char>) -> Seq<char> {
    seq!['\''] + quoted_chars(s) + seq!['\'']
}

/// A text as one quoted word of a POSIX shell.
pub fn posix_single_quote(value: &str) -> (quoted: String)
    ensures
        quoted@ == single_quoted(value@),
{
    let chars = chars_of(value);
    let mut quoted = String::new();
    quoted.push('\'');
    let mut i: usize = 0;
    while i < chars.len()
        invariant
            i <= chars@.len(),
            chars@ == value@,
            quoted@ == seq!['\''] + quoted_chars(value@.take(i as int)),
        decreases chars@.len() - i,
    {
        let c = chars[i];
        assert(value@.take(i + 1).drop_last() =~= value@.take(i as int));
        if c == '\'' {
            quoted.push('\'');
            quoted.push('"');
            quoted.push('\'');
            quoted.push('"');
            quoted.push('\'');
        } else {
            quoted.push(c);
        }
        assert(quoted@ =~= seq!['\''] + quoted_chars(value@.take(i + 1)));
        i = i + 1;
    }
    assert(value@.take(value@.len() as int) =~= value@);
    quoted.push('\'');
    quoted
}

/// Where a POSIX shell is in a word.
pub enum Quotes {
    Unquoted,
    Single,
    Double,
}

/// The value of a word that consists of quoted pieces only, as a POSIX shell reads it: between single
/// quotes every character stands for itself; between double quotes every character but the dollar sign,
/// the backquote and the backslash does. `None` where a quote stays open or something stands outside.
pub open spec fn shell_word(s: Seq<char>, quotes: Quotes) -> Option<Seq<char>>
    decreases s.len(),
{
    if s.len() == 0 {
        if quotes is Unquoted {
            Some(Seq::empty())
        } else {
            None
        }
    } else {
        let c = s[0];
        let rest = s.drop_first();
        match quotes {
            Quotes::Unquoted => if c == '\'' {
                shell_word(rest, Quotes::Single)
            } else if c == '"' {
                shell_word(rest, Quotes::Double)
            } else {
                None
            },
            Quotes::Single => if c == '\'' {
                shell_word(rest, Quotes::Unquoted)
            } else {
                prepended(c, shell_word(rest, Quotes::Single))
            },
            Quotes::Double => if c == '"' {
                shell_word(rest, Quotes::Unquoted)
            } else if c == '$' || c == '`' || c == '\\' {
                None
            } else {
                prepended(c, shell_word(rest, Quotes::Double))
            },
        }
    }
}

/// A text with one more character before it, if there is a text.
pub open spec fn prepended(c: char, rest: Option<Seq<char>>) -> Option<Seq<char>> {
    match rest {
        Some(s) => Some(seq![c] + s),
        None => None,
    }
}

/// What stands after the quoted form of `s` is read in single quotes, as before.
proof fn lemma_quoted_chars_read(s: Seq<char>, tail: Seq<char>)
    ensures
        shell_word(quoted_chars(s) + tail, Quotes::Single) == (match shell_word(tail, Quotes::Single) {
            Some(rest) => Some(s + rest),
            None => None,
        }),
    decreases s.len(),
{
    if s.len() == 0 {
        assert(quoted_chars(s) + tail =~= tail);
        match shell_word(tail, Quotes::Single) {
            Some(rest) => {
                assert(s + rest =~= rest);
            },
            None => {},
        }
    } else {
        let c = s.last();
        let longer = quoted_char(c) + tail;
        assert(quoted_chars(s) + tail =~= quoted_chars(s.drop_last()) + longer);
        lemma_quoted_chars_read(s.drop_last(), longer);
        if c == '\'' {
            reveal_with_fuel(shell_word, 6);
            assert(longer.drop_first() =~= seq!['"', '\'', '"', '\''] + tail);
            assert(longer.drop_first().drop_first() =~= seq!['\'', '"', '\''] + tail);
            assert(longer.drop_first().drop_first().drop_first() =~= seq!['"', '\''] + tail);
            assert(longer.drop_first().drop_first().drop_first().drop_first() =~= seq!['\''] + tail);
            assert(longer.drop_first().drop_first().drop_first().drop_first().drop_first() =~= tail);
        } else {
            assert(longer.drop_first() =~= tail);
        }
        assert(shell_word(longer, Quotes::Single) == prepended(c, shell_word(tail, Quotes::Single)));
        match shell_word(tail, Quotes::Single) {
            Some(rest) => {
                assert(s.drop_last() + (seq![c] + rest) =~= s + rest);
            },
            None => {},
        }
    }
}

/// A POSIX shell reads the quoted form of any text as one word, and the word is the text.
pub proof fn law_quoted_word_is_the_text(s: Seq<char>)
    ensures
        shell_word(single_quoted(s), Quotes::Unquoted) == Some(s),
{
    let tail = seq!['\''];
    assert(single_quoted(s).drop_first() =~= quoted_chars(s) + tail);
    lemma_quoted_chars_read(s, tail);
    assert(tail.drop_first() =~= Seq::<char>::empty());
    reveal_with_fuel(shell_word, 2);
    assert(s + Seq::<char>::empty() =~= s);
}

/// The POSIX script for a command.
pub open spec fn posix_script(command: Seq<char>, marker: Seq<char>) -> Seq<char> {
    POSIX_HEAD@ + single_quoted(command) + POSIX_RUN@ + marker + POSIX_REPORT@
}

/// The script that runs `command` in a POSIX shell and prints a frame that `marker` begins.
pub fn posix_command_script(command: &str, marker: &str) -> (script: String)
    ensures
        script@ == posix_script(command@, marker@),
{
    let mut script = POSIX_HEAD.to_owned();
    script.append(posix_single_quote(command).as_str());
    script.append(POSIX_RUN);
    script.append(marker);
    script.append(POSIX_REPORT);
    script
}

// ---------------------------------------------------------------------------
// PowerShell
// ---------------------------------------------------------------------------

/// A PowerShell script as `-EncodedCommand` takes it: Base64 of its UTF-16.
pub open spec fn powershell_encoded(script: Seq<char>) -> Seq<char> {
    base64_text(utf16le_of(script))
}

/// A PowerShell script as `-EncodedCommand` takes it.
pub fn encode_powershell(script: &str) -> (encoded: String)
    requires
        base64_len(utf16le_of(script@).len() as int) <= isize::MAX,
    ensures
        encoded@ == powershell_encoded(script@),
        encoded@.len() == base64_len(utf16le_of(script@).len() as int),
        decodes_to(encoded@, utf16le_of(script@)),
        is_base64(encoded@),
        !encoded@.contains('\''),
{
    base64_encode(utf16le(script).as_slice())
}

/// The inner PowerShell script, which decodes and runs the command.
pub open spec fn user_script(command: Seq<char>) -> Seq<char> {
    USER_HEAD@ + base64_text(encode_utf8(command)) + USER_TAIL@
}

/// The outer PowerShell script, which runs the inner one and prints the frame.
pub open spec fn outer_script(command: Seq<char>, marker: Seq<char>) -> Seq<char> {
    OUTER_HEAD@ + powershell_encoded(user_script(command)) + OUTER_RUN@ + marker + OUTER_REPORT@
}

/// The Windows script for a command.
pub open spec fn windows_script(command: Seq<char>, marker: Seq<char>) -> Seq<char> {
    POWERSHELL@ + powershell_encoded(outer_script(command, marker))
}

/// The length of the inner script around a command, in characters: 523 of its own, and the command in Base64.
pub open spec fn user_script_len(command: Seq<char>) -> int {
    523 + base64_len(encode_utf8(command).len() as int)
}

/// The length of the outer script around a command and a marker in UTF-16, in bytes: two for each of the 1205
/// characters of its own and of the inner script in Base64, and those of the marker.
pub open spec fn outer_script_bytes(command: Seq<char>, marker: Seq<char>) -> int {
    2 * (1205 + base64_len(2 * user_script_len(command))) + utf16le_of(marker).len()
}

/// The script around a command and a marker is small enough to be encoded.
pub open spec fn script_fits(command: Seq<char>, marker: Seq<char>) -> bool {
    base64_len(outer_script_bytes(command, marker)) <= isize::MAX
}

/// No character of the text takes two code units.
spec fn is_narrow(s: Seq<char>) -> bool {
    forall|i: int| 0 <= i < s.len() ==> (#[trigger] s[i] as u32) < 0x10000
}

/// The UTF-16 of two texts, one after the other.
proof fn lemma_utf16_concat_len(a: Seq<char>, b: Seq<char>)
    ensures
        utf16le_of(a + b).len() == utf16le_of(a).len() + utf16le_of(b).len(),
    decreases b.len(),
{
    assert(utf16le_of(a).len() == 2 * utf16_of(a).len());
    assert(utf16le_of(b).len() == 2 * utf16_of(b).len());
    assert(utf16le_of(a + b).len() == 2 * utf16_of(a + b).len());
    if b.len() == 0 {
        assert(a + b =~= a);
    } else {
        assert((a + b).drop_last() =~= a + b.drop_last());
        lemma_utf16_concat_len(a, b.drop_last());
        assert(utf16le_of(b.drop_last()).len() == 2 * utf16_of(b.drop_last()).len());
        assert(utf16le_of(a + b.drop_last()).len() == 2 * utf16_of(a + b.drop_last()).len());
    }
}

/// A text takes at most four bytes for a character, and two where no character takes two code units.
proof fn lemma_utf16_len(s: Seq<char>)
    ensures
        utf16le_of(s).len() <= 4 * s.len(),
        is_narrow(s) ==> utf16le_of(s).len() == 2 * s.len(),
    decreases s.len(),
{
    if s.len() > 0 {
        lemma_utf16_len(s.drop_last());
        assert(utf16le_of(s).len() == 2 * utf16_of(s).len());
        assert(utf16le_of(s.drop_last()).len() == 2 * utf16_of(s.drop_last()).len());
        if is_narrow(s) {
            assert forall|i: int| 0 <= i < s.drop_last().len() implies (#[trigger] s.drop_last()[i] as u32) < 0x10000 by {
                assert(s.drop_last()[i] == s[i]);
            }
            assert((s[s.len() - 1] as u32) < 0x10000);
        }
    }
}

/// Base64 takes no character of two code units.
proof fn lemma_base64_is_narrow(s: Seq<char>)
    requires
        is_base64(s),
    ensures
        is_narrow(s),
{
    assert forall|i: int| 0 <= i < s.len() implies (#[trigger] s[i] as u32) < 0x10000 by {
        assert(is_base64_char(s[i]));
    }
}

proof fn lemma_script_sizes()
    ensures
        USER_HEAD@.len() + USER_TAIL@.len() == 523,
        OUTER_HEAD@.len() + OUTER_RUN@.len() + OUTER_REPORT@.len() == 1205,
        is_narrow(USER_HEAD@),
        is_narrow(USER_TAIL@),
        is_narrow(OUTER_HEAD@),
        is_narrow(OUTER_RUN@),
        is_narrow(OUTER_REPORT@),
{
    reveal_strlit("$ErrorActionPreference='Continue'; $ProgressPreference='SilentlyContinue'; \
     $__rs_utf8=New-Object Text.UTF8Encoding $false; [Console]::OutputEncoding=$__rs_utf8; \
     [Console]::InputEncoding=$__rs_utf8; $OutputEncoding=$__rs_utf8; $global:LASTEXITCODE=$null; \
     $__rs_cmd=[Text.Encoding]::UTF8.GetString([Convert]::FromBase64String('");
    reveal_strlit("')); try { & ([ScriptBlock]::Create($__rs_cmd)); if ($null -ne $LASTEXITCODE) { exit \
     $LASTEXITCODE }; if ($?) { exit 0 } else { exit 1 } } catch { \
     [Console]::Error.WriteLine($_.ToString()); exit 1 }");
    reveal_strlit("$ErrorActionPreference='Continue'; $__rs_o=[IO.Path]::GetTempFileName(); \
     $__rs_e=[IO.Path]::GetTempFileName(); \
     $__rs_args=@('-NoLogo','-NoProfile','-NonInteractive','-OutputFormat','Text','-EncodedCommand','");
    reveal_strlit("'); $__rs_p=Start-Process -FilePath 'powershell.exe' -ArgumentList $__rs_args \
     -RedirectStandardOutput $__rs_o -RedirectStandardError $__rs_e -Wait -PassThru -NoNewWindow; \
     $__rs_c=$__rs_p.ExitCode; $__rs_ot=[IO.File]::ReadAllText($__rs_o); \
     $__rs_et=[IO.File]::ReadAllText($__rs_e); if ($__rs_et.StartsWith('#< CLIXML')) { try { \
     $__rs_xml=[xml]($__rs_et -replace '^#< CLIXML\\r?\\n',''); \
     $__rs_parts=@($__rs_xml.Objs.ChildNodes | Where-Object { $_.Name -eq 'S' -and \
     $_.GetAttribute('S') -eq 'Error' } | ForEach-Object { $_.InnerText }); if ($__rs_parts.Count \
     -gt 0) { $__rs_et=$__rs_parts -join ''; $__rs_et=$__rs_et -replace '_x000D__x000A_',\"`r`n\" \
     -replace '_x000A_',\"`n\" -replace '_x000D_',\"`r\" -replace '_x005F_','_' } } catch { } }; \
     $__rs_ob=[Convert]::ToBase64String([Text.Encoding]::UTF8.GetBytes($__rs_ot)); \
     $__rs_eb=[Convert]::ToBase64String([Text.Encoding]::UTF8.GetBytes($__rs_et)); Remove-Item \
     -Force $__rs_o,$__rs_e; [Console]::Out.WriteLine(\"`n");
    reveal_strlit(":{0}:{1}:{2}:END\",$__rs_c,$__rs_ob,$__rs_eb)");
}

/// A command that is not too long, with a marker that is not, fits.
pub(crate) proof fn lemma_short_scripts_fit(command: Seq<char>, marker: Seq<char>)
    ensures
        encode_utf8(command).len() <= 0x100000 && marker.len() <= 0x100000 ==> script_fits(command, marker),
{
    lemma_utf16_len(marker);
}

/// The script that runs `command` in PowerShell and prints a frame that `marker` begins. The command, and
/// the inner script around it, go in Base64 between single quotes: no quote of theirs can end these, and
/// they are decoded unchanged.
pub fn windows_command_script(command: &str, marker: &str) -> (script: String)
    requires
        script_fits(command@, marker@),
    ensures
        script@ == windows_script(command@, marker@),
        decodes_to(base64_text(encode_utf8(command@)), encode_utf8(command@)),
        !base64_text(encode_utf8(command@)).contains('\''),
        decodes_to(powershell_encoded(user_script(command@)), utf16le_of(user_script(command@))),
        !powershell_encoded(user_script(command@)).contains('\''),
        decodes_to(powershell_encoded(outer_script(command@, marker@)), utf16le_of(outer_script(command@, marker@))),
        is_base64(powershell_encoded(outer_script(command@, marker@))),
{
    proof {
        lemma_script_sizes();
    }
    let command_base64 = base64_encode(command.as_bytes());
    let mut user = USER_HEAD.to_owned();
    user.append(command_base64.as_str());
    user.append(USER_TAIL);
    proof {
        lemma_base64_is_narrow(command_base64@);
        lemma_utf16_len(user@);
    }
    let encoded_user = encode_powershell(user.as_str());
    let mut outer = OUTER_HEAD.to_owned();
    outer.append(encoded_user.as_str());
    outer.append(OUTER_RUN);
    outer.append(marker);
    outer.append(OUTER_REPORT);
    proof {
        lemma_base64_is_narrow(encoded_user@);
        let fixed = OUTER_HEAD@ + encoded_user@ + OUTER_RUN@;
        lemma_utf16_len(fixed);
        lemma_utf16_len(OUTER_REPORT@);
        lemma_utf16_concat_len(fixed, marker@);
        lemma_utf16_concat_len(fixed + marker@, OUTER_REPORT@);
    }
    let mut script = POWERSHELL.to_owned();
    script.append(encode_powershell(outer.as_str()).as_str());
    script
}

// ---------------------------------------------------------------------------
// One script for either platform
// ---------------------------------------------------------------------------

/// The remote platform is Windows: its name holds the word, in letters of either case.
pub open spec fn is_windows(platform: Seq<char>) -> bool {
    has_text(lowered(platform), seq!['w', 'i', 'n', 'd', 'o', 'w', 's'])
}

/// The script for the remote platform.
pub open spec fn script_for(platform: Seq<char>, command: Seq<char>, marker: Seq<char>) -> Seq<char> {
    if is_windows(platform) {
        windows_script(command, marker)
    } else {
        posix_script(command, marker)
    }
}

/// The script that runs `command` on the remote platform and prints a frame that `marker` begins.
pub fn remote_script(platform: &str, command: &str, marker: &str) -> (script: String)
    requires
        is_windows(platform@) ==> script_fits(command@, marker@),
    ensures
        script@ == script_for(platform@, command@, marker@),
        is_windows(platform@) ==> is_base64(powershell_encoded(outer_script(command@, marker@))),
{
    let name = lowered_chars(platform);
    let windows = vec!['w', 'i', 'n', 'd', 'o', 'w', 's'];
    assert(windows@ =~= seq!['w', 'i', 'n', 'd', 'o', 'w', 's']);
    if contains(&name, &windows) {
        windows_command_script(command, marker)
    } else {
        posix_command_script(command, marker)
    }
}

/// What goes to the terminal for a script: its bytes and a carriage return.
pub fn terminal_input(script: &str) -> (data: Vec<u8>)
    ensures
        data@ == encode_utf8(script@).push(13u8),
{
    let mut data = script.as_bytes_vec();
    data.push(13u8);
    data
}

/// What a marker looks like: a fixed head, the random digits and a fixed tail.
pub open spec fn marker_of(digits: Seq<char>) -> Seq<char> {
    "__RUSTSHELL_RESULT_"@ + digits + "__"@
}

/// The digits of a marker: thirty-two hexadecimal digits.
pub open spec fn are_marker_digits(digits: Seq<char>) -> bool {
    &&& digits.len() == 32
    &&& forall|i: int| 0 <= i < 32 ==> is_hex_digit(#[trigger] digits[i])
}

/// A marker of that form.
pub open spec fn is_marker(marker: Seq<char>) -> bool {
    exists|digits: Seq<char>| are_marker_digits(digits) && marker == #[trigger] marker_of(digits)
}

/// A marker that no other command shares, by chance.
pub fn fresh_marker() -> (marker: String)
    ensures
        is_marker(marker@),
        marker@.len() == 53,
        !marker@.contains(':'),
{
    let digits = random_simple_id();
    let mut marker = "__RUSTSHELL_RESULT_".to_owned();
    marker.append(digits.as_str());
    marker.append("__");
    proof {
        reveal_strlit("__RUSTSHELL_RESULT_");
        reveal_strlit("__");
        assert(marker@ == marker_of(digits@));
        assert forall|i: int| 0 <= i < marker@.len() implies marker@[i] != ':' by {
            if 19 <= i < 51 {
                assert(marker@[i] == digits@[i - 19]);
            }
        }
    }
    marker
}

/// On a POSIX platform the command is run by `/bin/sh -c` as one word that the shell reads as the command, its two
/// outputs go to two files, and its exit code and both outputs in Base64 are printed after the marker, with colons
/// between and the end mark behind.
pub proof fn law_posix_script_runs_the_command(platform: Seq<char>, command: Seq<char>, marker: Seq<char>)
    ensures
        !is_windows(platform) ==> exists|word: Seq<char>| #[trigger]
            shell_word(word, Quotes::Unquoted) == Some(command) && script_for(platform, command, marker)
                == "unset HISTFILE; set +e; __rs_o=$(mktemp \"${TMPDIR:-/tmp}/rustshell-out.XXXXXX\"); \
     __rs_e=$(mktemp \"${TMPDIR:-/tmp}/rustshell-err.XXXXXX\"); /bin/sh -c "@ + word
                + " >\"$__rs_o\" 2>\"$__rs_e\"; __rs_c=$?; printf '\\n"@ + marker
                + ":%s:' \"$__rs_c\"; base64 <\"$__rs_o\" | tr -d '\\r\\n'; printf ':'; base64 <\"$__rs_e\" | tr \
     -d '\\r\\n'; rm -f \"$__rs_o\" \"$__rs_e\"; printf ':END\\n'"@,
{
    law_quoted_word_is_the_text(command);
    assert(shell_word(single_quoted(command), Quotes::Unquoted) == Some(command));
}

/// On Windows an outer script, which PowerShell is started with, runs an inner one and prints its exit code and both
/// outputs in Base64 after the marker; the inner script decodes the command, runs it and passes its exit code on.
/// Each script is encoded as PowerShell takes it: Base64 of its UTF-16.
pub proof fn law_windows_script_runs_the_command(platform: Seq<char>, command: Seq<char>, marker: Seq<char>)
    ensures
        is_windows(platform) ==> ({
            let inner = "$ErrorActionPreference='Continue'; $ProgressPreference='SilentlyContinue'; \
     $__rs_utf8=New-Object Text.UTF8Encoding $false; [Console]::OutputEncoding=$__rs_utf8; \
     [Console]::InputEncoding=$__rs_utf8; $OutputEncoding=$__rs_utf8; $global:LASTEXITCODE=$null; \
     $__rs_cmd=[Text.Encoding]::UTF8.GetString([Convert]::FromBase64String('"@ + base64_text(encode_utf8(command))
                + "')); try { & ([ScriptBlock]::Create($__rs_cmd)); if ($null -ne $LASTEXITCODE) { exit \
     $LASTEXITCODE }; if ($?) { exit 0 } else { exit 1 } } catch { \
     [Console]::Error.WriteLine($_.ToString()); exit 1 }"@;
            let outer = "$ErrorActionPreference='Continue'; $__rs_o=[IO.Path]::GetTempFileName(); \
     $__rs_e=[IO.Path]::GetTempFileName(); \
     $__rs_args=@('-NoLogo','-NoProfile','-NonInteractive','-OutputFormat','Text','-EncodedCommand','"@ + base64_text(utf16le_of(inner))
                + "'); $__rs_p=Start-Process -FilePath 'powershell.exe' -ArgumentList $__rs_args \
     -RedirectStandardOutput $__rs_o -RedirectStandardError $__rs_e -Wait -PassThru -NoNewWindow; \
     $__rs_c=$__rs_p.ExitCode; $__rs_ot=[IO.File]::ReadAllText($__rs_o); \
     $__rs_et=[IO.File]::ReadAllText($__rs_e); if ($__rs_et.StartsWith('#< CLIXML')) { try { \
     $__rs_xml=[xml]($__rs_et -replace '^#< CLIXML\\r?\\n',''); \
     $__rs_parts=@($__rs_xml.Objs.ChildNodes | Where-Object { $_.Name -eq 'S' -and \
     $_.GetAttribute('S') -eq 'Error' } | ForEach-Object { $_.InnerText }); if ($__rs_parts.Count \
     -gt 0) { $__rs_et=$__rs_parts -join ''; $__rs_et=$__rs_et -replace '_x000D__x000A_',\"`r`n\" \
     -replace '_x000A_',\"`n\" -replace '_x000D_',\"`r\" -replace '_x005F_','_' } } catch { } }; \
     $__rs_ob=[Convert]::ToBase64String([Text.Encoding]::UTF8.GetBytes($__rs_ot)); \
     $__rs_eb=[Convert]::ToBase64String([Text.Encoding]::UTF8.GetBytes($__rs_et)); Remove-Item \
     -Force $__rs_o,$__rs_e; [Console]::Out.WriteLine(\"`n"@ + marker
                + ":{0}:{1}:{2}:END\",$__rs_c,$__rs_ob,$__rs_eb)"@;
            script_for(platform, command, marker) == "powershell.exe -NoLogo -NoProfile -NonInteractive -EncodedCommand "@ + base64_text(utf16le_of(outer))
        }),
{
}

/// The letters of the name stand at a position of a text, each of either case.
pub open spec fn spells_windows_at(platform: Seq<char>, at: int) -> bool {
    &&& 0 <= at && at + 7 <= platform.len()
    &&& platform[at] == 'w' || platform[at] == 'W'
    &&& platform[at + 1] == 'i' || platform[at + 1] == 'I'
    &&& platform[at + 2] == 'n' || platform[at + 2] == 'N'
    &&& platform[at + 3] == 'd' || platform[at + 3] == 'D'
    &&& platform[at + 4] == 'o' || platform[at + 4] == 'O'
    &&& platform[at + 5] == 'w' || platform[at + 5] == 'W'
    &&& platform[at + 6] == 's' || platform[at + 6] == 'S'
}

/// A platform is Windows exactly where its name is spelt somewhere in what it says of itself, in letters of either
/// case.
pub proof fn law_windows_is_known_by_name(platform: Seq<char>)
    ensures
        is_windows(platform) <==> exists|at: int| #[trigger] spells_windows_at(platform, at),
{
    let name = seq!['w', 'i', 'n', 'd', 'o', 'w', 's'];
    let low = lowered(platform);
    if is_windows(platform) {
        let at = choose|at: int| matches_at(low, name, at);
        let found = low.subrange(at, at + 7);
        assert(found[0] == 'w' && found[1] == 'i' && found[2] == 'n' && found[3] == 'd' && found[4] == 'o' && found[5]
            == 'w' && found[6] == 's');
        assert(spells_windows_at(platform, at));
    }
    if exists|at: int| #[trigger] spells_windows_at(platform, at) {
        let at = choose|at: int| #[trigger] spells_windows_at(platform, at);
        assert(low.subrange(at, at + 7) =~= name);
        assert(matches_at(low, name, at));
    }
}

/// A marker is the name of this program's results, thirty-two hexadecimal digits and two underscores.
pub proof fn law_markers_look_so(digits: Seq<char>)
    ensures
        marker_of(digits) == "__RUSTSHELL_RESULT_"@ + digits + "__"@,
        are_marker_digits(digits) ==> digits.len() == 32 && is_marker("__RUSTSHELL_RESULT_"@ + digits + "__"@),
        are_marker_digits(digits) ==> forall|i: int|
            0 <= i < 32 ==> '0' <= #[trigger] digits[i] <= '9' || 'a' <= digits[i] <= 'f',
{
    assert(marker_of(digits) == "__RUSTSHELL_RESULT_"@ + digits + "__"@);
}

}
