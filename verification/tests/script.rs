use base64::Engine;
use rustshell::script::{
    encode_powershell, fresh_marker, posix_command_script, posix_single_quote, remote_script, terminal_input,
    windows_command_script,
};

fn decoded(encoded: &str) -> String {
    let bytes = base64::engine::general_purpose::STANDARD.decode(encoded).unwrap();
    let units: Vec<u16> = bytes.chunks(2).map(|pair| u16::from_le_bytes([pair[0], pair[1]])).collect();
    String::from_utf16(&units).unwrap()
}

#[test]
fn posix_quotes_single_quotes() {
    assert_eq!(posix_single_quote("it's"), "'it'\"'\"'s'");
}

#[test]
fn powershell_encoding_is_utf16le_base64() {
    let encoded = encode_powershell("A");
    assert_eq!(encoded, "QQA=");
}

#[test]
fn posix_script_runs_the_quoted_command_and_prints_a_frame() {
    let expected = "unset HISTFILE; set +e; \
                    __rs_o=$(mktemp \"${TMPDIR:-/tmp}/rustshell-out.XXXXXX\"); \
                    __rs_e=$(mktemp \"${TMPDIR:-/tmp}/rustshell-err.XXXXXX\"); \
                    /bin/sh -c 'echo hi' >\"$__rs_o\" 2>\"$__rs_e\"; __rs_c=$?; \
                    printf '\\nM:%s:' \"$__rs_c\"; \
                    base64 <\"$__rs_o\" | tr -d '\\r\\n'; printf ':'; \
                    base64 <\"$__rs_e\" | tr -d '\\r\\n'; \
                    rm -f \"$__rs_o\" \"$__rs_e\"; printf ':END\\n'";
    assert_eq!(posix_command_script("echo hi", "M"), expected);
}

#[test]
fn windows_script_carries_the_command_unchanged() {
    let command = "Write-Output 'größe'; exit 3";
    let script = windows_command_script(command, "MARK");
    let outer = decoded(
        script.strip_prefix("powershell.exe -NoLogo -NoProfile -NonInteractive -EncodedCommand ").unwrap(),
    );
    assert!(outer.starts_with("$ErrorActionPreference='Continue'; $__rs_o=[IO.Path]::GetTempFileName(); "));
    assert!(outer.contains("-replace '^#< CLIXML\\r?\\n','');"));
    assert!(outer.contains("-replace '_x000D__x000A_',\"`r`n\" -replace '_x000A_',\"`n\""));
    assert!(outer.ends_with(
        "[Console]::Out.WriteLine(\"`nMARK:{0}:{1}:{2}:END\",$__rs_c,$__rs_ob,$__rs_eb)"
    ));
    let start = outer.find("'-EncodedCommand','").unwrap() + "'-EncodedCommand','".len();
    let end = start + outer[start..].find('\'').unwrap();
    let user = decoded(&outer[start..end]);
    let start = user.find("FromBase64String('").unwrap() + "FromBase64String('".len();
    let end = start + user[start..].find('\'').unwrap();
    let bytes = base64::engine::general_purpose::STANDARD.decode(&user[start..end]).unwrap();
    assert_eq!(bytes, command.as_bytes());
    assert!(user.ends_with(
        "catch { [Console]::Error.WriteLine($_.ToString()); exit 1 }"
    ));
    assert!(user.contains("if ($?) { exit 0 } else { exit 1 } } catch"));
}

#[test]
fn the_platform_chooses_the_script() {
    assert_eq!(remote_script("Microsoft WINDOWS 11", "dir", "M"), windows_command_script("dir", "M"));
    assert_eq!(remote_script("Mac OS", "ls", "M"), posix_command_script("ls", "M"));
}

#[test]
fn a_script_goes_to_the_terminal_with_a_carriage_return() {
    assert_eq!(terminal_input("ls"), b"ls\r".to_vec());
}

#[test]
fn markers_differ() {
    let one = fresh_marker();
    let two = fresh_marker();
    assert_ne!(one, two);
    assert_eq!(one.len(), 53);
    assert!(one.starts_with("__RUSTSHELL_RESULT_"));
    assert!(one.ends_with("__"));
    assert!(one[19..51].bytes().all(|b| b.is_ascii_hexdigit() && !b.is_ascii_uppercase()));
}
