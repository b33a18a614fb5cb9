use rustshell::config::{
    log_level, process_exit_code, rendezvous_address, resolve, wrapper_path, CliArgs, EnvVars, Settings,
};
use std::path::PathBuf;

fn cli() -> CliArgs {
    CliArgs {
        id: "123".to_owned(),
        server: "example.test".to_owned(),
        port: None,
        key: String::new(),
        password: String::new(),
        debug: false,
        quit_key: None,
    }
}

fn env() -> EnvVars {
    EnvVars { id: None, server: None, port: None, key: None, password: None, debug: None, quit_key: None }
}

fn some(text: &str) -> Option<String> {
    Some(text.to_owned())
}

fn error(result: Result<Settings, String>) -> String {
    match result {
        Ok(_) => panic!("expected an error"),
        Err(error) => error,
    }
}

#[test]
fn defaults_fill_what_nobody_says() {
    let settings = resolve(cli(), env()).ok().unwrap();
    assert_eq!((settings.id.as_str(), settings.server.as_str()), ("123", "example.test"));
    assert_eq!((settings.port, settings.quit_key, settings.debug), (21116, 'q', false));
    assert_eq!((settings.key.as_str(), settings.password.as_str()), ("", ""));
}

#[test]
fn the_environment_fills_what_the_command_line_leaves_out() {
    let args = CliArgs { id: String::new(), server: String::new(), ..cli() };
    let vars = EnvVars {
        id: some("9"),
        server: some("s"),
        port: some("61116"),
        key: some("k"),
        password: some("p"),
        debug: some("TRUE"),
        quit_key: some("xyz"),
    };
    let settings = resolve(args, vars).ok().unwrap();
    assert_eq!((settings.id.as_str(), settings.server.as_str()), ("9", "s"));
    assert_eq!((settings.key.as_str(), settings.password.as_str()), ("k", "p"));
    assert_eq!((settings.port, settings.quit_key, settings.debug), (61116, 'x', true));
}

#[test]
fn the_command_line_takes_precedence() {
    let args = CliArgs {
        port: Some(21116),
        key: "mine".to_owned(),
        password: "secret".to_owned(),
        quit_key: Some('q'),
        ..cli()
    };
    let vars = EnvVars {
        id: some("9"),
        server: some("s"),
        port: some("1"),
        key: some("k"),
        password: some("p"),
        debug: some("0"),
        quit_key: some("x"),
    };
    let settings = resolve(args, vars).ok().unwrap();
    assert_eq!((settings.id.as_str(), settings.server.as_str()), ("123", "example.test"));
    assert_eq!((settings.key.as_str(), settings.password.as_str()), ("mine", "secret"));
    assert_eq!((settings.port, settings.quit_key, settings.debug), (21116, 'q', false));
}

#[test]
fn what_the_environment_says_wrongly_is_passed_over() {
    let vars = EnvVars { port: some("70000"), debug: some("yes"), quit_key: some(""), ..env() };
    let settings = resolve(cli(), vars).ok().unwrap();
    assert_eq!((settings.port, settings.quit_key, settings.debug), (21116, 'q', false));
    let vars = EnvVars { debug: some("1"), ..env() };
    assert!(resolve(cli(), vars).ok().unwrap().debug);
}

#[test]
fn what_is_missing_is_named_in_order() {
    let args = CliArgs { id: String::new(), server: String::new(), quit_key: Some('1'), ..cli() };
    assert_eq!(error(resolve(args, env())), "--id or RUSTSHELL_ID is required");
    let args = CliArgs { server: String::new(), quit_key: Some('1'), ..cli() };
    assert_eq!(error(resolve(args, env())), "--server or RUSTSHELL_SERVER is required");
    let args = CliArgs { quit_key: Some('1'), ..cli() };
    assert_eq!(error(resolve(args, env())), "--quit-key must be an ASCII letter a-z");
    let vars = EnvVars { quit_key: some("é"), ..env() };
    assert_eq!(error(resolve(cli(), vars)), "--quit-key must be an ASCII letter a-z");
}

#[test]
fn a_server_may_name_its_port() {
    assert_eq!(rendezvous_address("example.test", 21116), "example.test:21116");
    assert_eq!(rendezvous_address("192.168.1.100", 61116), "192.168.1.100:61116");
    assert_eq!(rendezvous_address("example.test:7", 21116), "example.test:7");
    assert_eq!(rendezvous_address("example.test:70000", 1), "example.test:70000:1");
    assert_eq!(rendezvous_address("fe80::1", 1), "fe80::1:1");
    assert_eq!(rendezvous_address(":7", 1), ":7:1");
}

#[test]
fn the_program_exits_with_the_codes_of_commands() {
    assert_eq!(process_exit_code(0), 0);
    assert_eq!(process_exit_code(1), 1);
    assert_eq!(process_exit_code(255), 255);
    assert_eq!(process_exit_code(256), 1);
    assert_eq!(process_exit_code(-1), 1);
    assert_eq!(log_level(true), "debug");
    assert_eq!(log_level(false), "info");
}

#[test]
fn the_wrapper_is_looked_for_in_order() {
    let path = |text: &str| PathBuf::from(text);
    assert_eq!(wrapper_path(Some(path("a")), Some(path("b")), path("c")), path("a"));
    assert_eq!(wrapper_path(None, Some(path("b")), path("c")), path("b"));
    assert_eq!(wrapper_path(None, None, path("c")), path("c"));
}
