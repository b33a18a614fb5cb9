use rustshell::keys::{control_letter, is_ascii_letter, key_event_to_bytes, Key};
use rustshell::message::{Incoming, PeerMessage, TerminalReply};
use rustshell::terminal::{
    locale_hint, Terminal, TerminalEvent, TerminalStep, POSIX_HINT, WINDOWS_HINT,
};

fn arrived(message: PeerMessage) -> TerminalEvent {
    TerminalEvent::Incoming(Incoming::Message(message))
}

fn opened(success: bool) -> TerminalEvent {
    arrived(PeerMessage::Terminal(TerminalReply::Opened { success, message: "no".to_owned() }))
}

#[test]
fn keys_send_their_bytes() {
    let plain = |key| key_event_to_bytes(key, false, false);
    assert_eq!(plain(Key::Char('a')), b"a".to_vec());
    assert_eq!(plain(Key::Char('é')), "é".as_bytes().to_vec());
    assert_eq!(plain(Key::Char('😀')), "😀".as_bytes().to_vec());
    assert_eq!(key_event_to_bytes(Key::Char('é'), false, true), "\u{1b}é".as_bytes().to_vec());
    assert_eq!(plain(Key::Enter), b"\r".to_vec());
    assert_eq!(plain(Key::Backspace), vec![0x7f]);
    assert_eq!(plain(Key::Tab), b"\t".to_vec());
    assert_eq!(plain(Key::Esc), vec![0x1b]);
    assert_eq!(plain(Key::Up), b"\x1b[A".to_vec());
    assert_eq!(plain(Key::Down), b"\x1b[B".to_vec());
    assert_eq!(plain(Key::Right), b"\x1b[C".to_vec());
    assert_eq!(plain(Key::Left), b"\x1b[D".to_vec());
    assert_eq!(plain(Key::Home), b"\x1b[H".to_vec());
    assert_eq!(plain(Key::End), b"\x1b[F".to_vec());
    assert_eq!(plain(Key::PageUp), b"\x1b[5~".to_vec());
    assert_eq!(plain(Key::PageDown), b"\x1b[6~".to_vec());
    assert_eq!(plain(Key::Delete), b"\x1b[3~".to_vec());
    assert_eq!(plain(Key::Insert), b"\x1b[2~".to_vec());
    let function = [
        "OP", "OQ", "OR", "OS", "[15~", "[17~", "[18~", "[19~", "[20~", "[21~", "[23~", "[24~",
    ];
    for (i, tail) in function.iter().enumerate() {
        assert_eq!(plain(Key::F(i as u8 + 1)), format!("\u{1b}{tail}").into_bytes());
    }
    assert_eq!(plain(Key::F(13)), Vec::<u8>::new());
    assert_eq!(plain(Key::F(0)), Vec::<u8>::new());
    assert_eq!(plain(Key::Other), Vec::<u8>::new());
}

#[test]
fn control_keys_send_control_bytes() {
    let ctrl = |c| key_event_to_bytes(Key::Char(c), true, false);
    for (i, c) in ('a'..='z').enumerate() {
        assert_eq!(ctrl(c), vec![i as u8 + 1]);
        assert_eq!(ctrl(c.to_ascii_uppercase()), vec![i as u8 + 1]);
        assert_eq!(control_letter(c), i as u8 + 1);
        assert!(is_ascii_letter(c));
    }
    assert_eq!(ctrl('['), vec![0x1b]);
    assert_eq!(ctrl(']'), vec![0x1d]);
    assert_eq!(ctrl('\\'), vec![0x1c]);
    assert_eq!(ctrl('^'), vec![0x1e]);
    assert_eq!(ctrl('5'), vec![b'5']);
    assert_eq!(ctrl('ł'), vec!['ł' as u8]);
    assert_eq!(key_event_to_bytes(Key::Char('c'), true, true), vec![3]);
    assert!(!is_ascii_letter('é'));
}

#[test]
fn the_quit_key_quits_and_other_control_keys_are_sent() {
    let mut terminal = Terminal::start(80, 24, 'Q');
    let quit = TerminalEvent::Typed(key_event_to_bytes(Key::Char('q'), true, false));
    let interrupt = TerminalEvent::Typed(key_event_to_bytes(Key::Char('c'), true, false));
    let end = TerminalEvent::Typed(key_event_to_bytes(Key::Char('d'), true, false));
    assert_eq!(terminal.step(&quit), Ok(TerminalStep::Quit { close: false }));
    assert_eq!(terminal.step(&interrupt), Ok(TerminalStep::Wait));
    assert_eq!(terminal.step(&opened(true)), Ok(TerminalStep::Wait));
    assert_eq!(terminal.step(&interrupt), Ok(TerminalStep::Send));
    assert_eq!(terminal.step(&end), Ok(TerminalStep::Send));
    assert_eq!(terminal.step(&quit), Ok(TerminalStep::Quit { close: true }));
    assert_eq!(terminal.step(&TerminalEvent::Typed(vec![])), Ok(TerminalStep::Wait));
}

#[test]
fn the_hint_is_shown_once_after_the_shell_started() {
    let mut terminal = Terminal::start(80, 24, 'q');
    let tick = TerminalEvent::Tick { size: None };
    assert_eq!(terminal.step(&tick), Ok(TerminalStep::Refresh { hint: false, resize: false }));
    terminal.step(&opened(true)).unwrap();
    assert_eq!(terminal.step(&tick), Ok(TerminalStep::Refresh { hint: true, resize: false }));
    assert_eq!(terminal.step(&tick), Ok(TerminalStep::Refresh { hint: false, resize: false }));
    assert_eq!(locale_hint("windows"), WINDOWS_HINT);
    assert_eq!(locale_hint("Windows 11"), POSIX_HINT);
    assert_eq!(locale_hint("Mac OS"), POSIX_HINT);
    assert!(WINDOWS_HINT.contains("chcp 65001"));
    assert!(POSIX_HINT.contains("export LANG=en_US.UTF-8 LC_ALL=en_US.UTF-8"));
}

#[test]
fn a_new_size_is_told_once() {
    let mut terminal = Terminal::start(80, 24, 'q');
    let tick = TerminalEvent::Tick { size: Some((100, 24)) };
    assert_eq!(terminal.step(&tick), Ok(TerminalStep::Refresh { hint: false, resize: false }));
    assert_eq!(terminal.cols, 80);
    terminal.step(&opened(true)).unwrap();
    assert_eq!(terminal.step(&tick), Ok(TerminalStep::Refresh { hint: true, resize: true }));
    assert_eq!((terminal.cols, terminal.rows), (100, 24));
    assert_eq!(terminal.step(&tick), Ok(TerminalStep::Refresh { hint: false, resize: false }));
}

#[test]
fn a_terminal_takes_what_arrives() {
    let mut terminal = Terminal::start(80, 24, 'q');
    assert_eq!(terminal.step(&TerminalEvent::Keepalive), Ok(TerminalStep::Wait));
    terminal.step(&opened(true)).unwrap();
    assert_eq!(terminal.step(&TerminalEvent::Keepalive), Ok(TerminalStep::Keepalive));
    let data = arrived(PeerMessage::Terminal(TerminalReply::Data(vec![1])));
    assert_eq!(terminal.step(&data), Ok(TerminalStep::Show));
    let probe = arrived(PeerMessage::TestDelay { from_client: false });
    assert_eq!(terminal.step(&probe), Ok(TerminalStep::Echo));
    assert_eq!(terminal.step(&arrived(PeerMessage::Other)), Ok(TerminalStep::Wait));
    let malformed = TerminalEvent::Incoming(Incoming::Malformed("x".to_owned()));
    assert_eq!(terminal.step(&malformed), Ok(TerminalStep::Wait));
    let closed = arrived(PeerMessage::Terminal(TerminalReply::Closed { exit_code: 0 }));
    assert_eq!(terminal.step(&closed), Ok(TerminalStep::Over));
    assert_eq!(terminal.step(&TerminalEvent::Incoming(Incoming::Closed)), Ok(TerminalStep::Over));
    let broken = TerminalEvent::Incoming(Incoming::StreamError("x".to_owned()));
    assert_eq!(terminal.step(&broken), Ok(TerminalStep::Over));
    let error = arrived(PeerMessage::Terminal(TerminalReply::Error("x".to_owned())));
    assert_eq!(terminal.step(&error), Err("Terminal error: x".to_owned()));
    assert_eq!(terminal.step(&TerminalEvent::EchoFailed("x".to_owned())), Err("x".to_owned()));
    assert_eq!(terminal.step(&opened(false)), Err("Terminal open failed: no".to_owned()));
    assert!(!terminal.opened);
}
