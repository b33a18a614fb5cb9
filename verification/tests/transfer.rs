use rustshell::config::APP_VERSION;
use rustshell::message::{Digest, Entry, FileReply, Incoming, LoginReply, PeerMessage};
use rustshell::pull::{check_pull_paths, Partial, Pull, PullEvent, PullSend, PullStep};
use rustshell::push::{check_push_files, check_push_paths, Push, PushEvent, PushSend, PushStep};
use rustshell::transfer::{
    confirmed_offset, disconnected, disconnected_at, error_text, file_resume_supported, is_transfer_disconnected,
    protocol_resume_offset, transfer_disconnect_progress, FileTransferStats, TransferError,
    FILE_RESUME_MIN_VERSION, RUSTDESK_PROTOCOL_VERSION,
};

fn message(message: PeerMessage) -> PushEvent {
    PushEvent::Incoming(Incoming::Message(message))
}

fn received(message: PeerMessage) -> PullEvent {
    PullEvent::Incoming { incoming: Incoming::Message(message), finished: 5 }
}

fn digest(transferred_size: u64, is_identical: bool) -> PeerMessage {
    PeerMessage::File(FileReply::Digest(Digest {
        id: 1,
        file_num: 3,
        file_size: 100,
        last_modified: 0,
        transferred_size,
        is_identical,
    }))
}

fn text<T>(result: Result<T, TransferError>) -> String {
    match result {
        Ok(_) => panic!("expected an error"),
        Err(error) => error_text(&error),
    }
}

fn progress<T>(result: Result<T, TransferError>) -> Option<u64> {
    match result {
        Ok(_) => panic!("expected an error"),
        Err(error) => transfer_disconnect_progress(&error),
    }
}

#[test]
fn app_and_rustdesk_protocol_versions_are_independent() {
    assert_ne!(APP_VERSION, RUSTDESK_PROTOCOL_VERSION);
    assert_eq!(RUSTDESK_PROTOCOL_VERSION, "1.4.9");
}

#[test]
fn transfer_disconnect_marker_survives_anyhow() {
    let error = disconnected("pull", "connection closed");
    assert!(is_transfer_disconnected(&error));
    assert_eq!(transfer_disconnect_progress(&error), Some(0));
    let progressed = disconnected_at("pull", "connection closed", 42);
    assert_eq!(transfer_disconnect_progress(&progressed), Some(42));
}

#[test]
fn resume_offset_caps_files_larger_than_four_gib() {
    let five_gib = 5 * 1024 * 1024 * 1024;
    assert_eq!(protocol_resume_offset(five_gib, five_gib).ok(), Some(u32::MAX));
    assert!(protocol_resume_offset(five_gib + 1, five_gib).is_err());
}

#[test]
fn resume_offsets_are_exact_and_checked() {
    assert_eq!(protocol_resume_offset(0, 0).ok(), Some(0));
    assert_eq!(protocol_resume_offset(99, 100).ok(), Some(99));
    assert_eq!(protocol_resume_offset(u64::from(u32::MAX), u64::MAX).ok(), Some(u32::MAX));
    assert_eq!(text(protocol_resume_offset(101, 100)), "Resume size 101 exceeds file size 100");
    assert_eq!(confirmed_offset(None, 0).ok(), Some(0));
    assert_eq!(confirmed_offset(Some(7), 7).ok(), Some(7));
    assert_eq!(text(confirmed_offset(Some(8), 7)), "Remote resume offset 8 exceeds upload size 7");
}

#[test]
fn file_resume_requires_rustdesk_1_4_2() {
    let minimum = version_number(FILE_RESUME_MIN_VERSION);
    assert!(!file_resume_supported(version_number("1.4.1"), minimum));
    assert!(file_resume_supported(version_number("1.4.2"), minimum));
    assert!(file_resume_supported(version_number("1.4.9"), minimum));
}

/// The number by which versions are compared.
fn version_number(version: &str) -> i64 {
    let parts: Vec<i64> = version.split('.').map(|part| part.parse().unwrap()).collect();
    parts[0] * 1_000_000 + parts[1] * 1_000 + parts[2] * 10
}

#[test]
fn failures_that_are_no_disconnects_say_so() {
    let error = disconnected_at("push", "gone", 3);
    assert_eq!(error_text(&error), "[push] gone");
    let failed = TransferError::Failed("no".to_owned());
    assert!(!is_transfer_disconnected(&failed));
    assert_eq!(transfer_disconnect_progress(&failed), None);
    assert_eq!(error_text(&failed), "no");
}

#[test]
fn upload_paths_are_checked_in_order() {
    assert_eq!(
        text(check_push_paths("a", &Err("missing".to_owned()), "", false)),
        "Cannot read local file a: missing"
    );
    assert_eq!(text(check_push_paths("a", &Ok(false), "", false)), "Push source is not a file: a");
    assert_eq!(text(check_push_paths("a", &Ok(true), "", false)), "Remote destination path cannot be empty");
    assert_eq!(text(check_push_paths("a", &Ok(true), "b", false)), "Local source path is not valid UTF-8");
    assert!(check_push_paths("a", &Ok(true), "b", true).is_ok());
    assert!(check_push_files(1, "a").is_ok());
    assert_eq!(text(check_push_files(2, "a")), "Only single-file uploads are supported: a");
}

#[test]
fn an_upload_runs_to_its_end() {
    let mut push = Push::start(100, true, 1_000);
    assert_eq!(push.deadline(), 301_000);
    assert_eq!(push.step(2_000, &message(digest(40, true))).ok(), Some(PushStep::Confirm { file_num: 3, offset: 40 }));
    assert_eq!(push.resumed_from, 40);
    assert_eq!(push.deadline(), 302_000);
    let sent = PushEvent::Sent { transferred: 10, finished: 50, reading: true };
    assert_eq!(push.step(3_000, &sent).ok(), Some(PushStep::Wait));
    assert_eq!((push.transferred, push.finished_size, push.attempt_bytes), (10, 50, 10));
    assert_eq!(push.deadline(), 303_000);
    assert_eq!(push.step(4_000, &sent).ok(), Some(PushStep::Wait));
    assert_eq!(push.deadline(), 303_000);
    let early = push.step(4_500, &message(PeerMessage::File(FileReply::Done { id: 1 })));
    assert_eq!(text(early), "Remote completed upload before all local data was sent");
    let last = PushEvent::Sent { transferred: 0, finished: 0, reading: false };
    assert_eq!(push.step(5_000, &last).ok(), Some(PushStep::Wait));
    assert!(push.local_done);
    assert_eq!((push.finished_size, push.attempt_bytes), (100, 60));
    let done = push.step(6_000, &message(PeerMessage::File(FileReply::Done { id: 1 })));
    assert_eq!(done.ok(), Some(PushStep::Done));
    assert_eq!(push.stats(), FileTransferStats { bytes: 100, resumed_from: 40 });
}

#[test]
fn an_upload_starts_over_where_the_partial_file_is_another_one() {
    let mut push = Push::start(100, true, 0);
    let step = push.step(0, &message(digest(40, false)));
    assert_eq!(step.ok(), Some(PushStep::Confirm { file_num: 3, offset: 0 }));
    let mut old = Push::start(100, false, 0);
    let step = old.step(0, &message(digest(40, true)));
    assert_eq!(step.ok(), Some(PushStep::Confirm { file_num: 3, offset: 0 }));
    let step = push.step(0, &message(digest(101, true)));
    assert_eq!(text(step), "Resume size 101 exceeds file size 100");
}

#[test]
fn an_upload_takes_the_confirmations_that_are_its_own() {
    let mut push = Push::start(100, true, 0);
    let other = message(PeerMessage::SendConfirm { id: 2, offset: Some(9) });
    assert_eq!(push.step(0, &other).ok(), Some(PushStep::Wait));
    let own = message(PeerMessage::SendConfirm { id: 1, offset: Some(9) });
    assert_eq!(push.step(0, &own).ok(), Some(PushStep::Apply));
    assert_eq!(push.resumed_from, 9);
    push.step(0, &PushEvent::Sent { transferred: 0, finished: 0, reading: false }).ok();
    assert_eq!(text(push.step(0, &own)), "Push confirmation arrived after the job ended");
    assert_eq!(text(push.step(0, &message(digest(1, true)))), "Push digest arrived after the job ended");
}

#[test]
fn an_upload_fails_as_it_should() {
    let mut push = Push::start(100, true, 0);
    push.step(0, &PushEvent::Sent { transferred: 3, finished: 33, reading: true }).ok();
    let closed = push.step(0, &PushEvent::Incoming(Incoming::Closed));
    assert_eq!(progress(closed), Some(33));
    let closed = push.step(0, &PushEvent::Incoming(Incoming::Closed));
    assert_eq!(text(closed), "[push] connection closed by peer");
    let broken = push.step(0, &PushEvent::Incoming(Incoming::StreamError("reset".to_owned())));
    assert_eq!(text(broken), "[push] stream error: reset");
    let malformed = push.step(0, &PushEvent::Incoming(Incoming::Malformed("bad".to_owned())));
    assert_eq!(text(malformed), "[push] invalid message: bad");
    let malformed = push.step(0, &PushEvent::Incoming(Incoming::Malformed("bad".to_owned())));
    assert_eq!(progress(malformed), None);
    assert_eq!(text(push.step(0, &PushEvent::Stalled)), "[push] made no progress for 300 seconds");
    assert_eq!(text(push.step(0, &PushEvent::ReadFailed("io".to_owned()))), "[push_send] io");
    for (sending, name, bytes) in [
        (PushSend::Request, "push_request", 0),
        (PushSend::Echo, "push_test_delay", 7),
        (PushSend::Confirmation, "push_confirm", 7),
        (PushSend::Keepalive, "push_keepalive", 33),
    ] {
        let event = PushEvent::SendFailed { sending, error: "late".to_owned(), finished: 7 };
        assert_eq!(text(push.step(0, &event)), format!("[{name}] late"));
        assert_eq!(progress(push.step(0, &event)), Some(bytes));
    }
    let error = message(PeerMessage::File(FileReply::Error { id: 1, error: "full".to_owned() }));
    assert_eq!(text(push.step(0, &error)), "Remote upload failed: full");
    let shown = message(PeerMessage::MessageBox { kind: "error".to_owned(), text: "no".to_owned() });
    assert_eq!(text(push.step(0, &shown)), "Remote upload failed: no");
    let refused = message(PeerMessage::Login(LoginReply::Error("who".to_owned())));
    assert_eq!(text(push.step(0, &refused)), "Login failed: who");
}

#[test]
fn an_upload_passes_over_what_is_not_its_own() {
    let mut push = Push::start(100, true, 0);
    let before = push;
    for other in [
        PeerMessage::TestDelay { from_client: true },
        PeerMessage::File(FileReply::Done { id: 2 }),
        PeerMessage::File(FileReply::Error { id: 2, error: "x".to_owned() }),
        PeerMessage::File(FileReply::Block { id: 1, bytes: 4 }),
        PeerMessage::MessageBox { kind: "info".to_owned(), text: "x".to_owned() },
        PeerMessage::Login(LoginReply::Nothing),
        PeerMessage::Login(LoginReply::Error(String::new())),
        PeerMessage::Other,
        PeerMessage::Empty,
    ] {
        assert_eq!(push.step(9, &message(other)).ok(), Some(PushStep::Wait));
        assert_eq!(push, before);
    }
    let probe = message(PeerMessage::TestDelay { from_client: false });
    assert_eq!(push.step(9, &probe).ok(), Some(PushStep::Echo));
}

#[test]
fn download_paths_are_checked_in_order() {
    assert_eq!(text(check_pull_paths("", "b", true, false)), "Remote source path cannot be empty");
    assert_eq!(text(check_pull_paths("a", "b", true, false)), "Pull destination is a directory: b");
    assert_eq!(text(check_pull_paths("a", "b", false, false)), "Local destination path is not valid UTF-8");
    assert!(check_pull_paths("a", "b", false, true).is_ok());
}

fn listing(entries: Vec<Entry>) -> PullEvent {
    received(PeerMessage::File(FileReply::Dir { id: 1, entries }))
}

#[test]
fn a_download_runs_to_its_end() {
    let mut pull = Pull::start(true, 0);
    let block = || received(PeerMessage::File(FileReply::Block { id: 1, bytes: 30 }));
    assert_eq!(text(pull.step(1, &block())), "Remote sent file data before file metadata");
    let done = || received(PeerMessage::File(FileReply::Done { id: 1 }));
    assert_eq!(text(pull.step(1, &done())), "Remote completed pull without file metadata");
    let entry = Entry { is_file: true, size: 100 };
    assert_eq!(pull.step(2, &listing(vec![entry])).ok(), Some(PullStep::Expect));
    assert_eq!(
        text(pull.step(2, &listing(vec![entry]))),
        "Remote sent duplicate file metadata for pull job"
    );
    assert_eq!(pull.step(3, &received(digest(0, false))).ok(), Some(PullStep::Compare));
    let partial = Some(Partial { is_identical: true, transferred_size: 40 });
    let compared = PullEvent::Compared { file_num: 3, file_size: 100, partial };
    assert_eq!(pull.step(4, &compared).ok(), Some(PullStep::Confirm { file_num: 3, offset: 40 }));
    assert_eq!(pull.deadline(), 300_004);
    assert_eq!(pull.step(5, &block()).ok(), Some(PullStep::Write));
    assert_eq!(pull.step(6, &block()).ok(), Some(PullStep::Write));
    assert_eq!(pull.attempt_bytes, 60);
    assert_eq!(pull.deadline(), 300_006);
    assert_eq!(pull.step(7, &done()).ok(), Some(PullStep::Done { size: 100 }));
    assert_eq!(
        pull.finish("f", 100, &Ok((true, 100))).ok(),
        Some(FileTransferStats { bytes: 100, resumed_from: 40 })
    );
    assert_eq!(
        text(pull.finish("f", 100, &Ok((true, 99)))),
        "Downloaded file size mismatch at f: expected 100, got 99"
    );
    assert!(pull.finish("f", 100, &Ok((false, 100))).is_err());
    assert_eq!(
        text(pull.finish("f", 100, &Err("gone".to_owned()))),
        "Downloaded file was not finalized at f: gone"
    );
}

#[test]
fn a_download_wants_one_regular_file() {
    let mut pull = Pull::start(true, 0);
    assert_eq!(
        text(pull.step(0, &listing(vec![]))),
        "Pull supports one file, but the remote path contains 0 entries"
    );
    let entry = Entry { is_file: true, size: 1 };
    assert_eq!(
        text(pull.step(0, &listing(vec![entry, entry]))),
        "Pull supports one file, but the remote path contains 2 entries"
    );
    let directory = Entry { is_file: false, size: 1 };
    assert_eq!(text(pull.step(0, &listing(vec![directory]))), "Remote source is not a regular file");
}

#[test]
fn a_download_starts_over_unless_the_partial_file_fits() {
    for (partial, offset) in [
        (None, 0),
        (Some(Partial { is_identical: false, transferred_size: 40 }), 0),
        (Some(Partial { is_identical: true, transferred_size: 0 }), 0),
        (Some(Partial { is_identical: true, transferred_size: 101 }), 0),
        (Some(Partial { is_identical: true, transferred_size: 100 }), 100),
    ] {
        let mut pull = Pull::start(true, 0);
        let compared = PullEvent::Compared { file_num: 0, file_size: 100, partial };
        assert_eq!(pull.step(0, &compared).ok(), Some(PullStep::Confirm { file_num: 0, offset }));
        assert_eq!(pull.resumed_from, u64::from(offset));
    }
    let huge = Some(Partial { is_identical: true, transferred_size: 1 << 33 });
    let mut pull = Pull::start(true, 0);
    let compared = PullEvent::Compared { file_num: 0, file_size: 1 << 34, partial: huge };
    assert_eq!(pull.step(0, &compared).ok(), Some(PullStep::Confirm { file_num: 0, offset: u32::MAX }));
}

#[test]
fn a_download_fails_as_it_should() {
    let mut pull = Pull::start(false, 0);
    assert!(pull.drops_partial());
    assert!(!Pull::start(true, 0).drops_partial());
    let closed = || PullEvent::Incoming { incoming: Incoming::Closed, finished: 12 };
    assert_eq!(text(pull.step(0, &closed())), "[pull] connection closed by peer");
    assert_eq!(progress(pull.step(0, &closed())), Some(12));
    let broken = PullEvent::Incoming { incoming: Incoming::StreamError("reset".to_owned()), finished: 12 };
    assert_eq!(text(pull.step(0, &broken)), "[pull] stream error: reset");
    let malformed = PullEvent::Incoming { incoming: Incoming::Malformed("bad".to_owned()), finished: 12 };
    assert_eq!(text(pull.step(0, &malformed)), "[pull] invalid message: bad");
    assert_eq!(progress(pull.step(0, &malformed)), None);
    assert_eq!(text(pull.step(0, &PullEvent::WriteFailed("disk".to_owned()))), "disk");
    let stalled = PullEvent::Stalled { finished: 12 };
    assert_eq!(text(pull.step(0, &stalled)), "[pull] made no progress for 300 seconds");
    assert_eq!(progress(pull.step(0, &stalled)), Some(12));
    for (sending, name, bytes) in [
        (PullSend::Request, "pull_request", 0),
        (PullSend::Echo, "pull_test_delay", 7),
        (PullSend::Confirmation, "pull_confirm", 7),
        (PullSend::Keepalive, "pull_keepalive", 7),
    ] {
        let event = PullEvent::SendFailed { sending, error: "late".to_owned(), finished: 7 };
        assert_eq!(text(pull.step(0, &event)), format!("[{name}] late"));
        assert_eq!(progress(pull.step(0, &event)), Some(bytes));
    }
    let error = received(PeerMessage::File(FileReply::Error { id: 1, error: "gone".to_owned() }));
    assert_eq!(text(pull.step(0, &error)), "Remote download failed: gone");
    let shown = received(PeerMessage::MessageBox { kind: "error".to_owned(), text: "no".to_owned() });
    assert_eq!(text(pull.step(0, &shown)), "Remote download failed: no");
    let refused = received(PeerMessage::Login(LoginReply::Error("who".to_owned())));
    assert_eq!(text(pull.step(0, &refused)), "Login failed: who");
    let probe = received(PeerMessage::TestDelay { from_client: false });
    assert_eq!(pull.step(0, &probe).ok(), Some(PullStep::Echo));
    let other = received(PeerMessage::File(FileReply::Block { id: 2, bytes: 1 }));
    assert_eq!(pull.step(0, &other).ok(), Some(PullStep::Wait));
}
