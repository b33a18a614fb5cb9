use base64::Engine;
use rustshell::codec::password_response;
use rustshell::crypto::Identity;
use rustshell::handshake::{
    service_for, Action, Handshake, HandshakeEvent, Mode, Phase, PunchFailure, RelayServer, RendezvousIncoming,
    RendezvousReply, Service,
};
use rustshell::message::{Incoming, LoginReply, Peer, PeerMessage};
use sodiumoxide::crypto::sign;

fn start(licence_key: &str, default_key: &str, service: Service) -> Handshake {
    Handshake::start(
        "123".to_owned(),
        licence_key.to_owned(),
        default_key,
        "example.test:21116".to_owned(),
        "secret".to_owned(),
        service,
        77,
        "linux".to_owned(),
    )
}

fn key_text(key: &sign::PublicKey) -> String {
    base64::engine::general_purpose::STANDARD.encode(key.0)
}

fn identity(id: &str, pk: Vec<u8>) -> HandshakeEvent {
    HandshakeEvent::Identity(Ok(Identity { id: id.to_owned(), pk }))
}

fn reply(reply: RendezvousReply) -> HandshakeEvent {
    HandshakeEvent::Rendezvous(RendezvousIncoming::Reply(reply))
}

fn arrived(message: PeerMessage) -> HandshakeEvent {
    HandshakeEvent::Incoming(Incoming::Message(message))
}

fn failed(address: &str) -> HandshakeEvent {
    HandshakeEvent::ConnectFailed { address: address.to_owned(), error: "refused".to_owned() }
}

fn direct(pk: Vec<u8>) -> RendezvousReply {
    RendezvousReply::PunchHole {
        address: Some("10.0.0.7:5000".to_owned()),
        relay_server: "relay.test".to_owned(),
        pk,
        failure: PunchFailure::Other,
        other_failure: String::new(),
    }
}

fn text(result: Result<Action, String>) -> String {
    match result {
        Ok(_) => panic!("expected an error"),
        Err(error) => error,
    }
}

/// A handshake whose server key is `server`, at the point where the way to the device is awaited.
fn awaiting_route(server: &sign::PublicKey) -> Handshake {
    let mut handshake = start(&key_text(server), "", Service::Terminal);
    assert!(matches!(handshake.step(HandshakeEvent::Connected), Ok(Action::AwaitKeys)));
    assert!(matches!(handshake.step(HandshakeEvent::NoKeys), Ok(Action::SendPunchHole(_))));
    assert!(matches!(handshake.step(HandshakeEvent::Sent), Ok(Action::AwaitRoute)));
    handshake
}

/// A handshake in which the device is to say who it is, with the key that it is vouched to have.
fn awaiting_signed_id() -> (Handshake, sign::SecretKey) {
    let (server, server_secret) = sign::gen_keypair();
    let (device, device_secret) = sign::gen_keypair();
    let mut handshake = awaiting_route(&server);
    let vouch = sign::sign(b"the device", &server_secret);
    assert!(matches!(handshake.step(reply(direct(vouch))), Ok(Action::DialDirect(_))));
    match handshake.step(HandshakeEvent::Connected) {
        Ok(Action::ReadIdentity(raw)) => assert_eq!(raw, b"the device".to_vec()),
        _ => panic!("expected an identity"),
    }
    assert!(matches!(handshake.step(identity("123", device.0.to_vec())), Ok(Action::AwaitSignedId)));
    (handshake, device_secret)
}

/// A handshake in which the login reply is awaited.
fn awaiting_login() -> Handshake {
    let (mut handshake, device_secret) = awaiting_signed_id();
    let signed = sign::sign(b"me", &device_secret);
    assert!(matches!(
        handshake.step(arrived(PeerMessage::SignedId(signed))),
        Ok(Action::ReadIdentity(_))
    ));
    assert!(matches!(handshake.step(identity("123", vec![9; 32])), Ok(Action::SendPublicKey(_))));
    assert!(matches!(handshake.step(HandshakeEvent::Sent), Ok(Action::AwaitChallenge)));
    let challenge = PeerMessage::Hash { salt: "salt".to_owned(), challenge: "challenge".to_owned() };
    match handshake.step(arrived(challenge)) {
        Ok(Action::SendLogin(request)) => {
            assert_eq!(request.username, "123");
            assert_eq!(request.password, password_response("secret", "salt", "challenge"));
            assert_eq!(request.my_id, "RustShell-77");
            assert_eq!(request.version, "1.4.9");
            assert_eq!(request.my_platform, "linux");
            assert!(request.service_id.starts_with("ts_"));
            assert_eq!(request.service_id.len(), 39);
            for (i, c) in request.service_id.chars().skip(3).enumerate() {
                if [8, 13, 18, 23].contains(&i) {
                    assert_eq!(c, '-');
                } else {
                    assert!(matches!(c, '0'..='9' | 'a'..='f'));
                }
            }
        }
        _ => panic!("expected a login request"),
    }
    assert!(matches!(handshake.step(HandshakeEvent::Sent), Ok(Action::AwaitLogin)));
    handshake
}

#[test]
fn a_handshake_ends_with_the_device() {
    let mut handshake = awaiting_login();
    let probe = PeerMessage::TestDelay { from_client: false };
    assert!(matches!(handshake.step(arrived(probe)), Ok(Action::Echo)));
    assert!(matches!(handshake.step(arrived(PeerMessage::Other)), Ok(Action::AwaitLogin)));
    let peer = Peer { hostname: "h".to_owned(), platform: "Linux".to_owned(), version: "1.4.9".to_owned() };
    match handshake.step(arrived(PeerMessage::Login(LoginReply::Peer(peer)))) {
        Ok(Action::Finished(peer)) => assert_eq!(peer.hostname, "h"),
        _ => panic!("expected the device"),
    }
    assert_eq!(handshake.phase, Phase::Done);
    assert_eq!((handshake.vouched_id.as_str(), handshake.peer_id.as_str()), ("123", "123"));
}

#[test]
fn a_login_is_refused_in_words() {
    let mut handshake = awaiting_login();
    let empty = PeerMessage::Login(LoginReply::Error(String::new()));
    assert!(matches!(handshake.step(arrived(empty)), Ok(Action::AwaitLogin)));
    let refused = PeerMessage::Login(LoginReply::Error("Wrong Password".to_owned()));
    assert_eq!(text(handshake.step(arrived(refused))), "Login failed: Wrong Password");
    let bare = HandshakeEvent::BareLogin {
        message_error: "bad tag".to_owned(),
        reply: Ok(LoginReply::Error("no".to_owned())),
    };
    assert_eq!(text(handshake.step(bare)), "Login failed: no");
    let bare = HandshakeEvent::BareLogin { message_error: "bad tag".to_owned(), reply: Err("eof".to_owned()) };
    assert_eq!(text(handshake.step(bare)), "Invalid login response: bad tag: eof");
    let late = HandshakeEvent::LoginTimedOut("deadline has elapsed".to_owned());
    assert_eq!(text(handshake.step(late)), "[wait_login_response] timeout: deadline has elapsed");
    assert_eq!(
        text(handshake.step(HandshakeEvent::Incoming(Incoming::Closed))),
        "[wait_login_response] connection closed by peer"
    );
    assert_eq!(
        text(handshake.step(HandshakeEvent::Incoming(Incoming::StreamError("x".to_owned())))),
        "[wait_login_response] stream error: x"
    );
}

#[test]
fn a_file_transfer_needs_no_terminal_name() {
    let (mut handshake, device_secret) = awaiting_signed_id();
    handshake.service = Service::FileTransfer;
    let signed = sign::sign(b"me", &device_secret);
    handshake.step(arrived(PeerMessage::SignedId(signed))).ok();
    handshake.step(identity("123", vec![9; 32])).ok();
    handshake.step(HandshakeEvent::Sent).ok();
    let challenge = PeerMessage::Hash { salt: String::new(), challenge: String::new() };
    match handshake.step(arrived(challenge)) {
        Ok(Action::SendLogin(request)) => assert_eq!(request.service_id, ""),
        _ => panic!("expected a login request"),
    }
}

#[test]
fn the_device_must_be_the_one_that_was_asked_for() {
    let (server, server_secret) = sign::gen_keypair();
    let mut handshake = awaiting_route(&server);
    handshake.step(reply(direct(sign::sign(b"x", &server_secret)))).ok();
    handshake.step(HandshakeEvent::Connected).ok();
    assert_eq!(
        text(handshake.step(identity("456", vec![1; 32]))),
        "Rendezvous vouched for device 456, expected 123"
    );
    assert_eq!(
        text(handshake.step(identity("123", vec![1; 31]))),
        "Failed to verify peer key from rendezvous: Wrong public key length"
    );
    assert_eq!(
        text(handshake.step(HandshakeEvent::Identity(Err("eof".to_owned())))),
        "Failed to verify peer key from rendezvous: eof"
    );

    let (mut handshake, device_secret) = awaiting_signed_id();
    let (_, other_secret) = sign::gen_keypair();
    let forged = sign::sign(b"me", &other_secret);
    assert_eq!(text(handshake.step(arrived(PeerMessage::SignedId(forged)))), "Signature mismatch");
    let signed = sign::sign(b"me", &device_secret);
    handshake.step(arrived(PeerMessage::SignedId(signed))).ok();
    assert_eq!(
        text(handshake.step(identity("456", vec![1; 32]))),
        "Connected peer identity is 456, expected 123"
    );
    assert_eq!(text(handshake.step(identity("123", vec![]))), "Wrong public key length");
}

#[test]
fn what_the_server_vouches_for_must_be_signed() {
    let (server, _) = sign::gen_keypair();
    let (_, other_secret) = sign::gen_keypair();
    let mut handshake = awaiting_route(&server);
    handshake.step(reply(direct(sign::sign(b"x", &other_secret)))).ok();
    assert_eq!(
        text(handshake.step(HandshakeEvent::Connected)),
        "Failed to verify peer key from rendezvous: Signature mismatch"
    );
    let mut handshake = awaiting_route(&server);
    handshake.step(reply(direct(vec![]))).ok();
    assert!(matches!(handshake.step(HandshakeEvent::Connected), Ok(Action::AwaitSignedId)));
    assert_eq!(
        text(handshake.step(arrived(PeerMessage::SignedId(vec![1])))),
        "No peer public key from rendezvous server"
    );
}

#[test]
fn a_server_key_that_is_none_is_an_error_in_the_end() {
    let mut handshake = start("licence", "", Service::Terminal);
    match handshake.step(HandshakeEvent::Connected) {
        Ok(Action::SendPunchHole(request)) => {
            assert_eq!((request.id.as_str(), request.licence_key.as_str()), ("123", "licence"));
            assert_eq!((request.service, request.version), (Service::Terminal, "1.4.9"));
        }
        _ => panic!("expected a request"),
    }
    handshake.step(HandshakeEvent::Sent).ok();
    handshake.step(reply(direct(vec![1]))).ok();
    assert_eq!(text(handshake.step(HandshakeEvent::Connected)), "Invalid rendezvous server key");
}

#[test]
fn without_a_licence_key_the_default_key_counts() {
    let (server, _) = sign::gen_keypair();
    let mut handshake = start("", &key_text(&server), Service::Terminal);
    assert_eq!(handshake.server_key, Some(server.0));
    assert!(matches!(handshake.step(HandshakeEvent::Connected), Ok(Action::AwaitKeys)));
}

#[test]
fn the_server_may_offer_keys() {
    let (server, server_secret) = sign::gen_keypair();
    let offer = |keys| reply(RendezvousReply::KeyExchange { keys });
    let good = sign::sign(&[3; 32], &server_secret);
    let ready = || {
        let mut handshake = start(&key_text(&server), "", Service::Terminal);
        handshake.step(HandshakeEvent::Connected).ok();
        handshake
    };
    let mut handshake = ready();
    match handshake.step(offer(vec![good.clone()])) {
        Ok(Action::SendKeyExchange(keys)) => {
            assert_eq!(keys.asymmetric_value.len(), 32);
            assert_eq!(keys.symmetric_value.len(), 48);
        }
        _ => panic!("expected keys"),
    }
    assert!(matches!(handshake.step(HandshakeEvent::Sent), Ok(Action::SendPunchHole(_))));
    let short = sign::sign(&[3; 31], &server_secret);
    let (_, other_secret) = sign::gen_keypair();
    let forged = sign::sign(&[3; 32], &other_secret);
    for keys in [vec![], vec![good.clone(), good.clone()], vec![short], vec![forged]] {
        assert!(matches!(ready().step(offer(keys)), Ok(Action::SendPunchHole(_))));
    }
    for incoming in [
        RendezvousIncoming::Malformed("x".to_owned()),
        RendezvousIncoming::StreamError("x".to_owned()),
        RendezvousIncoming::Reply(RendezvousReply::Other),
    ] {
        assert!(matches!(
            ready().step(HandshakeEvent::Rendezvous(incoming)),
            Ok(Action::SendPunchHole(_))
        ));
    }
    assert_eq!(
        text(ready().step(HandshakeEvent::Rendezvous(RendezvousIncoming::Closed))),
        "Rendezvous server closed connection"
    );
}

#[test]
fn the_relay_is_the_fallback() {
    let (server, _) = sign::gen_keypair();
    let mut handshake = awaiting_route(&server);
    match handshake.step(reply(direct(vec![]))) {
        Ok(Action::DialDirect(address)) => assert_eq!(address, "10.0.0.7:5000"),
        _ => panic!("expected an address"),
    }
    match handshake.step(failed("10.0.0.7:5000")) {
        Ok(Action::DialRelay(RelayServer::Named(name))) => assert_eq!(name, "relay.test"),
        _ => panic!("expected a relay"),
    }
    assert_eq!(
        text(handshake.step(failed("relay.test:21117"))),
        "Failed to connect to relay relay.test:21117: refused"
    );
    match handshake.step(HandshakeEvent::Connected) {
        Ok(Action::SendRelayRequest(request)) => {
            assert_eq!((request.id.as_str(), request.uuid.as_str()), ("123", ""));
        }
        _ => panic!("expected a request"),
    }
    assert!(matches!(handshake.step(HandshakeEvent::Sent), Ok(Action::AwaitSignedId)));

    let mut handshake = awaiting_route(&server);
    let relay = RendezvousReply::Relay { relay_server: String::new(), uuid: "u".to_owned(), pk: vec![] };
    assert!(matches!(handshake.step(reply(relay)), Ok(Action::DialRelay(RelayServer::NextPort))));
    match handshake.step(HandshakeEvent::Connected) {
        Ok(Action::SendRelayRequest(request)) => assert_eq!(request.uuid, "u"),
        _ => panic!("expected a request"),
    }
    assert_eq!(text(handshake.step(HandshakeEvent::SendFailed("late".to_owned()))), "late");
}

#[test]
fn a_route_is_refused_in_words() {
    let (server, _) = sign::gen_keypair();
    let refused = |failure| RendezvousReply::PunchHole {
        address: None,
        relay_server: String::new(),
        pk: vec![],
        failure,
        other_failure: "other words".to_owned(),
    };
    for (failure, words) in [
        (PunchFailure::IdNotExist, "ID does not exist"),
        (PunchFailure::Offline, "Remote device is offline"),
        (PunchFailure::LicenseMismatch, "Key mismatch"),
        (PunchFailure::LicenseOveruse, "Key overuse"),
        (PunchFailure::Other, "other words"),
    ] {
        let mut handshake = awaiting_route(&server);
        assert_eq!(
            text(handshake.step(reply(refused(failure)))),
            format!("Connection refused: {words}")
        );
    }
    let mut handshake = awaiting_route(&server);
    assert_eq!(text(handshake.step(reply(RendezvousReply::Empty))), "Unexpected response: None");
    assert_eq!(
        text(handshake.step(reply(RendezvousReply::Other))),
        "Unexpected response: Some(\"unknown\")"
    );
    for (incoming, words) in [
        (RendezvousIncoming::Closed, "[wait_rendezvous_response] connection closed by peer"),
        (RendezvousIncoming::StreamError("x".to_owned()), "[wait_rendezvous_response] stream error: x"),
        (
            RendezvousIncoming::Malformed("x".to_owned()),
            "[wait_rendezvous_response] failed to parse RendezvousMessage: x",
        ),
    ] {
        assert_eq!(text(handshake.step(HandshakeEvent::Rendezvous(incoming))), words);
    }
}

#[test]
fn the_other_steps_fail_in_words() {
    let mut handshake = start("", "", Service::Terminal);
    assert_eq!(
        text(handshake.step(failed("example.test:21116"))),
        "Failed to connect to example.test:21116: refused"
    );
    handshake.step(HandshakeEvent::Connected).ok();
    assert_eq!(text(handshake.step(HandshakeEvent::SendFailed("late".to_owned()))), "late");

    let (mut handshake, device_secret) = awaiting_signed_id();
    assert_eq!(text(handshake.step(arrived(PeerMessage::Empty))), "Expected SignedId, got: None");
    assert_eq!(
        text(handshake.step(arrived(PeerMessage::Other))),
        "Expected SignedId, got: Some(\"other\")"
    );
    assert_eq!(
        text(handshake.step(HandshakeEvent::Incoming(Incoming::Malformed("x".to_owned())))),
        "[wait_signed_id] failed to parse Message: x"
    );
    let signed = sign::sign(b"me", &device_secret);
    handshake.step(arrived(PeerMessage::SignedId(signed))).ok();
    handshake.step(identity("123", vec![9; 32])).ok();
    handshake.step(HandshakeEvent::Sent).ok();
    assert_eq!(text(handshake.step(arrived(PeerMessage::Other))), "Expected Hash challenge");
    assert_eq!(
        text(handshake.step(HandshakeEvent::Incoming(Incoming::Closed))),
        "[wait_hash] connection closed by peer"
    );
}

#[test]
fn files_move_over_their_own_service() {
    for mode in [Mode::Push, Mode::Pull, Mode::FileSession] {
        assert_eq!(service_for(mode), Service::FileTransfer);
    }
    for mode in [Mode::Terminal, Mode::Exec, Mode::Session] {
        assert_eq!(service_for(mode), Service::Terminal);
    }
}
