use bitwarden_ssh_agent::agent::{KeySummary, VaultKey};
use bitwarden_ssh_agent::bitwarden::{SshKeyData, SshKeyItem};
use bitwarden_ssh_agent::control::{
    accept_connection, body_read, check_peer_is_self, client_connected, client_prompted,
    client_received, client_sent, command_read, dispatch_command, encode_unlock_request,
    handle_list, handle_refresh, handle_unlock, length_read, read_response, resolve_control_path,
    serve_connection, summary_line, write_response, Accepted, AfterRead, ClientStep, Request,
    Response, SendError, Serving, CMD_LIST, CMD_REFRESH, CMD_UNLOCK, CONTROL_SOCKET_NAME,
    MAX_PASSWORD_LEN, STATUS_ERROR, STATUS_OK, STATUS_WRONG_PASSWORD,
};
use bitwarden_ssh_agent::secret::Secret;
use bitwarden_ssh_agent::unlock::{RefreshOutcome, UnlockError, UnlockOutcome};
use ssh_key::private::Ed25519Keypair;
use ssh_key::{LineEnding, PrivateKey};

fn secret(s: &str) -> Secret {
    Secret::new(s.to_string())
}

fn refusal(s: Serving) -> (u8, String, String) {
    match s {
        Serving::Refuse(response, e) => (response.status, response.message, e),
        _ => panic!("not refused"),
    }
}

/// What the daemon makes of a whole request.
fn serve(stream: &[u8]) -> Serving {
    assert!(matches!(serve_connection(), Serving::Read(1, AfterRead::Command)));
    match command_read(Ok(stream[0])) {
        Serving::Read(n, AfterRead::Length) => {
            assert_eq!(n, 4);
            let length = [stream[1], stream[2], stream[3], stream[4]];
            match length_read(Ok(length)) {
                Serving::Read(n, AfterRead::Body) => body_read(Ok(stream[5..5 + n].to_vec())),
                other => other,
            }
        }
        other => other,
    }
}

fn key(name: &str, byte: u8) -> VaultKey {
    let pem = PrivateKey::from(Ed25519Keypair::from_seed(&[byte; 32]))
        .to_openssh(LineEnding::LF)
        .unwrap();
    let item = SshKeyItem {
        id: "id".to_string(),
        name: name.to_string(),
        ssh_key: SshKeyData {
            private_key: pem.to_string(),
            public_key: String::new(),
            key_fingerprint: None,
        },
    };
    match VaultKey::from_item(&item) {
        Ok(k) => k,
        Err(e) => panic!("{}", e.message()),
    }
}

#[test]
fn an_unlock_request_is_the_command_the_length_and_the_password() {
    match encode_unlock_request(&secret("p\u{e9}")) {
        Ok(bytes) => assert_eq!(bytes, vec![CMD_UNLOCK, 0, 0, 0, 3, b'p', 0xc3, 0xa9]),
        Err(e) => panic!("{}", e),
    }
    match encode_unlock_request(&secret(&"x".repeat(300))) {
        Ok(bytes) => {
            assert_eq!(&bytes[..5], &[CMD_UNLOCK, 0, 0, 1, 44]);
            assert_eq!(bytes.len(), 305);
        }
        Err(e) => panic!("{}", e),
    }
}

#[test]
fn odd_passwords_are_not_sent() {
    assert_eq!(
        encode_unlock_request(&secret("")),
        Err("refusing to send an empty password".to_string())
    );
    let long = "x".repeat(MAX_PASSWORD_LEN as usize + 1);
    assert_eq!(
        encode_unlock_request(&secret(&long)),
        Err("password is implausibly long (8193 bytes); refusing to send".to_string())
    );
    let longest = "x".repeat(MAX_PASSWORD_LEN as usize);
    assert!(encode_unlock_request(&secret(&longest)).is_ok());
}

#[test]
fn the_daemon_gets_what_the_client_sends() {
    for password in vec!["hunter2", "p\u{e9}\u{1f511}", " spaces "] {
        match client_prompted(Ok(secret(password))) {
            ClientStep::Send(bytes) => match serve(&bytes) {
                Serving::Unlock(p) => assert_eq!(p.expose(), password),
                _ => panic!("not understood"),
            },
            _ => panic!("not sent"),
        }
    }
    match client_connected(Request::Refresh, "/s", Ok(())) {
        ClientStep::Send(bytes) => {
            assert_eq!(bytes, vec![CMD_REFRESH]);
            assert!(matches!(serve(&bytes), Serving::Refresh));
        }
        _ => panic!("not sent"),
    }
    match client_connected(Request::List, "/s", Ok(())) {
        ClientStep::Send(bytes) => {
            assert_eq!(bytes, vec![CMD_LIST]);
            assert!(matches!(serve(&bytes), Serving::List));
        }
        _ => panic!("not sent"),
    }
}

#[test]
fn bad_requests_get_an_answer() {
    assert_eq!(
        refusal(dispatch_command(9)),
        (
            STATUS_ERROR,
            "unknown command byte 9".to_string(),
            "unknown command byte 9".to_string()
        )
    );
    assert_eq!(
        refusal(command_read(Err("early eof".to_string()))),
        (
            STATUS_ERROR,
            "bad request: early eof".to_string(),
            "reading command byte: early eof".to_string()
        )
    );
    assert_eq!(
        refusal(length_read(Err("early eof".to_string()))).1,
        "bad request: reading password length prefix: early eof"
    );
    assert_eq!(refusal(length_read(Ok([0, 0, 0, 0]))).1, "bad request: empty password");
    assert_eq!(
        refusal(length_read(Ok([0, 0, 0x20, 1]))).1,
        "bad request: password frame too large (8193 bytes)"
    );
    assert_eq!(
        refusal(length_read(Ok([255, 255, 255, 255]))).1,
        "bad request: password frame too large (4294967295 bytes)"
    );
    assert!(matches!(
        length_read(Ok([0, 0, 0x20, 0])),
        Serving::Read(8192, AfterRead::Body)
    ));
    assert_eq!(
        refusal(body_read(Err("early eof".to_string()))).1,
        "bad request: reading password body: early eof"
    );
    assert_eq!(
        refusal(body_read(Ok(vec![0xff]))).2,
        "password was not valid UTF-8"
    );
}

#[test]
fn responses_come_back_with_their_exit_codes() {
    for (status, code) in vec![
        (STATUS_OK, 0),
        (STATUS_WRONG_PASSWORD, 2),
        (STATUS_ERROR, 1),
        (77, 1),
    ] {
        let bytes = write_response(&Response { status, message: "caf\u{e9}".to_string() });
        assert_eq!(bytes[0], status);
        match read_response(&bytes) {
            Ok(reply) => {
                assert_eq!(reply.message, "caf\u{e9}");
                assert_eq!(reply.exit_code, code);
                assert_eq!(reply.is_error, status != STATUS_OK);
            }
            Err(e) => panic!("{}", e),
        }
    }
    match read_response(&[]) {
        Err(e) => assert_eq!(e, "the daemon closed the connection without responding"),
        Ok(_) => panic!("a reply"),
    }
    match read_response(&[STATUS_OK, b'a', 0xff]) {
        Ok(reply) => assert_eq!(reply.message, "a\u{fffd}"),
        Err(e) => panic!("{}", e),
    }
}

#[test]
fn unlocking_is_reported() {
    let r = handle_unlock(Ok(UnlockOutcome::Unlocked(2)));
    assert_eq!(r.status, STATUS_OK);
    assert_eq!(r.message, "vault unlocked; 2 SSH key(s) now served by the agent");
    let r = handle_unlock(Ok(UnlockOutcome::AlreadyUnlocked(10)));
    assert_eq!(r.status, STATUS_OK);
    assert_eq!(r.message, "vault was already unlocked; 10 SSH key(s) served");
    let r = handle_unlock(Err(UnlockError::WrongPassword("no".to_string())));
    assert_eq!(r.status, STATUS_WRONG_PASSWORD);
    assert_eq!(r.message, "wrong master password: no");
    let r = handle_unlock(Err(UnlockError::Other("no".to_string())));
    assert_eq!(r.status, STATUS_ERROR);
    assert_eq!(r.message, "unlock failed: no");
}

#[test]
fn refreshing_is_reported() {
    let r = handle_refresh(Ok(RefreshOutcome::Refreshed(0)));
    assert_eq!(r.status, STATUS_OK);
    assert_eq!(r.message, "vault refreshed; 0 SSH key(s) now served by the agent");
    let r = handle_refresh(Ok(RefreshOutcome::StillLocked));
    assert_eq!(r.status, STATUS_OK);
    assert_eq!(
        r.message,
        "vault is still locked; nothing to refresh yet (run `unlock` first)"
    );
    let r = handle_refresh(Err("no".to_string()));
    assert_eq!(r.status, STATUS_ERROR);
    assert_eq!(r.message, "refresh failed: no");
}

#[test]
fn keys_are_listed_one_to_a_line() {
    let r = handle_list(Ok(&Vec::new()));
    assert_eq!(r.status, STATUS_OK);
    assert_eq!(r.message, "The agent has no identities.");
    let keys = vec![key("One", 1), key("Two", 2)];
    let line = |k: &VaultKey| {
        let s = k.summary();
        format!("{}  {}  {}", s.algorithm, s.fingerprint, s.comment)
    };
    let r = handle_list(Ok(&keys));
    assert_eq!(r.status, STATUS_OK);
    assert_eq!(r.message, format!("{}\n{}", line(&keys[0]), line(&keys[1])));
    let r = handle_list(Err("no".to_string()));
    assert_eq!(r.status, STATUS_ERROR);
    assert_eq!(r.message, "could not list keys: no");
    assert_eq!(
        summary_line(&KeySummary {
            algorithm: "a".to_string(),
            fingerprint: "f".to_string(),
            comment: "c".to_string(),
        }),
        "a  f  c"
    );
}

#[test]
fn only_the_own_user_is_served() {
    assert!(check_peer_is_self(Ok(1000), 1000).is_ok());
    assert_eq!(
        check_peer_is_self(Ok(0), 1000),
        Err("peer uid 0 does not match our own uid 1000".to_string())
    );
    assert_eq!(
        check_peer_is_self(Err("x".to_string()), 1000),
        Err("reading control socket peer credentials: x".to_string())
    );
    assert!(matches!(accept_connection(None, 1), Accepted::Backoff));
    assert!(matches!(accept_connection(Some(Ok(1)), 1), Accepted::Serve));
    assert!(matches!(accept_connection(Some(Ok(2)), 1), Accepted::Reject(_)));
}

#[test]
fn a_daemon_that_is_not_there_is_reported_before_any_prompt() {
    match client_connected(Request::Unlock, "/run/x.ctl", Err("refused".to_string())) {
        ClientStep::Fail(e) => assert_eq!(
            e,
            "could not connect to the daemon control socket at /run/x.ctl (refused).\nIs the service running?  Start it with:\n    systemctl --user start bitwarden-ssh-agent.service"
        ),
        _ => panic!("no failure"),
    }
    match client_connected(Request::List, "/run/x.ctl", Err("refused".to_string())) {
        ClientStep::Fail(e) => assert_eq!(
            e,
            "could not connect to the daemon control socket at /run/x.ctl (refused). Is the service running?"
        ),
        _ => panic!("no failure"),
    }
    // A refresh without a daemon is no failure.
    match client_connected(Request::Refresh, "/run/x.ctl", Err("refused".to_string())) {
        ClientStep::NoDaemon(said) => assert_eq!(
            said,
            "could not connect to the daemon control socket at /run/x.ctl (refused). Is the service running?"
        ),
        _ => panic!("something else"),
    }
    assert!(matches!(
        client_connected(Request::Unlock, "/run/x.ctl", Ok(())),
        ClientStep::Prompt
    ));
}

#[test]
fn what_keeps_a_request_from_being_sent_is_told() {
    let why = |request, e| match client_sent(request, Err(e)) {
        ClientStep::Fail(e) => e,
        _ => panic!("no failure"),
    };
    let x = || "x".to_string();
    assert_eq!(
        why(Request::Unlock, SendError::Flush(x())),
        "sending password to the daemon: x"
    );
    assert_eq!(
        why(Request::Refresh, SendError::Write(x())),
        "sending refresh request to the daemon: x"
    );
    assert_eq!(why(Request::Refresh, SendError::Flush(x())), "flushing refresh request: x");
    assert_eq!(
        why(Request::List, SendError::Write(x())),
        "sending list request to the daemon: x"
    );
    assert_eq!(why(Request::List, SendError::Flush(x())), "flushing list request: x");
    assert_eq!(why(Request::List, SendError::Close(x())), "closing write side: x");
    assert!(matches!(client_sent(Request::List, Ok(())), ClientStep::Receive));
    match client_prompted(Err("aborted by user".to_string())) {
        ClientStep::Fail(e) => assert_eq!(e, "aborted by user"),
        _ => panic!("no failure"),
    }
}

#[test]
fn the_client_shows_the_response() {
    match client_received(Ok(vec![STATUS_WRONG_PASSWORD, b'n', b'o'])) {
        ClientStep::Finish(reply) => {
            assert_eq!(reply.message, "no");
            assert_eq!(reply.exit_code, 2);
            assert!(reply.is_error);
        }
        _ => panic!("no reply"),
    }
    match client_received(Ok(Vec::new())) {
        ClientStep::Fail(e) => {
            assert_eq!(e, "the daemon closed the connection without responding")
        }
        _ => panic!("a reply"),
    }
    match client_received(Err("x".to_string())) {
        ClientStep::Fail(e) => assert_eq!(e, "reading response from the daemon: x"),
        _ => panic!("a reply"),
    }
}

#[test]
fn the_control_socket_is_in_the_runtime_directory() {
    assert_eq!(CONTROL_SOCKET_NAME, "bitwarden-ssh-agent.ctl");
    assert_eq!(
        resolve_control_path(None, Some(b"/run/user/1".to_vec())),
        Ok(b"/run/user/1/bitwarden-ssh-agent.ctl".to_vec())
    );
    assert_eq!(
        resolve_control_path(Some(b"/x".to_vec()), None),
        Ok(b"/x".to_vec())
    );
    assert_eq!(
        resolve_control_path(None, Some(Vec::new())),
        Err("XDG_RUNTIME_DIR is not set; pass --control-socket to choose a path explicitly".to_string())
    );
}
