use bitwarden_ssh_agent::serve::{
    bind_socket, config_loaded, mask_restored, mask_set, note_listening, note_loaded,
    socket_bound, socket_directory_made, socket_mode_set, sockets_bound, stale_socket_removed,
    startup_tried, version_known, BindStep, Note, Occupant, ServeStep, SOCKET_MODE,
    SOCKET_UMASK,
};

fn x() -> String {
    "x".to_string()
}

#[test]
fn the_daemon_comes_up_without_key_cli_and_password() {
    match config_loaded(Ok(false)) {
        (Some(Note::Warning(said)), ServeStep::CheckVersion) => assert_eq!(
            said,
            "no Bitwarden API key found (BW_CLIENTID/BW_CLIENTSECRET or config.toml); the `bw` CLI must already be logged in for unlocking to work"
        ),
        _ => panic!("something else"),
    }
    assert!(matches!(config_loaded(Ok(true)), (None, ServeStep::CheckVersion)));
    match version_known(Err(x())) {
        (Some(Note::Error(said)), ServeStep::StartupUnlock) => {
            assert_eq!(said, "Bitwarden CLI check failed: x")
        }
        _ => panic!("something else"),
    }
    match version_known(Ok("2024".to_string())) {
        (Some(Note::Info(said)), ServeStep::StartupUnlock) => {
            assert_eq!(said, "using Bitwarden CLI version 2024")
        }
        _ => panic!("something else"),
    }
    match startup_tried(Ok(false)) {
        (Some(Note::Info(said)), ServeStep::Bind) => assert_eq!(
            said,
            "no master password credential provisioned; will prompt via systemd-ask-password on first use"
        ),
        _ => panic!("something else"),
    }
    match startup_tried(Err(x())) {
        (Some(Note::Error(said)), ServeStep::Bind) => {
            assert_eq!(said, "startup unlock failed: x")
        }
        _ => panic!("something else"),
    }
    assert!(matches!(startup_tried(Ok(true)), (None, ServeStep::Bind)));
    assert!(matches!(sockets_bound(Ok(())), (None, ServeStep::Listen)));
}

#[test]
fn a_refused_configuration_or_socket_stops_the_daemon() {
    match config_loaded(Err(x())) {
        (None, ServeStep::Stop(e)) => assert_eq!(e, "x"),
        _ => panic!("going on"),
    }
    match sockets_bound(Err(x())) {
        (None, ServeStep::Stop(e)) => assert_eq!(e, "x"),
        _ => panic!("going on"),
    }
}

#[test]
fn the_socket_is_announced() {
    match note_listening("/s") {
        (Note::Info(a), Note::Info(b)) => {
            assert_eq!(a, "listening on /s");
            assert_eq!(b, "point SSH at it with: export SSH_AUTH_SOCK=/s");
        }
        _ => panic!("something else"),
    }
}

#[test]
fn what_was_loaded_is_noted() {
    match note_loaded(0) {
        Note::Warning(said) => assert_eq!(
            said,
            "vault unlocked but contains no usable SSH Key items (create one in Bitwarden of type 'SSH Key')"
        ),
        _ => panic!("something else"),
    }
    match note_loaded(3) {
        Note::Info(said) => assert_eq!(said, "loaded 3 SSH key(s) into the agent"),
        _ => panic!("something else"),
    }
}

fn refused(step: BindStep) -> String {
    match step {
        BindStep::Fail(why) => why,
        _ => panic!("not refused"),
    }
}

#[test]
fn only_stale_sockets_are_removed() {
    assert!(matches!(bind_socket("/s", Occupant::Nothing), BindStep::MakeDirectory));
    assert!(matches!(bind_socket("/s", Occupant::Socket), BindStep::Remove));
    assert_eq!(
        refused(bind_socket("/s", Occupant::Other)),
        "refusing to remove /s: exists and is not a socket"
    );
    assert_eq!(refused(bind_socket("/s", Occupant::Unknown(x()))), "stat /s: x");
}

#[test]
fn a_socket_is_made_under_its_mask() {
    assert!(matches!(stale_socket_removed("/d/s", Ok(())), BindStep::MakeDirectory));
    assert!(matches!(
        socket_directory_made("/d", Ok(())),
        BindStep::SetMask(0o177)
    ));
    assert!(matches!(mask_set(0o022), BindStep::Bind { old: 0o022 }));
    assert!(matches!(
        socket_bound(0o022, Ok(())),
        BindStep::RestoreMask { old: 0o022, made: Ok(()) }
    ));
    assert!(matches!(mask_restored("/d/s", Ok(())), BindStep::SetMode(0o600)));
    assert!(matches!(socket_mode_set("/d/s", Ok(())), BindStep::Ready));
}

#[test]
fn the_mask_is_put_back_where_no_socket_could_be_made() {
    match socket_bound(0o022, Err(x())) {
        BindStep::RestoreMask { old, made } => {
            assert_eq!(old, 0o022);
            assert_eq!(refused(mask_restored("/d/s", made)), "binding socket /d/s: x");
        }
        _ => panic!("the mask stays"),
    }
}

#[test]
fn what_keeps_a_socket_from_being_made_is_told() {
    assert_eq!(
        refused(stale_socket_removed("/d/s", Err(x()))),
        "removing stale socket /d/s: x"
    );
    assert_eq!(
        refused(socket_directory_made("/d", Err(x()))),
        "creating socket directory /d: x"
    );
    assert_eq!(
        refused(socket_mode_set("/d/s", Err(x()))),
        "setting permissions on /d/s: x"
    );
}

#[test]
fn sockets_are_private() {
    assert_eq!(SOCKET_MODE, 0o600);
    assert_eq!(0o777 & !SOCKET_UMASK, SOCKET_MODE);
}
