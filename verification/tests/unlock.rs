use bitwarden_ssh_agent::bitwarden::{BitwardenCli, SshKeyData, SshKeyItem, Status};
use bitwarden_ssh_agent::config::ApiKey;
use bitwarden_ssh_agent::process::{Invocation, Output};
use bitwarden_ssh_agent::secret::Secret;
use bitwarden_ssh_agent::unlock::{
    ask_answer, ask_password, credential_password, unusable_items, usable_keys, AfterRun, Outcome, RefreshOutcome,
    Step, UnlockError, UnlockManager, UnlockOutcome,
};
use ssh_key::private::Ed25519Keypair;
use ssh_key::rand_core::OsRng;
use ssh_key::{LineEnding, PrivateKey};

fn secret(s: &str) -> Secret {
    Secret::new(s.to_string())
}

fn went_well(stdout: &str) -> Result<Output, String> {
    Ok(Output { success: true, stdout: stdout.as_bytes().to_vec(), stderr: Vec::new() })
}

fn went_wrong(stderr: &str) -> Result<Output, String> {
    Ok(Output { success: false, stdout: Vec::new(), stderr: stderr.as_bytes().to_vec() })
}

fn status(s: &str) -> Result<Status, String> {
    Ok(Status { status: s.to_string() })
}

fn good_item(name: &str, byte: u8) -> SshKeyItem {
    let pem = PrivateKey::from(Ed25519Keypair::from_seed(&[byte; 32]))
        .to_openssh(LineEnding::LF)
        .unwrap();
    item(name, &pem)
}

fn item(name: &str, private_key: &str) -> SshKeyItem {
    SshKeyItem {
        id: "id".to_string(),
        name: name.to_string(),
        ssh_key: SshKeyData {
            private_key: private_key.to_string(),
            public_key: String::new(),
            key_fingerprint: None,
        },
    }
}

fn manager(with_key: bool) -> UnlockManager {
    let api_key = if with_key {
        Some(ApiKey { client_id: "user.x".to_string(), client_secret: secret("s") })
    } else {
        None
    };
    UnlockManager::new(BitwardenCli::new(None, None), api_key)
}

fn value<'a>(call: &'a Invocation, name: &str) -> Option<&'a str> {
    call.env.iter().find(|v| v.name == name).map(|v| v.value.expose())
}

/// Runs an operation on a device that is logged in, with a `bw` that answers
/// everything well and has `items`.
fn run(m: &mut UnlockManager, first: Step, items: Vec<SshKeyItem>) -> Outcome {
    let mut items = Some(items);
    let mut step = first;
    loop {
        step = match step {
            Step::ReadCredential(after) => m.credential_read(after, Ok(Some(secret("cred")))),
            Step::AskPassword(_, after) => m.password_entered(after, Ok(secret("typed"))),
            Step::AskStatus(_, after) => m.status_known(after, status("locked")),
            Step::Run(call, after) => {
                let answer = if call.args[0] == "unlock" { "session" } else { "" };
                m.command_ran(after, went_well(answer))
            }
            Step::ListItems(call, after) => {
                assert_eq!(value(&call, "BW_SESSION"), Some("session"));
                let listed = items.take().ok_or("no more items".to_string());
                m.items_listed(after, listed)
            }
            Step::Done(outcome) => return outcome,
        }
    }
}

fn unlocked(items: Vec<SshKeyItem>) -> UnlockManager {
    let mut m = manager(true);
    let first = m.unlock_with_password(secret("pw"));
    match run(&mut m, first, items) {
        Outcome::Manual(Ok(_)) => m,
        _ => panic!("still locked"),
    }
}

fn served(m: &UnlockManager) -> usize {
    match m.keys() {
        Step::Done(Outcome::Keys(Ok(keys))) => keys.len(),
        _ => panic!("locked"),
    }
}

#[test]
fn the_first_request_unlocks_the_vault() {
    let mut m = manager(true);
    let first = m.keys();
    match run(&mut m, first, vec![good_item("One", 1), item("Bad", "nonsense")]) {
        Outcome::Keys(Ok(keys)) => {
            assert_eq!(keys.len(), 1);
            assert_eq!(keys[0].summary().comment, "One");
        }
        _ => panic!("no keys"),
    }
    assert_eq!(served(&m), 1);
}

#[test]
fn a_locked_vault_has_nothing_to_refresh() {
    assert!(matches!(
        manager(true).refresh(),
        Step::Done(Outcome::Refresh(Ok(RefreshOutcome::StillLocked)))
    ));
}

#[test]
fn an_unlocked_vault_is_not_unlocked_again() {
    let m = unlocked(vec![good_item("One", 1), good_item("Two", 2)]);
    assert!(matches!(
        m.unlock_with_password(secret("other")),
        Step::Done(Outcome::Manual(Ok(UnlockOutcome::AlreadyUnlocked(2))))
    ));
    assert_eq!(served(&m), 2);
}

#[test]
fn unlocking_by_hand_says_how_many_keys_there_are() {
    let mut m = manager(true);
    let first = m.unlock_with_password(secret("pw"));
    assert!(matches!(
        run(&mut m, first, vec![good_item("One", 1)]),
        Outcome::Manual(Ok(UnlockOutcome::Unlocked(1)))
    ));
}

#[test]
fn a_rejected_password_is_a_wrong_one() {
    let m = manager(true);
    let step = match m.unlock_with_password(secret("pw")) {
        Step::AskStatus(_, after) => m.status_known(after, status("locked")),
        _ => panic!("no question for the status"),
    };
    let step = match step {
        Step::Run(call, after) => {
            assert_eq!(call.args, vec!["unlock", "--passwordenv", "BW_SSH_AGENT_MASTER_PW", "--raw"]);
            assert_eq!(value(&call, "BW_SSH_AGENT_MASTER_PW"), Some("pw"));
            m.command_ran(after, went_wrong("Invalid master password.\n"))
        }
        _ => panic!("no unlocking"),
    };
    match step {
        Step::Done(Outcome::Manual(Err(UnlockError::WrongPassword(e)))) => assert_eq!(
            e,
            "`bw unlock` failed (wrong master password?): Invalid master password."
        ),
        _ => panic!("another outcome"),
    }
    assert!(matches!(m.keys(), Step::AskPassword(_, _)));
}

#[test]
fn a_vault_that_stays_locked_for_another_reason_is_no_wrong_password() {
    let m = manager(true);
    let tried = |r| {
        let step = match m.unlock_with_password(secret("pw")) {
            Step::AskStatus(_, after) => m.status_known(after, status("locked")),
            _ => panic!("no question for the status"),
        };
        match step {
            Step::Run(_, after) => match m.command_ran(after, r) {
                Step::Done(Outcome::Manual(Err(UnlockError::Other(e)))) => e,
                _ => panic!("another outcome"),
            },
            _ => panic!("no unlocking"),
        }
    };
    assert_eq!(tried(went_well(" \n")), "`bw unlock --raw` returned an empty session key");
    assert_eq!(tried(Err("no bw".to_string())), "running `bw unlock`: no bw");
    let garbled = Ok(Output { success: true, stdout: vec![0xff], stderr: Vec::new() });
    assert!(tried(garbled).starts_with("`bw unlock --raw` returned non-UTF8 session key: "));
    assert!(matches!(m.keys(), Step::AskPassword(_, _)));
}

#[test]
fn requests_after_the_first_ask_nobody() {
    let mut m = manager(true);
    let first = m.keys();
    assert!(matches!(first, Step::AskPassword(_, _)));
    let keys = match run(&mut m, first, vec![good_item("One", 1)]) {
        Outcome::Keys(Ok(keys)) => keys,
        _ => panic!("no keys"),
    };
    for _ in 0..3 {
        match m.keys() {
            Step::Done(Outcome::Keys(Ok(again))) => {
                assert!(std::sync::Arc::ptr_eq(&keys, &again))
            }
            _ => panic!("a step outside"),
        }
    }
}

#[test]
fn why_a_key_is_not_served_is_told() {
    let sealed = PrivateKey::from(Ed25519Keypair::from_seed(&[3; 32]))
        .encrypt(&mut OsRng, "pw")
        .unwrap()
        .to_openssh(LineEnding::LF)
        .unwrap();
    let reasons = unusable_items(&vec![
        item("Bad", "x"),
        good_item("One", 1),
        item("Safe", &sealed),
    ]);
    assert_eq!(reasons.len(), 2);
    assert!(reasons[0]
        .skip_note()
        .starts_with("skipping vault SSH key 'Bad': parsing private key for vault item 'Bad': "));
    assert_eq!(
        reasons[1].skip_note(),
        "skipping vault SSH key 'Safe': private key for vault item 'Safe' is passphrase-encrypted; this is not supported"
    );
}

#[test]
fn a_login_that_fails_is_no_wrong_password() {
    let m = manager(true);
    let step = match m.unlock_with_password(secret("pw")) {
        Step::AskStatus(_, after) => m.status_known(after, status("unauthenticated")),
        _ => panic!("no question for the status"),
    };
    let step = match step {
        Step::Run(call, after) => {
            assert_eq!(call.args, vec!["login", "--apikey"]);
            assert_eq!(value(&call, "BW_CLIENTID"), Some("user.x"));
            m.command_ran(after, went_wrong(""))
        }
        _ => panic!("no login"),
    };
    match step {
        Step::Done(Outcome::Manual(Err(UnlockError::Other(e)))) => {
            assert_eq!(e, "`bw login --apikey` failed: (no stderr)")
        }
        _ => panic!("another outcome"),
    }
}

#[test]
fn without_an_api_key_the_device_has_to_be_logged_in() {
    let m = manager(false);
    let step = match m.unlock_with_password(secret("pw")) {
        Step::AskStatus(_, after) => m.status_known(after, status("unauthenticated")),
        _ => panic!("no question for the status"),
    };
    match step {
        Step::Done(Outcome::Manual(Err(UnlockError::Other(e)))) => assert_eq!(
            e,
            "no Bitwarden API key configured and the CLI is not logged in; set BW_CLIENTID/BW_CLIENTSECRET or run `bw login` once"
        ),
        _ => panic!("another outcome"),
    }
}

#[test]
fn a_self_hosted_server_is_set_before_the_login() {
    let cli = BitwardenCli::new(Some("https://vault.example".to_string()), None);
    let key = ApiKey { client_id: "user.x".to_string(), client_secret: secret("s") };
    let m = UnlockManager::new(cli, Some(key));
    let step = match m.unlock_with_password(secret("pw")) {
        Step::AskStatus(_, after) => m.status_known(after, status("unauthenticated")),
        _ => panic!("no question for the status"),
    };
    let step = match step {
        Step::Run(call, after) => {
            assert_eq!(call.args, vec!["config", "server", "https://vault.example"]);
            m.command_ran(after, went_well(""))
        }
        _ => panic!("no server"),
    };
    match step {
        Step::Run(call, AfterRun::Login { .. }) => assert_eq!(call.args, vec!["login", "--apikey"]),
        _ => panic!("no login"),
    }
}

#[test]
fn startup_without_a_credential_leaves_the_vault_locked() {
    let m = manager(true);
    let step = match m.try_startup_unlock() {
        Step::ReadCredential(after) => m.credential_read(after, Ok(None)),
        _ => panic!("no credential"),
    };
    assert!(matches!(step, Step::Done(Outcome::Startup(Ok(false)))));
}

#[test]
fn startup_with_a_credential_unlocks_the_vault() {
    let mut m = manager(true);
    let first = m.try_startup_unlock();
    assert!(matches!(
        run(&mut m, first, vec![good_item("One", 1)]),
        Outcome::Startup(Ok(true))
    ));
    assert_eq!(served(&m), 1);
}

#[test]
fn startup_with_a_broken_credential_fails() {
    let m = manager(true);
    match m.try_startup_unlock() {
        Step::ReadCredential(after) => match m.credential_read(after, Err("x".to_string())) {
            Step::Done(Outcome::Startup(Err(e))) => assert_eq!(e, "x"),
            _ => panic!("another outcome"),
        },
        _ => panic!("no credential"),
    }
}

#[test]
fn a_refresh_reads_the_keys_anew() {
    let mut m = unlocked(vec![good_item("One", 1)]);
    let first = m.refresh();
    assert!(matches!(
        run(&mut m, first, vec![good_item("One", 1), good_item("Two", 2)]),
        Outcome::Refresh(Ok(RefreshOutcome::Refreshed(2)))
    ));
    assert_eq!(served(&m), 2);
}

#[test]
fn a_refresh_goes_on_where_the_sync_fails() {
    let m = unlocked(vec![good_item("One", 1)]);
    match m.refresh() {
        Step::Run(call, after) => {
            assert_eq!(call.args, vec!["sync"]);
            assert!(matches!(
                m.command_ran(after, went_wrong("offline")),
                Step::ListItems(_, _)
            ));
        }
        _ => panic!("no sync"),
    }
}

/// Brings a refresh to the point where the listing failed.
fn refresh_in_trouble(m: &mut UnlockManager) -> Step {
    match m.refresh() {
        Step::Run(_, after) => match m.command_ran(after, went_well("")) {
            Step::ListItems(_, after) => m.items_listed(after, Err("Vault is locked.".to_string())),
            _ => panic!("no listing"),
        },
        _ => panic!("no sync"),
    }
}

#[test]
fn a_refresh_that_fails_keeps_the_keys() {
    let mut m = unlocked(vec![good_item("One", 1)]);
    let step = match refresh_in_trouble(&mut m) {
        Step::ReadCredential(after) => m.credential_read(after, Ok(None)),
        _ => panic!("no credential"),
    };
    match step {
        Step::Done(Outcome::Refresh(Err(e))) => assert_eq!(
            e,
            "listing SSH keys from vault (no systemd credential to silently retry with; run `bitwarden-ssh-agent unlock` to refresh): listing SSH keys from vault: Vault is locked."
        ),
        _ => panic!("another outcome"),
    }
    assert_eq!(served(&m), 1);
}

#[test]
fn a_refresh_gets_a_new_session_from_the_credential() {
    let mut m = unlocked(vec![good_item("One", 1)]);
    let step = refresh_in_trouble(&mut m);
    assert!(matches!(
        run(&mut m, step, vec![good_item("Two", 2), good_item("Three", 3)]),
        Outcome::Refresh(Ok(RefreshOutcome::Refreshed(2)))
    ));
    assert_eq!(served(&m), 2);
}

#[test]
fn a_refresh_whose_new_session_fails_keeps_the_keys() {
    let mut m = unlocked(vec![good_item("One", 1)]);
    let step = match refresh_in_trouble(&mut m) {
        Step::ReadCredential(after) => m.credential_read(after, Ok(Some(secret("old")))),
        _ => panic!("no credential"),
    };
    let step = match step {
        Step::AskStatus(_, after) => m.status_known(after, Err("no bw".to_string())),
        _ => panic!("no question for the status"),
    };
    match step {
        Step::Done(Outcome::Refresh(Err(e))) => assert!(e.starts_with(
            "listing SSH keys from vault (re-unlock via systemd credential also failed; existing cached keys are still served, but run `bitwarden-ssh-agent unlock` to refresh): "
        )),
        _ => panic!("another outcome"),
    }
    assert_eq!(served(&m), 1);
}

#[test]
fn the_question_for_the_password_stands_for_a_short_while() {
    let call = ask_password();
    assert_eq!(call.program, "systemd-ask-password");
    assert_eq!(
        call.args,
        vec![
            "--icon=dialog-password",
            "--id=bitwarden-ssh-agent",
            "--timeout=10",
            "Bitwarden master password (to unlock SSH agent):",
        ]
    );
}

#[test]
fn answers_to_the_question_for_the_password() {
    match ask_answer(went_well("hunter2\r\n")) {
        Ok(p) => assert_eq!(p.expose(), "hunter2"),
        Err(e) => panic!("{}", e),
    }
    let why = |r| match ask_answer(r) {
        Ok(_) => panic!("a password"),
        Err(e) => e,
    };
    assert_eq!(why(went_well("\n")), "no master password was entered");
    assert_eq!(
        why(went_wrong(" timed out \n")),
        "systemd-ask-password failed (timed out); no ask-password agent answered. Unlock the daemon directly with `bitwarden-ssh-agent unlock`"
    );
    assert_eq!(
        why(Err("x".to_string())),
        "spawning systemd-ask-password (is systemd installed?): x"
    );
    let garbled = Ok(Output { success: true, stdout: vec![0xff], stderr: Vec::new() });
    assert!(why(garbled).starts_with("systemd-ask-password returned non-UTF8 output: "));
}

#[test]
fn credentials_lose_their_line_end() {
    match credential_password("/c", " pw \n".to_string()) {
        Ok(p) => assert_eq!(p.expose(), " pw "),
        Err(e) => panic!("{}", e),
    }
    match credential_password("/c", "\r\n".to_string()) {
        Ok(_) => panic!("a password"),
        Err(e) => assert_eq!(e, "master password credential /c is empty"),
    }
}

#[test]
fn keys_that_cannot_be_used_are_passed_over() {
    let keys = usable_keys(&vec![item("Bad", "x"), good_item("One", 1), item("Worse", "")]);
    assert_eq!(keys.len(), 1);
    assert_eq!(keys[0].summary().comment, "One");
}
