use bitwarden_ssh_agent::bitwarden::{BitwardenCli, Broken, Session};
use bitwarden_ssh_agent::import::{Candidate, VaultKeyRef};
use bitwarden_ssh_agent::process::{Input, Output};
use bitwarden_ssh_agent::secret::Secret;
use bitwarden_ssh_agent::wizard::{
    duplicate_answered, fill_item, item_encoded, item_fetched, item_stored, key_freed,
    key_picked, name_entered, offers_refresh, passphrase_entered, protection_answered,
    start_upload, Choice, Draft, KeyStep, Protection, Target, Upload,
};
use ssh_key::private::Ed25519Keypair;
use ssh_key::rand_core::OsRng;
use ssh_key::{LineEnding, PrivateKey};

fn candidate(private_pem: &str, encrypted: bool) -> Candidate {
    Candidate {
        path: b"/k".to_vec(),
        algorithm: "ssh-ed25519".to_string(),
        fingerprint: "SHA256:abc".to_string(),
        comment: "me@home".to_string(),
        public_openssh: "ssh-ed25519 AAAA".to_string(),
        private_pem: private_pem.to_string(),
        encrypted,
    }
}

fn held() -> VaultKeyRef {
    VaultKeyRef {
        id: "42".to_string(),
        name: "Laptop".to_string(),
        fingerprint: "SHA256:abc".to_string(),
    }
}

fn new_item() -> Choice {
    Choice { target: Target::Create, default_name: "default".to_string() }
}

fn draft(target: Target) -> Draft {
    Draft {
        target,
        name: "Name".to_string(),
        private_key: Secret::new("PEM".to_string()),
        public_key: "ssh-ed25519 AAAA".to_string(),
        fingerprint: "SHA256:abc".to_string(),
    }
}

fn session() -> Session {
    Session { key: Secret::new("sesame".to_string()) }
}

fn well(stdout: &[u8]) -> Output {
    Output { success: true, stdout: stdout.to_vec(), stderr: Vec::new() }
}

fn badly(stderr: &str) -> Output {
    Output { success: false, stdout: Vec::new(), stderr: stderr.as_bytes().to_vec() }
}

fn cli() -> BitwardenCli {
    BitwardenCli::new(None, None)
}

#[test]
fn a_new_key_goes_into_a_new_item() {
    let c = candidate("PEM", false);
    let (key, choice) = match key_picked(&c, None) {
        KeyStep::AskName(key, choice) => (key, choice),
        _ => panic!("no question for the name"),
    };
    assert_eq!(choice.default_name, "me@home");
    match name_entered(&c, key, choice, "  ") {
        KeyStep::Import(d) => {
            assert!(matches!(d.target, Target::Create));
            assert_eq!(d.name, "me@home");
            assert_eq!(d.private_key.expose(), "PEM");
            assert_eq!(d.public_key, "ssh-ed25519 AAAA");
            assert_eq!(d.fingerprint, "SHA256:abc");
        }
        _ => panic!("not imported"),
    }
}

#[test]
fn a_key_without_a_comment_is_named_after_its_fingerprint() {
    let mut c = candidate("PEM", false);
    c.comment = String::new();
    match key_picked(&c, None) {
        KeyStep::AskName(_, choice) => assert_eq!(choice.default_name, "SHA256:abc"),
        _ => panic!("no question for the name"),
    }
}

#[test]
fn a_key_that_the_vault_has_is_overwritten_on_request_only() {
    let c = candidate("PEM", false);
    let ask = || match key_picked(&c, Some(&held())) {
        KeyStep::AskDuplicate(name, choice) => {
            assert_eq!(name, "Laptop");
            choice
        }
        _ => panic!("no question"),
    };
    assert!(matches!(duplicate_answered(&c, ask(), false), KeyStep::Skip));
    match duplicate_answered(&c, ask(), true) {
        KeyStep::AskName(key, choice) => match name_entered(&c, key, choice, " New name ") {
            KeyStep::Import(d) => {
                assert_eq!(d.name, "New name");
                match d.target {
                    Target::Overwrite(id) => assert_eq!(id, "42"),
                    Target::Create => panic!("a new item"),
                }
            }
            _ => panic!("not imported"),
        },
        _ => panic!("no question for the name"),
    }
}

#[test]
fn a_passphrase_leads_to_a_choice() {
    let c = candidate("SEALED", true);
    assert!(matches!(key_picked(&c, None), KeyStep::AskProtection(false, _)));
    assert!(matches!(
        protection_answered(&c, new_item(), Protection::Skip),
        KeyStep::Skip
    ));
    match protection_answered(&c, new_item(), Protection::StoreEncrypted) {
        KeyStep::AskName(key, _) => assert_eq!(key.expose(), "SEALED"),
        _ => panic!("no question for the name"),
    }
    assert!(matches!(
        protection_answered(&c, new_item(), Protection::Decrypt),
        KeyStep::AskPassphrase(_)
    ));
    match key_freed(new_item(), Some("FREE".to_string())) {
        KeyStep::AskName(key, _) => assert_eq!(key.expose(), "FREE"),
        _ => panic!("no question for the name"),
    }
    assert!(matches!(key_freed(new_item(), None), KeyStep::AskProtection(true, _)));
}

#[test]
fn a_passphrase_is_taken_off_with_the_right_words() {
    let key = PrivateKey::from(Ed25519Keypair::from_seed(&[7; 32]));
    let sealed = key.encrypt(&mut OsRng, "correct horse").unwrap();
    let c = candidate(&sealed.to_openssh(LineEnding::LF).unwrap(), true);
    match passphrase_entered(&c, new_item(), &Secret::new("correct horse".to_string())) {
        KeyStep::AskName(freed, _) => {
            let freed = PrivateKey::from_openssh(freed.expose()).unwrap();
            assert!(!freed.is_encrypted());
            assert_eq!(freed.public_key().key_data(), key.public_key().key_data());
        }
        _ => panic!("not freed"),
    }
    assert!(matches!(
        passphrase_entered(&c, new_item(), &Secret::new("battery staple".to_string())),
        KeyStep::AskProtection(true, _)
    ));
}

#[test]
fn a_dry_run_changes_nothing() {
    match start_upload(&cli(), &session(), &draft(Target::Create), true) {
        Upload::Preview(said) => assert_eq!(said, "Would create 'Name' (SHA256:abc)"),
        _ => panic!("something is done"),
    }
    let over = draft(Target::Overwrite("42".to_string()));
    match start_upload(&cli(), &session(), &over, true) {
        Upload::Preview(said) => assert_eq!(said, "Would overwrite 'Name' (SHA256:abc)"),
        _ => panic!("something is done"),
    }
}

/// The item that the draft makes of one that holds `notes`.
fn filled(notes: &str) -> serde_json::Value {
    let text = format!(
        "{{\"type\":5,\"name\":\"Name\",\"notes\":\"{notes}\",\"sshKey\":{{\"privateKey\":\"PEM\",\"publicKey\":\"ssh-ed25519 AAAA\",\"keyFingerprint\":\"SHA256:abc\"}}}}"
    );
    serde_json::from_str(&text).unwrap()
}

#[test]
fn filling_in_a_key_leaves_the_rest_of_an_item() {
    let json = b"{\"notes\":\"keep\",\"type\":1,\"name\":\"Old\",\"sshKey\":null}";
    let out = fill_item(json, &draft(Target::Create)).unwrap();
    assert_eq!(
        serde_json::from_slice::<serde_json::Value>(&out).unwrap(),
        filled("keep")
    );
    assert!(fill_item(b"[]", &draft(Target::Create)).is_err());
    assert!(fill_item(b"nonsense", &draft(Target::Create)).is_err());
}

#[test]
fn a_new_item_is_filled_encoded_and_created() {
    let d = draft(Target::Create);
    match start_upload(&cli(), &session(), &d, false) {
        Upload::Fetch(call) => assert_eq!(call.args, vec!["get", "template", "item"]),
        _ => panic!("no template"),
    }
    let args = match item_fetched(&cli(), &d, Ok(well(b"{\"notes\":\"n\",\"name\":\"\"}"))) {
        Upload::Encode(call) => {
            match call.input {
                Input::Bytes(b) => assert_eq!(
                    serde_json::from_slice::<serde_json::Value>(&b).unwrap(),
                    filled("n")
                ),
                _ => panic!("nothing to encode"),
            }
            call.args
        }
        _ => panic!("not encoded"),
    };
    let args = match item_encoded(&cli(), &session(), &d, &args, Ok(well(b"eA==\n"))) {
        Upload::Store(call) => {
            assert_eq!(call.args, vec!["create", "item"]);
            match call.input {
                Input::Bytes(b) => assert_eq!(b, b"eA==".to_vec()),
                _ => panic!("nothing to store"),
            }
            call.args
        }
        _ => panic!("not stored"),
    };
    match item_stored(&d, &args, Ok(well(b"{\"id\":\"77\"}"))) {
        Upload::Done(id) => assert_eq!(id, "77"),
        _ => panic!("not done"),
    }
}

#[test]
fn an_item_of_the_vault_is_edited_in_place() {
    let d = draft(Target::Overwrite("42".to_string()));
    match start_upload(&cli(), &session(), &d, false) {
        Upload::Fetch(call) => assert_eq!(call.args, vec!["get", "item", "42"]),
        _ => panic!("no item"),
    }
    let args = vec!["encode".to_string()];
    match item_encoded(&cli(), &session(), &d, &args, Ok(well(b"eA=="))) {
        Upload::Store(call) => assert_eq!(call.args, vec!["edit", "item", "42"]),
        _ => panic!("not stored"),
    }
}

#[test]
fn what_keeps_a_key_out_of_the_vault_is_told() {
    let why = |u| match u {
        Upload::Fail(e) => e,
        _ => panic!("no failure"),
    };
    let new = draft(Target::Create);
    let over = draft(Target::Overwrite("42".to_string()));
    assert_eq!(
        why(item_fetched(&cli(), &new, Ok(badly("x")))),
        "`bw get template item` failed: x"
    );
    assert_eq!(
        why(item_fetched(&cli(), &over, Err("x".to_string()))),
        "running `bw get item`: x"
    );
    assert_eq!(
        why(item_fetched(&cli(), &new, Ok(well(b"x")))),
        "parsing `bw get template item` output: expected value at line 1 column 1"
    );
    assert_eq!(
        why(item_fetched(&cli(), &over, Ok(well(b"x")))),
        "parsing `bw get item` output: expected value at line 1 column 1"
    );
    let args = vec!["encode".to_string()];
    assert_eq!(
        why(item_encoded(&cli(), &session(), &new, &args, Err(Broken::NoInput))),
        "running `bw encode`: failed to open stdin for `bw`"
    );
    let args = vec!["create".to_string(), "item".to_string()];
    assert_eq!(
        why(item_stored(&new, &args, Ok(badly("x")))),
        "running `bw create item`: `bw create item` failed: x"
    );
    assert_eq!(
        why(item_stored(&over, &args, Ok(badly("x")))),
        "running `bw edit item`: `bw create item` failed: x"
    );
    assert_eq!(
        why(item_stored(&new, &args, Ok(well(b"{}")))),
        "`bw` response did not contain an item id"
    );
}

#[test]
fn a_refresh_is_offered_where_it_does_something() {
    assert!(offers_refresh(1, true));
    assert!(!offers_refresh(0, true));
    assert!(!offers_refresh(1, false));
}
