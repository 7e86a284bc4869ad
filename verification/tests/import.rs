use bitwarden_ssh_agent::bitwarden::{SshKeyData, SshKeyItem};
use bitwarden_ssh_agent::import::{
    comment_from_pub_line, describe, find_vault_match, fingerprint_of_public, index_item,
    index_vault_keys, is_non_key_filename, is_worth_reading, report, scan_dir, scrub, Candidate,
    Entry, VaultKeyRef,
};
use bitwarden_ssh_agent::paths::{join, pub_path_for, resolve_ssh_dir};
use ssh_key::private::{Ed25519Keypair, KeypairData, OpaqueKeypair};
use ssh_key::public::OpaquePublicKey;
use ssh_key::rand_core::OsRng;
use ssh_key::{Algorithm, HashAlg, LineEnding, PrivateKey};

/// The files of a directory, each with its sibling `.pub` file where there is
/// one.
fn entries(files: &[(&str, &str)]) -> Vec<Entry> {
    let mut all = Vec::new();
    for (name, contents) in files {
        let path = format!("/home/me/.ssh/{name}").into_bytes();
        let public = pub_path_for(&path);
        let public_file = files
            .iter()
            .find(|(n, _)| format!("/home/me/.ssh/{n}").into_bytes() == public)
            .map(|(_, c)| c.to_string());
        all.push(Entry {
            path,
            name: Some(name.to_string()),
            is_file: true,
            contents: Some(contents.to_string()),
            public_file,
        });
    }
    all
}

fn gen_ed25519() -> PrivateKey {
    PrivateKey::random(&mut OsRng, Algorithm::Ed25519).unwrap()
}

/// A key whose public half, and thus its fingerprint, is known.
fn known_key() -> PrivateKey {
    let seed: [u8; 32] = [
        0x9d, 0x61, 0xb1, 0x9d, 0xef, 0xfd, 0x5a, 0x60, 0xba, 0x84, 0x4a, 0xf4, 0x92, 0xec, 0x2c,
        0xc4, 0x44, 0x49, 0xc5, 0x69, 0x7b, 0x32, 0x69, 0x19, 0x70, 0x3b, 0xac, 0x03, 0x1c, 0xae,
        0x7f, 0x60,
    ];
    PrivateKey::from(Ed25519Keypair::from_seed(&seed))
}

const KNOWN_LINE: &str =
    "ssh-ed25519 AAAAC3NzaC1lZDI1NTE5AAAAINdamAGCsQq31Uv+08lkBzoO4XLz2qYjJa8CGmj3B1Ea";
const KNOWN_FINGERPRINT: &str = "SHA256:bbXpuKG6zhzdmnxq256TlqzFBzRl2f6OOg722cYNbU8";

fn vault_item(id: &str, name: &str, public_openssh: &str, fp: Option<&str>) -> SshKeyItem {
    SshKeyItem {
        id: id.to_string(),
        name: name.to_string(),
        ssh_key: SshKeyData {
            private_key: "PRIVATE-PLACEHOLDER".to_string(),
            public_key: public_openssh.to_string(),
            key_fingerprint: fp.map(|f| f.to_string()),
        },
    }
}

fn candidate(path: &str, comment: &str, encrypted: bool) -> Candidate {
    Candidate {
        path: path.as_bytes().to_vec(),
        algorithm: "ssh-ed25519".to_string(),
        fingerprint: "SHA256:abc".to_string(),
        comment: comment.to_string(),
        public_openssh: "ssh-ed25519 AAAA".to_string(),
        private_pem: "PEM".to_string(),
        encrypted,
    }
}

#[test]
fn comment_parsing_from_pub_line() {
    assert_eq!(
        comment_from_pub_line("ssh-ed25519 AAAAC3Nz user@host"),
        Some("user@host".to_string())
    );
    // A comment with spaces is kept whole.
    assert_eq!(
        comment_from_pub_line("ssh-rsa AAAAB3 my laptop key"),
        Some("my laptop key".to_string())
    );
    // No comment, no result.
    assert_eq!(comment_from_pub_line("ssh-ed25519 AAAAC3Nz"), None);
}

#[test]
fn comments_lose_the_whitespace_around_them() {
    assert_eq!(
        comment_from_pub_line("  ssh-rsa\tAAAAB3   me  too \n"),
        Some("me  too".to_string())
    );
    assert_eq!(comment_from_pub_line(""), None);
    assert_eq!(comment_from_pub_line("one"), None);
    assert_eq!(comment_from_pub_line("ssh-rsa AAAAB3   \n"), None);
}

#[test]
fn non_key_filenames_are_skipped() {
    assert!(is_non_key_filename("config"));
    assert!(is_non_key_filename("known_hosts"));
    assert!(is_non_key_filename("known_hosts.old"));
    assert!(is_non_key_filename("authorized_keys"));
    assert!(is_non_key_filename("id_ed25519.pub"));
    assert!(!is_non_key_filename("id_ed25519"));
}

#[test]
fn other_names_are_looked_at() {
    assert!(is_non_key_filename("environment"));
    assert!(!is_non_key_filename("config.old"));
    assert!(!is_non_key_filename("pub"));
    assert!(!is_non_key_filename("my_known_hosts"));
    assert!(is_worth_reading(&Some("id_rsa".to_string()), true));
    assert!(!is_worth_reading(&Some("id_rsa".to_string()), false));
    assert!(!is_worth_reading(&Some("id_rsa.pub".to_string()), true));
    assert!(!is_worth_reading(&None, true));
}

#[test]
fn scan_discovers_keys_and_skips_noise() {
    // A plain key without a passphrase, with a sibling .pub carrying a comment.
    let key = gen_ed25519();
    let pem = key.to_openssh(LineEnding::LF).unwrap();
    let pub_line = format!("{} laptop@home\n", key.public_key().to_openssh().unwrap());

    let found = scan_dir(entries(&[
        ("id_ed25519", &pem),
        ("id_ed25519.pub", &pub_line),
        // Noise that must be ignored.
        ("known_hosts", "host ssh-ed25519 AAAA\n"),
        ("config", "Host *\n  User me\n"),
        ("random.txt", "not a key at all\n"),
    ]));
    assert_eq!(found.len(), 1, "only the one private key should be found");
    let c = &found[0];
    assert_eq!(c.algorithm, "ssh-ed25519");
    assert!(c.fingerprint.starts_with("SHA256:"));
    assert_eq!(c.comment, "laptop@home");
    assert!(!c.encrypted);
}

#[test]
fn encrypted_key_is_flagged_not_rejected() {
    let key = gen_ed25519();
    let encrypted = key.encrypt(&mut OsRng, "correct horse").unwrap();
    let pem = encrypted.to_openssh(LineEnding::LF).unwrap();

    let found = scan_dir(entries(&[("id_secure", &pem)]));
    assert_eq!(found.len(), 1);
    let c = &found[0];
    assert!(c.encrypted, "the encrypted key must be flagged");
    assert_eq!(c.algorithm, "ssh-ed25519");
    // The fingerprint and the public half are there all the same.
    assert!(c.fingerprint.starts_with("SHA256:"));
    assert!(c.public_openssh.starts_with("ssh-ed25519 "));
}

#[test]
fn dedup_matches_candidate_against_vault_by_fingerprint() {
    let key = gen_ed25519();
    let public_openssh = key.public_key().to_openssh().unwrap();
    let fingerprint = key.public_key().fingerprint(HashAlg::Sha256).to_string();

    // The vault has this key (under a different item name) plus an unrelated one.
    let other = gen_ed25519();
    let items = vec![
        vault_item("id-1", "Laptop key", &public_openssh, None),
        vault_item(
            "id-2",
            "Some other key",
            &other.public_key().to_openssh().unwrap(),
            None,
        ),
    ];
    let index = index_vault_keys(&items);
    assert_eq!(index.len(), 2);

    let hit = find_vault_match(&index, &fingerprint).expect("should find a match");
    assert_eq!(hit.id, "id-1");
    assert_eq!(hit.name, "Laptop key");

    // A key that is not in the vault does not match.
    let stranger = gen_ed25519();
    let stranger_fp = stranger.public_key().fingerprint(HashAlg::Sha256).to_string();
    assert!(find_vault_match(&index, &stranger_fp).is_none());
}

#[test]
fn dedup_falls_back_to_stored_fingerprint_when_public_key_unparseable() {
    let items = vec![vault_item(
        "id-x",
        "Odd key",
        "not-a-valid-public-key",
        Some("SHA256:stored"),
    )];
    let index = index_vault_keys(&items);
    assert_eq!(index.len(), 1);
    assert_eq!(index[0].fingerprint, "SHA256:stored");
}

/// A key of an algorithm that has this name.
fn opaque_key(name: &str, public: &[u8]) -> PrivateKey {
    let algorithm = Algorithm::new(name).unwrap();
    let public = OpaquePublicKey::new(public.to_vec(), algorithm);
    PrivateKey::new(KeypairData::Other(OpaqueKeypair::new(vec![1], public)), "").unwrap()
}

#[test]
fn a_space_in_the_name_of_an_algorithm_makes_another_key_of_the_line() {
    let name = "a@b AAAAA2FAYgAAAAF4";
    let key = opaque_key(name, &[2]);
    let pem = key.to_openssh(LineEnding::LF).unwrap();
    let found = scan_dir(entries(&[("id_odd", &pem)]));
    assert_eq!(found.len(), 1);
    assert_eq!(found[0].algorithm, name);
    assert_eq!(found[0].fingerprint, key.fingerprint(HashAlg::Sha256).to_string());
    let other = opaque_key("a@b", b"x").fingerprint(HashAlg::Sha256).to_string();
    assert_ne!(found[0].fingerprint, other);
    assert_eq!(fingerprint_of_public(&found[0].public_openssh), Some(other));

    let index = index_vault_keys(&vec![vault_item("1", "Odd", &found[0].public_openssh, None)]);
    assert!(find_vault_match(&index, &found[0].fingerprint).is_none());
}

#[test]
fn a_key_of_an_unknown_algorithm_is_recognized_in_the_vault() {
    let pem = opaque_key("a@b", b"x").to_openssh(LineEnding::LF).unwrap();
    let found = scan_dir(entries(&[("id_odd", &pem)]));
    assert_eq!(found.len(), 1);
    let index = index_vault_keys(&vec![vault_item("1", "Odd", &found[0].public_openssh, None)]);
    assert!(find_vault_match(&index, &found[0].fingerprint).is_some());
}

#[test]
fn items_without_any_fingerprint_are_left_out_of_the_index() {
    let items = vec![
        vault_item("id-x", "Odd key", "not-a-valid-public-key", None),
        vault_item("id-y", "Good key", KNOWN_LINE, Some("SHA256:stale")),
    ];
    let index = index_vault_keys(&items);
    assert_eq!(index.len(), 1);
    assert_eq!(index[0].id, "id-y");
    // What is computed wins over what is stored.
    assert_eq!(index[0].fingerprint, KNOWN_FINGERPRINT);
    assert!(index_item(&items[0], None).is_none());
    assert_eq!(
        index_item(&items[0], Some("SHA256:x".to_string())).unwrap().fingerprint,
        "SHA256:x"
    );
}

#[test]
fn comment_falls_back_to_embedded_when_no_pub() {
    let mut key = gen_ed25519();
    key.set_comment("embedded@comment");
    let pem = key.to_openssh(LineEnding::LF).unwrap();

    let found = scan_dir(entries(&[("id_nopub", &pem)]));
    assert_eq!(found.len(), 1);
    assert_eq!(found[0].comment, "embedded@comment");
}

#[test]
fn a_pub_file_without_a_comment_leaves_the_embedded_one() {
    let mut key = known_key();
    key.set_comment("  embedded  ");
    let pem = key.to_openssh(LineEnding::LF).unwrap();
    let found = scan_dir(entries(&[("id", &pem), ("id.pub", KNOWN_LINE)]));
    assert_eq!(found.len(), 1);
    assert_eq!(found[0].comment, "embedded");
}

#[test]
fn a_known_key_is_read_as_it_is() {
    assert_eq!(
        fingerprint_of_public(KNOWN_LINE),
        Some(KNOWN_FINGERPRINT.to_string())
    );
    assert_eq!(fingerprint_of_public("nonsense"), None);

    let pem = known_key().to_openssh(LineEnding::LF).unwrap();
    let found = scan_dir(entries(&[("id", &pem)]));
    assert_eq!(found.len(), 1);
    assert_eq!(found[0].fingerprint, KNOWN_FINGERPRINT);
    assert_eq!(found[0].public_openssh, KNOWN_LINE);
    assert_eq!(found[0].private_pem, pem.as_str());
    assert_eq!(found[0].comment, "");
}

#[test]
fn candidates_stand_in_the_order_of_their_paths() {
    let pem = known_key().to_openssh(LineEnding::LF).unwrap();
    let found = scan_dir(entries(&[
        ("id_rsa", &pem),
        ("id", &pem),
        ("work", &pem),
        ("Work", &pem),
        ("id_ed25519", &pem),
    ]));
    let paths: Vec<String> = found
        .iter()
        .map(|c| String::from_utf8(c.path.clone()).unwrap())
        .collect();
    assert_eq!(
        paths,
        vec![
            "/home/me/.ssh/Work",
            "/home/me/.ssh/id",
            "/home/me/.ssh/id_ed25519",
            "/home/me/.ssh/id_rsa",
            "/home/me/.ssh/work",
        ]
    );
}

#[test]
fn what_cannot_be_read_is_passed_over() {
    let pem = known_key().to_openssh(LineEnding::LF).unwrap();
    let mut unreadable = entries(&[("a", &pem), ("b", &pem), ("c", &pem)]);
    unreadable[0].contents = None;
    unreadable[1].is_file = false;
    unreadable[2].name = None;
    assert!(scan_dir(unreadable).is_empty());
}

#[test]
fn scrubbing_leaves_all_but_the_private_keys() {
    let mut all = vec![candidate("/a", "one", false), candidate("/b", "two", true)];
    scrub(&mut all);
    assert_eq!(all.len(), 2);
    assert_eq!(all[0].private_pem, "");
    assert_eq!(all[1].private_pem, "");
    assert_eq!(all[0].path, b"/a".to_vec());
    assert_eq!(all[1].comment, "two");
    assert!(all[1].encrypted);
}

#[test]
fn the_first_of_several_matches_is_taken() {
    let r = |id: &str| VaultKeyRef {
        id: id.to_string(),
        name: "n".to_string(),
        fingerprint: "f".to_string(),
    };
    let index = vec![r("1"), r("2")];
    assert_eq!(find_vault_match(&index, "f").unwrap().id, "1");
    assert!(find_vault_match(&index, "g").is_none());
}

#[test]
fn candidates_are_described_in_one_line() {
    let held = VaultKeyRef {
        id: "1".to_string(),
        name: "Laptop".to_string(),
        fingerprint: "SHA256:abc".to_string(),
    };
    assert_eq!(
        describe(&candidate("/k", "me@home", false), None),
        "  /k  [ssh-ed25519]  SHA256:abc  me@home"
    );
    assert_eq!(
        describe(&candidate("/k", "", true), Some(&held)),
        "  /k  [ssh-ed25519]  SHA256:abc    (passphrase-protected)  (already in the vault as 'Laptop')"
    );
}

#[test]
fn the_report_says_what_was_found() {
    let dir = b"/home/me/.ssh".to_vec();
    assert_eq!(
        report(&dir, &Vec::new(), &Vec::new()),
        vec!["No SSH private keys found in /home/me/.ssh."]
    );
    let all = vec![candidate("/a", "one", false), candidate("/b", "two", true)];
    assert_eq!(
        report(&dir, &all, &Vec::new()),
        vec![
            "Found 2 candidate key(s):",
            "  /a  [ssh-ed25519]  SHA256:abc  one",
            "  /b  [ssh-ed25519]  SHA256:abc  two  (passphrase-protected)",
        ]
    );
}

#[test]
fn keys_are_found_at_absolute_paths() {
    let dir = resolve_ssh_dir(Some(b"keys".to_vec()), None, Ok(b"/work".to_vec())).unwrap();
    let pem = known_key().to_openssh(LineEnding::LF).unwrap();
    let found = scan_dir(vec![Entry {
        path: join(dir, "id"),
        name: Some("id".to_string()),
        is_file: true,
        contents: Some(pem.to_string()),
        public_file: None,
    }]);
    assert_eq!(found.len(), 1);
    assert_eq!(found[0].path, b"/work/keys/id".to_vec());
}

#[test]
fn the_order_of_the_directory_does_not_matter() {
    let pem = known_key().to_openssh(LineEnding::LF).unwrap();
    let names = |found: Vec<Candidate>| -> Vec<Vec<u8>> {
        found.into_iter().map(|c| c.path).collect()
    };
    let one = scan_dir(entries(&[("a", &pem), ("b", &pem), ("noise", "x"), ("c", &pem)]));
    let two = scan_dir(entries(&[("c", &pem), ("a", &pem), ("b", &pem)]));
    assert_eq!(names(one), names(two));
}
