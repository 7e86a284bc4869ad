use bitwarden_ssh_agent::agent::{
    rsa_hash, rsa_signature, Credential, RsaHash, SignError, SignRequest, VaultAgent, VaultKey,
    VaultKeyError, RSA_SHA2_256, RSA_SHA2_512,
};
use bitwarden_ssh_agent::bitwarden::{BitwardenCli, SshKeyData, SshKeyItem};
use bitwarden_ssh_agent::unlock::{Outcome, Step, UnlockManager};
use signature::Signer;
use ssh_key::private::{Ed25519Keypair, KeypairData, OpaqueKeypair, RsaKeypair, RsaPrivateKey};
use ssh_key::public::{OpaquePublicKey, RsaPublicKey};
use ssh_key::rand_core::OsRng;
use ssh_key::{Algorithm, LineEnding, Mpint, PrivateKey, Signature};

fn seeded(byte: u8) -> PrivateKey {
    PrivateKey::from(Ed25519Keypair::from_seed(&[byte; 32]))
}

/// A key whose signature of nothing is known.
fn known_key() -> PrivateKey {
    let seed: [u8; 32] = [
        0x9d, 0x61, 0xb1, 0x9d, 0xef, 0xfd, 0x5a, 0x60, 0xba, 0x84, 0x4a, 0xf4, 0x92, 0xec, 0x2c,
        0xc4, 0x44, 0x49, 0xc5, 0x69, 0x7b, 0x32, 0x69, 0x19, 0x70, 0x3b, 0xac, 0x03, 0x1c, 0xae,
        0x7f, 0x60,
    ];
    PrivateKey::from(Ed25519Keypair::from_seed(&seed))
}

/// An RSA key that is far too short to sign with.
fn short_rsa_key() -> PrivateKey {
    let number = |bytes: &[u8]| Mpint::from_positive_bytes(bytes).unwrap();
    PrivateKey::from(RsaKeypair {
        public: RsaPublicKey { e: number(&[17]), n: number(&[0x0c, 0xa1]) },
        private: RsaPrivateKey {
            d: number(&[0x0a, 0xc1]),
            iqmp: number(&[38]),
            p: number(&[61]),
            q: number(&[53]),
        },
    })
}

// The numbers of an RSA key of 2048 bits, and its signatures of `data`, computed
// apart from the library.
const RSA_N: &str = "\
    c47451f34a50af44960614187c0f08a9aa6dc432124c68f023a02855d648d8c9d5778841f039b8cdd3eaf6af37\
    96f25d82b3a33552bd7e9dca1a51eccfd129696a4232ee8291bcd704ea3851b5011d6bb09728d8c9c026505221\
    e29e116fa88d117a3b86cbc7ba16ffa1e89ac673a7fa9f8cd5a530f5023589f250f1b3d8d83680bb78b1fdaefa\
    fd14cb1f068263ec0a0f7d68352a48f19bfe1c7ae173bd8747b1fe6367031a470eab662ebb28eab084f045c536\
    6986e061ecfd32a3c0aa988af08f17b8f2409dc13e63d4077631b7bccbf1a80a5a8d9236d66e10e178a9de6065\
    d4eb58d8cc589ffa3f04ce3c9fdd6400eca967479edaf34f2ebde0bd77d371";
const RSA_D: &str = "\
    5dd7dad5c6e827f1316111f4683e9e3abe08d531bdfff618d04bcf38c1b5e6a8f369b8131777db49a73394473a\
    dcc645d90b8aa90c2f2cee9efe57a831d58e5ca6bf9ca8c6826b9ca2e267a8d0380a1fc9294bffd2d010fd495e\
    9a6c3b940505ee155f9e127603f4bc845122ae2dcd4e312d0b596fbb7a24ad12ad8be8076bb035b57bdbf6edfb\
    ee1714e473bcf1ad5b1fb92e47eaf3c493fd68a90b5ea045948b4bf98473a99da4ee1483342bf51e1a3b3f2a8a\
    829e4757c21818d763c6d429d6457c2a0a6abe39d01afc3be8ee4c5b610fcb000ad877af01112fa7793e0bd4e2\
    e84f30077b53c03be7206a3dc6d94c473859e76607f811e73dc7e4baf35a89";
const RSA_IQMP: &str = "\
    344fd5575220c1b9124ad35ec93f1622fba7d675f20ca8acc238164319774543a1bd7ba0144034a6e387679c90\
    3875790337d21c097e4274f92eaffa5a4cda45c2fd2f96b051d0ef977362578afb52ecf558830ea067e581da1d\
    646c4df535ad94d53c0efc36a0b1db92cea67d0bcc2135c822f111958389c37b19010b89bf4b";
const RSA_P: &str = "\
    c79ee9e686ac25d3c48da5d8565fb739d4be7d96e2c99f54177f66f95cb9881c7ed48fc886c874d15dd3834b30\
    36a02d4ab9a27437452d5d2737bd7270cc1aa8bbb6e11b234a01faf23e813de90777433ec5ba8bb2fd8d104725\
    78dd5c2afb51ab9329dc3bd864d284d36f983d808baac8be196fbc6cf0d19b07927860b1573b";
const RSA_Q: &str = "\
    fbf0781527160ada6d2e0e00be58bdc2d37f00970a59879101a47fc3fb3f8f1127f0984c108ed8a562f3fc6764\
    6373793639d73809eb65599383b87ae2fe7f943d73e3dd964583beb8f6a0c25888b08e602fc54377da0db12d0a\
    148d38c2af498ca2439a185ab714c8c90c1d5d65f244b0236e96ce66ce090be60500aee00d43";
const SIGNED_SHA256: &str = "\
    78994cc94ce22d3611aeec90e463285f09f2605d4f4bef4de7176e434cb71cda0551d128d589d21a086615f408\
    5029b058c2274141a363ab55eb19731baa77b9e452babe87895b70bf950ac8fad8d0cef0004c6c8196166cbed3\
    50adf8ddd887593792c52ee252101ff09bf0d9ed2df7cc3ccc2d3a260be1b3804409a4d41222b47b9f25bd123f\
    31021104006dda0161d5ba56d9072ff6d4e8d7813915329645085e6ae044122ee4e5779ece8722595423d29915\
    3049f7ce3dafd72391deed9924ae94cb83de727dc3f28f0565c1a32926f4ed0bc69a28626e33fe6c28230cd1cb\
    465e83e21383287353b79f15c897a95a0a3f04ded723258a8adeb2b78f51d9";
const SIGNED_SHA512: &str = "\
    36f508f12daa85adbd26becdaaedca794ddd42dc761d82009c25a4d9da4fcea55834c1916135f2c22b24ef038b\
    8d190c47768b2ca9b6a17ebb0d5db60605cd2e1f1e6df4f7d24c553efbc41087bbcce94a62e75a34bf183390cb\
    a3e75252ca136ee9a9fa15f4ff8b1f3872dec90ae193de6ade9ade892765100acc46965566663cb1035fc6e2d8\
    d044765f595aed5b7706b0b877c7800f411cd32b13ff7cafbe0220abdbaf18b9dea525636dd3e5b0e8ae86a864\
    82ebbbb5b220636db5b9951746b69f276ef9750f923d24f327024a578a2a6de908d8a00edc0953677959701589\
    b55d3b3be0adefeaadea8b7ce2568cff7f01462f240e82c935b0833e4adb4d";

fn hex(digits: &str) -> Vec<u8> {
    (0..digits.len() / 2)
        .map(|i| u8::from_str_radix(&digits[2 * i..2 * i + 2], 16).unwrap())
        .collect()
}

fn rsa_key() -> PrivateKey {
    let number = |digits: &str| Mpint::from_positive_bytes(&hex(digits)).unwrap();
    PrivateKey::from(RsaKeypair {
        public: RsaPublicKey { e: number("010001"), n: number(RSA_N) },
        private: RsaPrivateKey {
            d: number(RSA_D),
            iqmp: number(RSA_IQMP),
            p: number(RSA_P),
            q: number(RSA_Q),
        },
    })
}

#[test]
fn an_rsa_key_signs_with_the_hash_asked_for() {
    let key = vault_key("Work", &rsa_key());
    let signed = |flags| match key.sign(b"data", flags) {
        Ok(s) => (s.algorithm, s.data),
        Err(e) => panic!("{}", e.message()),
    };
    assert_eq!(signed(RSA_SHA2_256), ("rsa-sha2-256".to_string(), hex(SIGNED_SHA256)));
    assert_eq!(signed(RSA_SHA2_512), ("rsa-sha2-512".to_string(), hex(SIGNED_SHA512)));
    assert_eq!(signed(0), ("rsa-sha2-512".to_string(), hex(SIGNED_SHA512)));
}

#[test]
fn an_rsa_key_whose_numbers_do_not_belong_together_does_not_sign() {
    let mut pair = match rsa_key().key_data().rsa() {
        Some(pair) => pair.clone(),
        None => panic!("no RSA key"),
    };
    pair.private.q = pair.private.p.clone();
    let key = vault_key("Odd", &PrivateKey::from(pair));
    match key.sign(b"data", 0) {
        Err(e) => {
            assert!(matches!(e, SignError::Signer(RsaHash::Sha512, _)));
            assert_eq!(e.message(), "building RSA/SHA-512 signer: cryptographic error");
        }
        Ok(_) => panic!("signed"),
    }
}

fn item(name: &str, private_key: &str) -> SshKeyItem {
    SshKeyItem {
        id: "id".to_string(),
        name: name.to_string(),
        ssh_key: SshKeyData {
            private_key: private_key.to_string(),
            public_key: String::new(),
            key_fingerprint: None,
        },
    }
}

fn vault_key(name: &str, key: &PrivateKey) -> VaultKey {
    match VaultKey::from_item(&item(name, &key.to_openssh(LineEnding::LF).unwrap())) {
        Ok(k) => k,
        Err(e) => panic!("{}", e.message()),
    }
}

fn blob(key: &PrivateKey) -> Vec<u8> {
    key.public_key().to_bytes().unwrap()
}

#[test]
fn a_key_is_offered_with_its_public_half_and_its_name() {
    let key = seeded(1);
    let offered = vault_key("Laptop", &key).identity();
    assert_eq!(offered.public, blob(&key));
    assert_eq!(offered.comment, "Laptop");
}

#[test]
fn a_key_is_summed_up() {
    let summary = vault_key("Laptop", &known_key()).summary();
    assert_eq!(summary.algorithm, "ssh-ed25519");
    assert_eq!(
        summary.fingerprint,
        "SHA256:bbXpuKG6zhzdmnxq256TlqzFBzRl2f6OOg722cYNbU8"
    );
    assert_eq!(summary.comment, "Laptop");
}

#[test]
fn what_is_no_key_is_not_served() {
    match VaultKey::from_item(&item("Odd", "no key at all")) {
        Err(e) => {
            assert!(matches!(e, VaultKeyError::Unreadable(_, _)));
            let cause = match PrivateKey::from_openssh("no key at all") {
                Err(cause) => cause.to_string(),
                Ok(_) => panic!("a key"),
            };
            assert_eq!(e.message(), format!("parsing private key for vault item 'Odd': {cause}"));
            assert_eq!(
                e.skip_note(),
                format!(
                    "skipping vault SSH key 'Odd': parsing private key for vault item 'Odd': {cause}"
                )
            );
        }
        Ok(_) => panic!("served"),
    }
}

#[test]
fn a_key_with_a_passphrase_is_not_served() {
    let sealed = seeded(1).encrypt(&mut OsRng, "pw").unwrap();
    match VaultKey::from_item(&item("Safe", &sealed.to_openssh(LineEnding::LF).unwrap())) {
        Err(e) => {
            assert!(matches!(e, VaultKeyError::Encrypted(_)));
            assert_eq!(
                e.message(),
                "private key for vault item 'Safe' is passphrase-encrypted; this is not supported"
            );
        }
        Ok(_) => panic!("served"),
    }
}

#[test]
fn a_key_of_an_unknown_algorithm_does_not_sign() {
    let algorithm = Algorithm::new("a@b").unwrap();
    let public = OpaquePublicKey::new(vec![1], algorithm);
    let pair = KeypairData::Other(OpaqueKeypair::new(vec![2], public));
    let key = PrivateKey::new(pair, "").unwrap();
    let made: Result<Signature, _> = key.try_sign(b"data");
    let cause = match made {
        Err(cause) => cause.to_string(),
        Ok(_) => panic!("signed"),
    };
    match vault_key("Odd", &key).sign(b"data", 0) {
        Err(e) => {
            assert!(matches!(e, SignError::Plain(_)));
            assert_eq!(e.message(), format!("signing with private key: {cause}"));
        }
        Ok(_) => panic!("signed"),
    }
}

#[test]
fn the_flags_choose_the_rsa_hash() {
    assert_eq!(rsa_hash(0), RsaHash::Sha512);
    assert_eq!(rsa_hash(RSA_SHA2_256), RsaHash::Sha256);
    assert_eq!(rsa_hash(RSA_SHA2_512), RsaHash::Sha512);
    assert_eq!(rsa_hash(RSA_SHA2_256 | RSA_SHA2_512), RsaHash::Sha256);
    assert_eq!(rsa_hash(0x01), RsaHash::Sha512);
}

#[test]
fn rsa_signatures_are_named_after_their_hash() {
    match rsa_signature(RsaHash::Sha256, Ok(Ok(vec![1, 2]))) {
        Ok(s) => {
            assert_eq!(s.algorithm, "rsa-sha2-256");
            assert_eq!(s.data, vec![1, 2]);
        }
        Err(_) => panic!("no signature"),
    }
    match rsa_signature(RsaHash::Sha512, Ok(Ok(vec![]))) {
        Ok(s) => assert_eq!(s.algorithm, "rsa-sha2-512"),
        Err(_) => panic!("no signature"),
    }
    let message = |made| match rsa_signature(RsaHash::Sha512, made) {
        Ok(_) => panic!("a signature"),
        Err(e) => e.message(),
    };
    assert_eq!(message(Ok(Err("x".to_string()))), "RSA/SHA-512 sign: x");
    assert_eq!(message(Err("x".to_string())), "building RSA/SHA-512 signer: x");
    match rsa_signature(RsaHash::Sha256, Err("y".to_string())) {
        Ok(_) => panic!("a signature"),
        Err(e) => assert_eq!(e.message(), "building RSA/SHA-256 signer: y"),
    }
    match rsa_signature(RsaHash::Sha256, Ok(Err("y".to_string()))) {
        Ok(_) => panic!("a signature"),
        Err(e) => assert_eq!(e.message(), "RSA/SHA-256 sign: y"),
    }
}

#[test]
fn an_rsa_key_that_is_too_short_signs_with_neither_hash() {
    let key = vault_key("Old", &short_rsa_key());
    assert_eq!(key.summary().algorithm, "ssh-rsa");
    assert!(matches!(
        key.sign(b"data", RSA_SHA2_256),
        Err(SignError::Signer(RsaHash::Sha256, _))
    ));
    match key.sign(b"data", 0) {
        Err(e) => {
            assert!(matches!(e, SignError::Signer(RsaHash::Sha512, _)));
            assert_eq!(e.message(), "building RSA/SHA-512 signer: cryptographic error");
        }
        Ok(_) => panic!("signed"),
    }
}

#[test]
fn a_known_key_makes_the_known_signature() {
    let signature = match vault_key("Known", &known_key()).sign(b"", 0) {
        Ok(s) => s,
        Err(e) => panic!("{}", e.message()),
    };
    assert_eq!(signature.algorithm, "ssh-ed25519");
    let expected: [u8; 64] = [
        0xe5, 0x56, 0x43, 0x00, 0xc3, 0x60, 0xac, 0x72, 0x90, 0x86, 0xe2, 0xcc, 0x80, 0x6e, 0x82,
        0x8a, 0x84, 0x87, 0x7f, 0x1e, 0xb8, 0xe5, 0xd9, 0x74, 0xd8, 0x73, 0xe0, 0x65, 0x22, 0x49,
        0x01, 0x55, 0x5f, 0xb8, 0x82, 0x15, 0x90, 0xa3, 0x3b, 0xac, 0xc6, 0x1e, 0x39, 0x70, 0x1c,
        0xf9, 0xb4, 0x6b, 0xd2, 0x5b, 0xf5, 0xf0, 0x59, 0x5b, 0xbe, 0x24, 0x65, 0x51, 0x41, 0x43,
        0x8e, 0x7a, 0x10, 0x0b,
    ];
    assert_eq!(signature.data, expected.to_vec());
}

#[test]
fn the_agent_signs_with_the_key_that_was_named() {
    let keys = vec![vault_key("One", &seeded(1)), vault_key("Known", &known_key())];
    let request = SignRequest {
        credential: Credential::Key(blob(&known_key())),
        data: Vec::new(),
        flags: 0,
    };
    match VaultAgent::sign(&keys, &request) {
        Ok(s) => assert_eq!(s.data[0], 0xe5),
        Err(e) => panic!("{}", e.message()),
    }
    let offers = VaultAgent::request_identities(&keys);
    assert_eq!(offers.len(), 2);
    assert_eq!(offers[0].comment, "One");
    assert_eq!(offers[1].public, blob(&known_key()));
    for offer in offers {
        assert!(VaultAgent::find_key(&keys, &Credential::Key(offer.public)).is_some());
    }
}

#[test]
fn a_key_that_is_not_held_and_a_certificate_get_no_signature() {
    let keys = vec![vault_key("One", &seeded(1))];
    for credential in vec![Credential::Key(blob(&seeded(2))), Credential::Certificate] {
        let request = SignRequest { credential, data: vec![1], flags: 0 };
        match VaultAgent::sign(&keys, &request) {
            Err(e) => {
                assert!(matches!(e, SignError::NotHeld));
                assert_eq!(e.message(), "requested key not held by agent");
            }
            Ok(_) => panic!("signed"),
        }
    }
    assert_eq!(
        SignError::Plain("x".to_string()).message(),
        "signing with private key: x"
    );
}

#[test]
fn an_agent_of_a_locked_vault_asks_for_the_password() {
    let cli = BitwardenCli::new(None, None);
    let agent = VaultAgent::new(UnlockManager::new(cli, None));
    match agent.unlock.keys() {
        Step::AskPassword(call, _) => assert_eq!(call.program, "systemd-ask-password"),
        Step::Done(Outcome::Keys(_)) => panic!("unlocked"),
        _ => panic!("something else"),
    }
}
