//! The keys that the agent serves, and what it answers to SSH clients.
//!
//! Private keys live in memory only, and signing happens in this process.

use vstd::prelude::*;
use vstd::slice::slice_to_vec;

use crate::bitwarden::{ItemView, SshKeyItem};
use crate::openssh::{
    plain_signature, private_key_in, read_private_key, rsa_made, rsa_sha256_signature,
    rsa_sha512_signature, sign_plain, sign_rsa_sha256, sign_rsa_sha512, KeyFacts, KeyFactsView,
};
use crate::process::{because, with_context};
use crate::secret::Secret;
use crate::text;
use crate::unlock::{key_views, UnlockManager};

verus! {

/// The flag of a sign request that asks for SHA-256 with an RSA key.
pub const RSA_SHA2_256: u32 = 0x02;

/// The flag of a sign request that asks for SHA-512 with an RSA key.
pub const RSA_SHA2_512: u32 = 0x04;

/// The least number of bytes in the modulus of an RSA key that signs.
pub const MIN_RSA_MODULUS_LEN: usize = 256;

/// A private key that the agent serves.
pub struct VaultKey {
    /// The key in the OpenSSH format.
    pem: Secret,
    /// Its name in the vault.
    comment: String,
    /// Its public half in the encoding of the SSH protocol.
    public: Vec<u8>,
    algorithm: String,
    fingerprint: String,
    rsa: bool,
    modulus_len: usize,
}

/// A [`VaultKey`] is its text in the OpenSSH format and its name; all else is
/// read off the text.
pub struct VaultKeyView {
    pub pem: Seq<char>,
    pub comment: Seq<char>,
}

impl View for VaultKey {
    type V = VaultKeyView;

    closed spec fn view(&self) -> VaultKeyView {
        VaultKeyView { pem: self.pem@, comment: self.comment@ }
    }
}

/// Whether a text holds a private key that can be served: one that can be read
/// and is not protected by a passphrase.
pub open spec fn servable(pem: Seq<char>) -> bool {
    private_key_in(pem) matches Ok(facts) && !facts.encrypted
}

impl VaultKeyView {
    /// What is read off the key.
    pub open spec fn facts(self) -> KeyFactsView {
        private_key_in(self.pem)->Ok_0
    }
}

/// Why an item of the vault cannot be served.
pub enum VaultKeyError {
    /// Its private key cannot be read: the item's name, and why not.
    Unreadable(String, String),
    /// Its private key is protected by a passphrase: the item's name.
    Encrypted(String),
}

/// The contents of a [`VaultKeyError`].
pub enum RefusalView {
    Unreadable(Seq<char>, Seq<char>),
    Encrypted(Seq<char>),
}

impl View for VaultKeyError {
    type V = RefusalView;

    open spec fn view(&self) -> RefusalView {
        match self {
            VaultKeyError::Unreadable(name, cause) => RefusalView::Unreadable(name@, cause@),
            VaultKeyError::Encrypted(name) => RefusalView::Encrypted(name@),
        }
    }
}

/// Why an item of the vault cannot be served, if it cannot.
pub open spec fn refusal(item: ItemView) -> Option<RefusalView> {
    match private_key_in(item.private_key) {
        Err(cause) => Some(RefusalView::Unreadable(item.name, cause)),
        Ok(facts) => if facts.encrypted {
            Some(RefusalView::Encrypted(item.name))
        } else {
            None
        },
    }
}

/// An error as a message.
pub open spec fn refusal_text(e: RefusalView) -> Seq<char> {
    match e {
        RefusalView::Unreadable(name, cause) => because(
            "parsing private key for vault item '"@ + name + "'"@,
            cause,
        ),
        RefusalView::Encrypted(name) => "private key for vault item '"@ + name
            + "' is passphrase-encrypted; this is not supported"@,
    }
}

impl VaultKeyError {
    /// What is noted of an item that is passed over for this reason.
    pub fn skip_note(&self) -> (r: String)
        ensures
            r@ == "skipping vault SSH key '"@ + (match self@ {
                RefusalView::Unreadable(name, _) => name,
                RefusalView::Encrypted(name) => name,
            }) + "': "@ + refusal_text(self@),
    {
        let name = match self {
            VaultKeyError::Unreadable(name, _) => name.as_str(),
            VaultKeyError::Encrypted(name) => name.as_str(),
        };
        text::cat4("skipping vault SSH key '", name, "': ", self.message().as_str())
    }

    /// The error as a message.
    pub fn message(&self) -> (r: String)
        ensures
            r@ == refusal_text(self@),
    {
        match self {
            VaultKeyError::Unreadable(name, cause) => with_context(
                text::cat3("parsing private key for vault item '", name.as_str(), "'").as_str(),
                cause.as_str(),
            ),
            VaultKeyError::Encrypted(name) => text::cat3(
                "private key for vault item '",
                name.as_str(),
                "' is passphrase-encrypted; this is not supported",
            ),
        }
    }
}

/// A public key on offer: its encoding, and its name for people.
pub struct Identity {
    pub public: Vec<u8>,
    pub comment: String,
}

/// The contents of an [`Identity`].
pub struct IdentityView {
    pub public: Seq<u8>,
    pub comment: Seq<char>,
}

impl View for Identity {
    type V = IdentityView;

    open spec fn view(&self) -> IdentityView {
        IdentityView { public: self.public@, comment: self.comment@ }
    }
}

/// What a client names the key it wants by.
pub enum Credential {
    /// A public key, in the encoding of the SSH protocol.
    Key(Vec<u8>),
    /// A certificate.
    Certificate,
}

/// A line about a key for people.
pub struct KeySummary {
    pub algorithm: String,
    pub fingerprint: String,
    pub comment: String,
}

/// The contents of a [`KeySummary`].
pub struct SummaryView {
    pub algorithm: Seq<char>,
    pub fingerprint: Seq<char>,
    pub comment: Seq<char>,
}

impl View for KeySummary {
    type V = SummaryView;

    open spec fn view(&self) -> SummaryView {
        SummaryView {
            algorithm: self.algorithm@,
            fingerprint: self.fingerprint@,
            comment: self.comment@,
        }
    }
}

impl VaultKeyView {
    /// What the agent offers of the key.
    pub open spec fn identity(self) -> IdentityView {
        IdentityView { public: self.facts().blob, comment: self.comment }
    }

    /// Whether a client that names `credential` means this key.
    pub open spec fn answers_to(self, credential: Credential) -> bool {
        credential matches Credential::Key(blob) && blob@ == self.facts().blob
    }

    /// What people are told of the key.
    pub open spec fn summary(self) -> SummaryView {
        SummaryView {
            algorithm: self.facts().algorithm,
            fingerprint: self.facts().fingerprint,
            comment: self.comment,
        }
    }
}

/// The hash that an RSA signature is made with.
#[derive(Clone, Copy, PartialEq, Eq, Structural, Debug)]
pub enum RsaHash {
    Sha256,
    Sha512,
}

/// The hash that the flags of a sign request ask for: SHA-256 if they ask for
/// it, and SHA-512 otherwise. SHA-1 is not among the answers.
pub open spec fn requested_hash(flags: u32) -> RsaHash {
    if flags & RSA_SHA2_256 != 0 {
        RsaHash::Sha256
    } else {
        RsaHash::Sha512
    }
}

/// The hash that the flags of a sign request ask for.
pub fn rsa_hash(flags: u32) -> (r: RsaHash)
    ensures
        r == requested_hash(flags),
{
    if flags & RSA_SHA2_256 != 0 {
        RsaHash::Sha256
    } else {
        RsaHash::Sha512
    }
}

/// The name of RSA signatures with this hash.
pub open spec fn rsa_signature_name(hash: RsaHash) -> Seq<char> {
    match hash {
        RsaHash::Sha256 => "rsa-sha2-256"@,
        RsaHash::Sha512 => "rsa-sha2-512"@,
    }
}

/// A signature: the name of its algorithm, and its bytes.
pub struct SshSignature {
    pub algorithm: String,
    pub data: Vec<u8>,
}

/// The contents of an [`SshSignature`].
pub struct SignatureView {
    pub algorithm: Seq<char>,
    pub data: Seq<u8>,
}

impl View for SshSignature {
    type V = SignatureView;

    open spec fn view(&self) -> SignatureView {
        SignatureView { algorithm: self.algorithm@, data: self.data@ }
    }
}

/// Why there is no signature.
pub enum SignError {
    /// The RSA key is not fit to sign with this hash; why not.
    Signer(RsaHash, String),
    /// The RSA key makes none with this hash; why not.
    Rsa(RsaHash, String),
    /// The key makes none; why not.
    Plain(String),
    /// There is no such key.
    NotHeld,
}

impl SignError {
    /// The error as a message.
    pub fn message(&self) -> (r: String)
        ensures
            r@ == (match self {
                SignError::Signer(RsaHash::Sha256, cause) => because(
                    "building RSA/SHA-256 signer"@,
                    cause@,
                ),
                SignError::Signer(RsaHash::Sha512, cause) => because(
                    "building RSA/SHA-512 signer"@,
                    cause@,
                ),
                SignError::Rsa(RsaHash::Sha256, cause) => because("RSA/SHA-256 sign"@, cause@),
                SignError::Rsa(RsaHash::Sha512, cause) => because("RSA/SHA-512 sign"@, cause@),
                SignError::Plain(cause) => because("signing with private key"@, cause@),
                SignError::NotHeld => "requested key not held by agent"@,
            }),
    {
        match self {
            SignError::Signer(RsaHash::Sha256, cause) => with_context(
                "building RSA/SHA-256 signer",
                cause.as_str(),
            ),
            SignError::Signer(RsaHash::Sha512, cause) => with_context(
                "building RSA/SHA-512 signer",
                cause.as_str(),
            ),
            SignError::Rsa(RsaHash::Sha256, cause) => with_context(
                "RSA/SHA-256 sign",
                cause.as_str(),
            ),
            SignError::Rsa(RsaHash::Sha512, cause) => with_context(
                "RSA/SHA-512 sign",
                cause.as_str(),
            ),
            SignError::Plain(cause) => with_context("signing with private key", cause.as_str()),
            SignError::NotHeld => "requested key not held by agent".to_owned(),
        }
    }
}

/// The RSA signature of `data` with this hash, or why the key is not fit to sign;
/// within the first, why it makes no signature.
pub open spec fn rsa_raw(pem: Seq<char>, data: Seq<u8>, hash: RsaHash) -> Result<
    Result<Seq<u8>, Seq<char>>,
    Seq<char>,
> {
    match hash {
        RsaHash::Sha256 => rsa_sha256_signature(pem, data),
        RsaHash::Sha512 => rsa_sha512_signature(pem, data),
    }
}

/// What a request for a signature comes to.
pub enum SignedView {
    /// This signature.
    Made(SignatureView),
    /// None: the RSA key is not fit to sign with this hash; why not.
    NoSigner(RsaHash, Seq<char>),
    /// None: the RSA key makes none with this hash; why not.
    NoRsa(RsaHash, Seq<char>),
    /// None: the key makes none; why not.
    NoPlain(Seq<char>),
    /// None: there is no such key.
    NotHeld,
}

/// What a signature, or the reason why there is none, amounts to.
pub open spec fn signed(r: Result<SshSignature, SignError>) -> SignedView {
    match r {
        Ok(s) => SignedView::Made(s@),
        Err(SignError::Signer(hash, cause)) => SignedView::NoSigner(hash, cause@),
        Err(SignError::Rsa(hash, cause)) => SignedView::NoRsa(hash, cause@),
        Err(SignError::Plain(cause)) => SignedView::NoPlain(cause@),
        Err(SignError::NotHeld) => SignedView::NotHeld,
    }
}

/// What signing with an RSA key and this hash comes to, given what the key made.
pub open spec fn rsa_signed(
    hash: RsaHash,
    made: Result<Result<Seq<u8>, Seq<char>>, Seq<char>>,
) -> SignedView {
    match made {
        Err(cause) => SignedView::NoSigner(hash, cause),
        Ok(Err(cause)) => SignedView::NoRsa(hash, cause),
        Ok(Ok(raw)) => SignedView::Made(
            SignatureView { algorithm: rsa_signature_name(hash), data: raw },
        ),
    }
}

impl VaultKeyView {
    /// What a request with `flags` for a signature of `data` comes to. An RSA
    /// key that is too short is not fit to sign.
    pub open spec fn signature(self, data: Seq<u8>, flags: u32) -> SignedView {
        if self.facts().rsa {
            let hash = requested_hash(flags);
            if self.facts().modulus_len < MIN_RSA_MODULUS_LEN {
                SignedView::NoSigner(hash, "cryptographic error"@)
            } else {
                rsa_signed(hash, rsa_raw(self.pem, data, hash))
            }
        } else {
            match plain_signature(self.pem, data) {
                Ok((algorithm, raw)) => SignedView::Made(SignatureView { algorithm, data: raw }),
                Err(cause) => SignedView::NoPlain(cause),
            }
        }
    }
}

/// The signature that goes with what an RSA key made with `hash`.
pub fn rsa_signature(hash: RsaHash, made: Result<Result<Vec<u8>, String>, String>) -> (r: Result<
    SshSignature,
    SignError,
>)
    ensures
        signed(r) == rsa_signed(hash, rsa_made(made)),
{
    match made {
        Err(cause) => Err(SignError::Signer(hash, cause)),
        Ok(Err(cause)) => Err(SignError::Rsa(hash, cause)),
        Ok(Ok(raw)) => {
            let algorithm = match hash {
                RsaHash::Sha256 => "rsa-sha2-256".to_owned(),
                RsaHash::Sha512 => "rsa-sha2-512".to_owned(),
            };
            Ok(SshSignature { algorithm, data: raw })
        },
    }
}

/// Signs `data` with the RSA key in `pem`, with the hash asked for.
fn sign_rsa(pem: &str, data: &[u8], hash: RsaHash) -> (r: Result<SshSignature, SignError>)
    ensures
        signed(r) == rsa_signed(hash, rsa_raw(pem@, data@, hash)),
{
    let made = match hash {
        RsaHash::Sha256 => sign_rsa_sha256(pem, data),
        RsaHash::Sha512 => sign_rsa_sha512(pem, data),
    };
    rsa_signature(hash, made)
}

impl VaultKey {
    #[verifier::type_invariant]
    spec fn inv(self) -> bool {
        &&& servable(self.pem@)
        &&& private_key_in(self.pem@)->Ok_0.blob == self.public@
        &&& private_key_in(self.pem@)->Ok_0.algorithm == self.algorithm@
        &&& private_key_in(self.pem@)->Ok_0.fingerprint == self.fingerprint@
        &&& private_key_in(self.pem@)->Ok_0.rsa == self.rsa
        &&& private_key_in(self.pem@)->Ok_0.modulus_len == self.modulus_len
    }

    /// Whether a key of which these facts were read can be served: one that is
    /// protected by a passphrase cannot. `name` is the item's name.
    pub fn check_servable(name: &str, facts: &KeyFacts) -> (r: Result<(), VaultKeyError>)
        ensures
            r is Err <==> facts.encrypted,
            r matches Err(e) ==> (e matches VaultKeyError::Encrypted(n) && n@ == name@),
    {
        if facts.encrypted {
            Err(VaultKeyError::Encrypted(name.to_owned()))
        } else {
            Ok(())
        }
    }

    /// The key to be served for an item of the vault. A key that cannot be
    /// read, or is protected by a passphrase, cannot be served.
    pub fn from_item(item: &SshKeyItem) -> (r: Result<VaultKey, VaultKeyError>)
        ensures
            r is Ok <==> servable(item@.private_key),
            r matches Ok(key) ==> key@ == (VaultKeyView {
                pem: item@.private_key,
                comment: item@.name,
            }),
            r matches Err(e) ==> refusal(item@) == Some(e@),
    {
        match read_private_key(item.ssh_key.private_key.as_str()) {
            Ok(facts) => match Self::check_servable(item.name.as_str(), &facts) {
                Ok(()) => Ok(
                    VaultKey {
                        pem: Secret::new(item.ssh_key.private_key.clone()),
                        comment: item.name.clone(),
                        public: facts.blob,
                        algorithm: facts.algorithm,
                        fingerprint: facts.fingerprint,
                        rsa: facts.rsa,
                        modulus_len: facts.modulus_len,
                    },
                ),
                Err(e) => Err(e),
            },
            Err(cause) => Err(VaultKeyError::Unreadable(item.name.clone(), cause)),
        }
    }

    /// What the agent offers of the key.
    pub fn identity(&self) -> (r: Identity)
        ensures
            r@ == self@.identity(),
    {
        proof {
            use_type_invariant(self);
        }
        Identity { public: slice_to_vec(self.public.as_slice()), comment: self.comment.clone() }
    }

    /// Whether a client that names `credential` means this key. A certificate
    /// never does.
    pub fn matches(&self, credential: &Credential) -> (r: bool)
        ensures
            r == self@.answers_to(*credential),
    {
        proof {
            use_type_invariant(self);
        }
        match credential {
            Credential::Key(blob) => text::same_bytes(blob.as_slice(), self.public.as_slice()),
            Credential::Certificate => false,
        }
    }

    /// What people are told of the key.
    pub fn summary(&self) -> (r: KeySummary)
        ensures
            r@ == self@.summary(),
    {
        proof {
            use_type_invariant(self);
        }
        KeySummary {
            algorithm: self.algorithm.clone(),
            fingerprint: self.fingerprint.clone(),
            comment: self.comment.clone(),
        }
    }

    /// Signs `data`, with the RSA hash that the flags ask for where the key is
    /// an RSA key.
    pub fn sign(&self, data: &[u8], flags: u32) -> (r: Result<SshSignature, SignError>)
        ensures
            signed(r) == self@.signature(data@, flags),
    {
        proof {
            use_type_invariant(self);
        }
        if self.rsa {
            let hash = rsa_hash(flags);
            if self.modulus_len < MIN_RSA_MODULUS_LEN {
                Err(SignError::Signer(hash, "cryptographic error".to_owned()))
            } else {
                sign_rsa(self.pem.expose(), data, hash)
            }
        } else {
            match sign_plain(self.pem.expose(), data) {
                Ok((algorithm, raw)) => Ok(SshSignature { algorithm, data: raw }),
                Err(cause) => Err(SignError::Plain(cause)),
            }
        }
    }
}

// --- the agent --------------------------------------------------------------

/// The agent: the lock of the vault, and the answers to SSH clients.
pub struct VaultAgent {
    pub unlock: UnlockManager,
}

/// What a client wants signed.
pub struct SignRequest {
    pub credential: Credential,
    pub data: Vec<u8>,
    pub flags: u32,
}

/// The public keys on offer.
pub open spec fn offers(keys: Seq<VaultKeyView>) -> Seq<IdentityView> {
    keys.map_values(|k: VaultKeyView| k.identity())
}

/// The contents of a list of identities.
pub open spec fn identity_views(ids: Seq<Identity>) -> Seq<IdentityView> {
    ids.map_values(|i: Identity| i@)
}

/// The first key at or after `from` that a client means by `credential`, or the
/// number of keys where there is none.
pub open spec fn first_match(keys: Seq<VaultKeyView>, credential: Credential, from: int) -> int
    decreases keys.len() - from,
{
    if from >= keys.len() || keys[from].answers_to(credential) {
        from
    } else {
        first_match(keys, credential, from + 1)
    }
}

impl VaultAgent {
    /// The agent of a vault.
    pub fn new(unlock: UnlockManager) -> (r: VaultAgent)
        ensures
            r.unlock@ == unlock@,
    {
        VaultAgent { unlock }
    }

    /// The public keys on offer where `keys` are served.
    pub fn request_identities(keys: &Vec<VaultKey>) -> (r: Vec<Identity>)
        ensures
            identity_views(r@) == offers(key_views(keys@)),
    {
        let mut r: Vec<Identity> = Vec::new();
        let mut i: usize = 0;
        while i < keys.len()
            invariant
                i <= keys.len(),
                r.len() == i,
                forall|j: int| 0 <= j < i ==> (#[trigger] r@[j])@ == keys@[j]@.identity(),
            decreases keys.len() - i,
        {
            r.push(keys[i].identity());
            i = i + 1;
        }
        assert(identity_views(r@) =~= offers(key_views(keys@)));
        r
    }

    /// The first of `keys` that a client means by `credential`.
    pub fn find_key<'a>(keys: &'a Vec<VaultKey>, credential: &Credential) -> (r: Option<
        &'a VaultKey,
    >)
        ensures
            ({
                let i = first_match(key_views(keys@), *credential, 0);
                match r {
                    Some(key) => 0 <= i < keys@.len() && *key == keys@[i],
                    None => i == keys@.len(),
                }
            }),
    {
        let ghost views = key_views(keys@);
        let mut i: usize = 0;
        while i < keys.len()
            invariant
                i <= keys.len(),
                views == key_views(keys@),
                first_match(views, *credential, 0) == first_match(views, *credential, i as int),
            decreases keys.len() - i,
        {
            assert(views[i as int] == keys@[i as int]@);
            if keys[i].matches(credential) {
                return Some(&keys[i]);
            }
            i = i + 1;
        }
        None
    }

    /// Signs what a client wants signed, where `keys` are served.
    pub fn sign(keys: &Vec<VaultKey>, request: &SignRequest) -> (r: Result<SshSignature, SignError>)
        ensures
            ({
                let views = key_views(keys@);
                let i = first_match(views, request.credential, 0);
                signed(r) == if i >= views.len() {
                    SignedView::NotHeld
                } else {
                    views[i].signature(request.data@, request.flags)
                }
            }),
    {
        assert(key_views(keys@).len() == keys@.len());
        match Self::find_key(keys, &request.credential) {
            Some(key) => key.sign(request.data.as_slice(), request.flags),
            None => Err(SignError::NotHeld),
        }
    }
}

// --- laws -------------------------------------------------------------------

/// An RSA key never signs with the deprecated `ssh-rsa`, that is SHA-1: its
/// signatures are `rsa-sha2-256` or `rsa-sha2-512`, whatever the flags say.
pub proof fn rsa_keys_never_sign_with_sha1(key: VaultKeyView, data: Seq<u8>, flags: u32)
    requires
        key.facts().rsa,
    ensures
        key.signature(data, flags) matches SignedView::Made(s) ==> {
            &&& s.algorithm == "rsa-sha2-256"@ || s.algorithm == "rsa-sha2-512"@
            &&& s.algorithm != "ssh-rsa"@
        },
{
    reveal_strlit("rsa-sha2-256");
    reveal_strlit("rsa-sha2-512");
    reveal_strlit("ssh-rsa");
    assert("ssh-rsa"@.len() == 7);
    assert("rsa-sha2-256"@.len() == 12);
    assert("rsa-sha2-512"@.len() == 12);
}

/// Where the search for a key ends, and that it ends at the first match.
proof fn lemma_first_match(keys: Seq<VaultKeyView>, credential: Credential, from: int, held: int)
    requires
        0 <= from <= held < keys.len(),
        keys[held].answers_to(credential),
    ensures
        from <= first_match(keys, credential, from) <= held,
        keys[first_match(keys, credential, from)].answers_to(credential),
    decreases held - from,
{
    if !keys[from].answers_to(credential) {
        lemma_first_match(keys, credential, from + 1, held);
    }
}

/// What the agent offers it also holds: a client that names a public key from
/// the list gets its answer from a key with that very public half.
pub proof fn every_key_on_offer_is_held(
    keys: Seq<VaultKeyView>,
    offer: int,
    credential: Credential,
)
    requires
        0 <= offer < keys.len(),
        credential matches Credential::Key(blob) && blob@ == offers(keys)[offer].public,
    ensures
        0 <= first_match(keys, credential, 0) < keys.len(),
        keys[first_match(keys, credential, 0)].facts().blob == offers(keys)[offer].public,
{
    lemma_first_match(keys, credential, 0, offer);
}

/// A certificate is never answered, whatever keys are served.
pub proof fn certificates_are_never_answered(keys: Seq<VaultKeyView>, from: int)
    requires
        0 <= from <= keys.len(),
    ensures
        first_match(keys, Credential::Certificate, from) == keys.len(),
    decreases keys.len() - from,
{
    if from < keys.len() {
        certificates_are_never_answered(keys, from + 1);
    }
}

/// A signature is one of the data in the request, made with the key that was
/// asked, and comes back as it was made: a key that is not RSA signs the way its
/// own algorithm does, whatever the flags say, and where it makes no signature its
/// own reason is told.
pub proof fn other_keys_sign_the_data_itself(key: VaultKeyView, data: Seq<u8>, flags: u32)
    requires
        private_key_in(key.pem) matches Ok(facts) && !facts.rsa,
    ensures
        plain_signature(key.pem, data) matches Ok((algorithm, raw)) ==> key.signature(data, flags)
            == SignedView::Made(SignatureView { algorithm, data: raw }),
        plain_signature(key.pem, data) matches Err(cause) ==> key.signature(data, flags)
            == SignedView::NoPlain(cause),
{
}

/// An RSA key of 2048 bits or more signs the data in the request with SHA-256 where
/// the flags ask for that, and with SHA-512 otherwise; the signature comes back as
/// it was made, under the name of its hash, and where there is none the reason is
/// told with the hash.
pub proof fn rsa_keys_sign_the_data_itself(key: VaultKeyView, data: Seq<u8>, flags: u32)
    requires
        private_key_in(key.pem) matches Ok(facts) && facts.rsa && facts.modulus_len >= 256,
    ensures
        flags & 0x02 != 0 ==> match rsa_sha256_signature(key.pem, data) {
            Ok(Ok(raw)) => key.signature(data, flags) == SignedView::Made(
                SignatureView { algorithm: "rsa-sha2-256"@, data: raw },
            ),
            Ok(Err(cause)) => key.signature(data, flags) == SignedView::NoRsa(
                RsaHash::Sha256,
                cause,
            ),
            Err(cause) => key.signature(data, flags) == SignedView::NoSigner(
                RsaHash::Sha256,
                cause,
            ),
        },
        flags & 0x02 == 0 ==> match rsa_sha512_signature(key.pem, data) {
            Ok(Ok(raw)) => key.signature(data, flags) == SignedView::Made(
                SignatureView { algorithm: "rsa-sha2-512"@, data: raw },
            ),
            Ok(Err(cause)) => key.signature(data, flags) == SignedView::NoRsa(
                RsaHash::Sha512,
                cause,
            ),
            Err(cause) => key.signature(data, flags) == SignedView::NoSigner(
                RsaHash::Sha512,
                cause,
            ),
        },
{
}

/// An RSA key of less than 2048 bits signs nothing at all.
pub proof fn short_rsa_keys_sign_nothing(key: VaultKeyView, data: Seq<u8>, flags: u32)
    requires
        private_key_in(key.pem) matches Ok(facts) && facts.rsa && facts.modulus_len < 256,
    ensures
        key.signature(data, flags) == SignedView::NoSigner(
            if flags & 0x02 != 0 {
                RsaHash::Sha256
            } else {
                RsaHash::Sha512
            },
            "cryptographic error"@,
        ),
{
}

/// Nothing but the flag for SHA-256 has a part in a signature: two requests for the
/// same data that agree on it, and two keys with the same text, get the same.
pub proof fn only_one_flag_matters(
    key: VaultKeyView,
    other: VaultKeyView,
    data: Seq<u8>,
    a: u32,
    b: u32,
)
    requires
        a & 0x02 == b & 0x02,
        key.pem == other.pem,
    ensures
        key.signature(data, a) == other.signature(data, b),
{
}

/// The outcome of a request for a signature is taken for what it is: a signature
/// with its name and its bytes, or the one reason why there is none.
pub proof fn outcomes_are_not_confused(s: SshSignature, hash: RsaHash, cause: String)
    ensures
        signed(Ok(s)) == SignedView::Made(
            SignatureView { algorithm: s.algorithm@, data: s.data@ },
        ),
        signed(Err(SignError::Signer(hash, cause))) == SignedView::NoSigner(hash, cause@),
        signed(Err(SignError::Rsa(hash, cause))) == SignedView::NoRsa(hash, cause@),
        signed(Err(SignError::Plain(cause))) == SignedView::NoPlain(cause@),
        signed(Err(SignError::NotHeld)) == SignedView::NotHeld,
        signed(Ok(s)) is Made,
{
}

/// What an RSA key made becomes a signature under the name of its hash, and
/// whatever kept it from signing is told with that hash.
pub proof fn rsa_signatures_bear_the_name_of_their_hash(
    hash: RsaHash,
    raw: Seq<u8>,
    cause: Seq<char>,
)
    ensures
        rsa_signed(RsaHash::Sha256, Ok(Ok(raw))) == SignedView::Made(
            SignatureView { algorithm: "rsa-sha2-256"@, data: raw },
        ),
        rsa_signed(RsaHash::Sha512, Ok(Ok(raw))) == SignedView::Made(
            SignatureView { algorithm: "rsa-sha2-512"@, data: raw },
        ),
        rsa_signed(hash, Ok(Err(cause))) == SignedView::NoRsa(hash, cause),
        rsa_signed(hash, Err(cause)) == SignedView::NoSigner(hash, cause),
{
}

/// The key that answers a client is the first with the public half that was named:
/// where some key has it, the one found has it and none before it has, and where
/// no key has it, none is found.
pub proof fn the_first_key_with_the_public_half_answers(
    keys: Seq<VaultKeyView>,
    blob: Vec<u8>,
    k: int,
)
    requires
        forall|j: int|
            0 <= j < keys.len() ==> private_key_in((#[trigger] keys[j]).pem) is Ok,
        0 <= k <= keys.len(),
        k < keys.len() ==> private_key_in(keys[k].pem)->Ok_0.blob == blob@,
        forall|j: int|
            0 <= j < k ==> private_key_in((#[trigger] keys[j]).pem)->Ok_0.blob != blob@,
    ensures
        first_match(keys, Credential::Key(blob), 0) == k,
{
    the_search_skips(keys, Credential::Key(blob), 0, k);
}

/// The search for a key goes on over those that are not meant.
proof fn the_search_skips(keys: Seq<VaultKeyView>, credential: Credential, from: int, k: int)
    requires
        0 <= from <= k <= keys.len(),
        forall|j: int| from <= j < k ==> !(#[trigger] keys[j]).answers_to(credential),
        k < keys.len() ==> keys[k].answers_to(credential),
    ensures
        first_match(keys, credential, from) == k,
    decreases k - from,
{
    if from < k {
        assert(!keys[from].answers_to(credential));
        the_search_skips(keys, credential, from + 1, k);
    }
}

/// Every item of the vault is served or refused, never both: one whose private key
/// cannot be read is refused for the reason that `ssh_key` gives, one with a
/// passphrase for that, and all others are served. Nothing but the private key
/// decides, and the item's name is told with the refusal.
pub proof fn every_item_is_served_or_refused(item: ItemView, other: ItemView)
    ensures
        private_key_in(item.private_key) matches Err(cause) ==> !servable(item.private_key)
            && refusal(item) == Some(RefusalView::Unreadable(item.name, cause)),
        private_key_in(item.private_key) matches Ok(facts) ==> (facts.encrypted ==> !servable(
            item.private_key,
        ) && refusal(item) == Some(RefusalView::Encrypted(item.name))),
        private_key_in(item.private_key) matches Ok(facts) ==> (!facts.encrypted ==> servable(
            item.private_key,
        ) && refusal(item) is None),
        item.private_key == other.private_key ==> (refusal(item) is None <==> refusal(
            other,
        ) is None),
{
}

/// A refusal names the item and says what is wrong with it.
pub proof fn a_refusal_names_its_item(name: Seq<char>, cause: Seq<char>)
    ensures
        refusal_text(RefusalView::Unreadable(name, cause))
            == "parsing private key for vault item '"@ + name + "': "@ + cause,
        refusal_text(RefusalView::Encrypted(name)) == "private key for vault item '"@ + name
            + "' is passphrase-encrypted; this is not supported"@,
{
    reveal_strlit("'");
    reveal_strlit(": ");
    reveal_strlit("': ");
    assert("'"@ + ": "@ =~= "': "@);
    assert(refusal_text(RefusalView::Unreadable(name, cause))
        =~= "parsing private key for vault item '"@ + name + "': "@ + cause);
}

/// An error of the vault is taken with the name and the cause that stand in it.
pub proof fn a_refusal_is_what_stands_in_it(name: String, cause: String)
    ensures
        VaultKeyError::Unreadable(name, cause)@ == RefusalView::Unreadable(name@, cause@),
        VaultKeyError::Encrypted(name)@ == RefusalView::Encrypted(name@),
{
}

/// The agent offers every key that it serves, each with its own public half and
/// its own name, in their order; people are told of each its own algorithm,
/// fingerprint and name.
pub proof fn every_key_is_offered_as_itself(keys: Seq<VaultKeyView>, i: int)
    requires
        0 <= i < keys.len(),
        private_key_in(keys[i].pem) is Ok,
    ensures
        offers(keys).len() == keys.len(),
        offers(keys)[i].public == private_key_in(keys[i].pem)->Ok_0.blob,
        offers(keys)[i].comment == keys[i].comment,
        keys[i].summary().algorithm == private_key_in(keys[i].pem)->Ok_0.algorithm,
        keys[i].summary().fingerprint == private_key_in(keys[i].pem)->Ok_0.fingerprint,
        keys[i].summary().comment == keys[i].comment,
{
}

/// An offer, a summary and a signature are what stands in them.
pub proof fn answers_are_what_stands_in_them(
    ids: Seq<Identity>,
    i: int,
    summary: KeySummary,
    s: SshSignature,
)
    ensures
        identity_views(ids).len() == ids.len(),
        0 <= i < ids.len() ==> identity_views(ids)[i] == (IdentityView {
            public: ids[i].public@,
            comment: ids[i].comment@,
        }),
        summary@.algorithm == summary.algorithm@,
        summary@.fingerprint == summary.fingerprint@,
        summary@.comment == summary.comment@,
        s@.algorithm == s.algorithm@,
        s@.data == s.data@,
{
}

/// A key is its text and its name as they are held.
proof fn a_key_is_what_is_held(key: VaultKey)
    ensures
        key@.pem == key.pem@,
        key@.comment == key.comment@,
{
}

/// Whatever the agent answers to a request comes from the first key with the public
/// half that was named, and is what that key makes of the data and the flags of the
/// request; where no key has it, the request is refused as such.
pub proof fn the_agent_answers_the_request_it_got(
    keys: &Vec<VaultKey>,
    request: &SignRequest,
    blob: Vec<u8>,
    k: int,
    r: Result<SshSignature, SignError>,
)
    requires
        call_ensures(VaultAgent::sign, (keys, request), r),
        request.credential == Credential::Key(blob),
        forall|j: int|
            0 <= j < keys@.len() ==> private_key_in((#[trigger] keys@[j])@.pem) is Ok,
        0 <= k <= keys@.len(),
        k < keys@.len() ==> private_key_in(keys@[k]@.pem)->Ok_0.blob == blob@,
        forall|j: int|
            0 <= j < k ==> private_key_in((#[trigger] keys@[j])@.pem)->Ok_0.blob != blob@,
    ensures
        k == keys@.len() ==> r matches Err(SignError::NotHeld),
        k < keys@.len() && !private_key_in(keys@[k]@.pem)->Ok_0.rsa ==> match plain_signature(
            keys@[k]@.pem,
            request.data@,
        ) {
            Ok((algorithm, raw)) => r matches Ok(s) && s.algorithm@ == algorithm && s.data@ == raw,
            Err(cause) => r matches Err(SignError::Plain(why)) && why@ == cause,
        },
        k < keys@.len() && private_key_in(keys@[k]@.pem)->Ok_0.rsa && private_key_in(
            keys@[k]@.pem,
        )->Ok_0.modulus_len >= 256 ==> (r matches Ok(s) ==> if request.flags & 0x02 != 0 {
            s.algorithm@ == "rsa-sha2-256"@ && rsa_sha256_signature(keys@[k]@.pem, request.data@)
                == Ok::<Result<Seq<u8>, Seq<char>>, Seq<char>>(Ok(s.data@))
        } else {
            s.algorithm@ == "rsa-sha2-512"@ && rsa_sha512_signature(keys@[k]@.pem, request.data@)
                == Ok::<Result<Seq<u8>, Seq<char>>, Seq<char>>(Ok(s.data@))
        }),
{
    let views = key_views(keys@);
    assert(views.len() == keys@.len());
    assert forall|j: int| 0 <= j < views.len() implies private_key_in(
        (#[trigger] views[j]).pem,
    ) is Ok by {
        assert(views[j] == keys@[j]@);
    }
    the_first_key_with_the_public_half_answers(views, blob, k);
    if k < keys@.len() {
        assert(views[k] == keys@[k]@);
    }
}

/// The key that is made of an item is the item's own, under its own name.
pub proof fn a_key_is_made_of_its_own_item(item: &SshKeyItem, r: Result<VaultKey, VaultKeyError>)
    requires
        call_ensures(VaultKey::from_item, (item,), r),
    ensures
        match private_key_in(item.ssh_key.private_key@) {
            Err(cause) => r matches Err(VaultKeyError::Unreadable(name, why)) && name@ == item.name@
                && why@ == cause,
            Ok(facts) => if facts.encrypted {
                r matches Err(VaultKeyError::Encrypted(name)) && name@ == item.name@
            } else {
                r matches Ok(key) && key@.pem == item.ssh_key.private_key@ && key@.comment
                    == item.name@
            },
        },
{
}

/// A key signs the data that it is given, and with the hash that it is asked for.
pub proof fn a_key_signs_what_it_is_given(
    key: &VaultKey,
    data: &[u8],
    flags: u32,
    r: Result<SshSignature, SignError>,
)
    requires
        call_ensures(VaultKey::sign, (key, data, flags), r),
        private_key_in(key@.pem) is Ok,
    ensures
        !private_key_in(key@.pem)->Ok_0.rsa ==> match plain_signature(key@.pem, data@) {
            Ok((algorithm, raw)) => r matches Ok(s) && s.algorithm@ == algorithm && s.data@ == raw,
            Err(cause) => r matches Err(SignError::Plain(why)) && why@ == cause,
        },
        private_key_in(key@.pem)->Ok_0.rsa && private_key_in(key@.pem)->Ok_0.modulus_len >= 256
            && flags & 0x02 != 0 ==> match rsa_sha256_signature(key@.pem, data@) {
            Ok(Ok(raw)) => r matches Ok(s) && s.algorithm@ == "rsa-sha2-256"@ && s.data@ == raw,
            Ok(Err(cause)) => r matches Err(SignError::Rsa(RsaHash::Sha256, why)) && why@ == cause,
            Err(cause) => r matches Err(SignError::Signer(RsaHash::Sha256, why)) && why@ == cause,
        },
        private_key_in(key@.pem)->Ok_0.rsa && private_key_in(key@.pem)->Ok_0.modulus_len >= 256
            && flags & 0x02 == 0 ==> match rsa_sha512_signature(key@.pem, data@) {
            Ok(Ok(raw)) => r matches Ok(s) && s.algorithm@ == "rsa-sha2-512"@ && s.data@ == raw,
            Ok(Err(cause)) => r matches Err(SignError::Rsa(RsaHash::Sha512, why)) && why@ == cause,
            Err(cause) => r matches Err(SignError::Signer(RsaHash::Sha512, why)) && why@ == cause,
        },
{
}

/// The agent offers each key that it serves with its own public half and name.
pub proof fn the_agent_offers_each_key_as_itself(keys: &Vec<VaultKey>, r: Vec<Identity>, i: int)
    requires
        call_ensures(VaultAgent::request_identities, (keys,), r),
    ensures
        r@.len() == keys@.len(),
        0 <= i < keys@.len() && private_key_in(keys@[i]@.pem) is Ok ==> r@[i].public@
            == private_key_in(keys@[i]@.pem)->Ok_0.blob && r@[i].comment@ == keys@[i]@.comment,
{
    assert(identity_views(r@).len() == r@.len());
    assert(offers(key_views(keys@)).len() == keys@.len());
    if 0 <= i < keys@.len() {
        assert(identity_views(r@)[i] == r@[i]@);
        assert(offers(key_views(keys@))[i] == keys@[i]@.identity());
    }
}

/// A key answers to its own public half, byte for byte, and to nothing else.
pub proof fn a_key_answers_to_its_public_half(key: VaultKeyView, blob: Vec<u8>)
    requires
        private_key_in(key.pem) is Ok,
    ensures
        key.answers_to(Credential::Key(blob)) <==> blob@ == private_key_in(key.pem)->Ok_0.blob,
        !key.answers_to(Credential::Certificate),
{
}

/// The key that a client means is the first that has the public half named.
pub proof fn the_key_found_has_the_public_half_named<'a>(
    keys: &'a Vec<VaultKey>,
    blob: Vec<u8>,
    r: Option<&'a VaultKey>,
)
    requires
        call_ensures(VaultAgent::find_key, (keys, &Credential::Key(blob)), r),
        forall|j: int|
            0 <= j < keys@.len() ==> private_key_in((#[trigger] keys@[j])@.pem) is Ok,
    ensures
        r matches Some(key) ==> private_key_in(key@.pem)->Ok_0.blob == blob@,
        r is None ==> forall|j: int|
            0 <= j < keys@.len() ==> private_key_in((#[trigger] keys@[j])@.pem)->Ok_0.blob != blob@,
{
    let views = key_views(keys@);
    let credential = Credential::Key(blob);
    assert(views.len() == keys@.len());
    if let Some(key) = r {
        let i = first_match(views, credential, 0);
        assert(views[i] == keys@[i]@);
        the_search_ends_at_a_match(views, credential, 0);
    } else {
        assert forall|j: int| 0 <= j < keys@.len() implies private_key_in(
            (#[trigger] keys@[j])@.pem,
        )->Ok_0.blob != blob@ by {
            assert(views[j] == keys@[j]@);
            if private_key_in(keys@[j]@.pem)->Ok_0.blob == blob@ {
                lemma_first_match(views, credential, 0, j);
            }
        }
    }
}

/// Where the search for a key ends before the last, it ends at one that is meant.
proof fn the_search_ends_at_a_match(keys: Seq<VaultKeyView>, credential: Credential, from: int)
    requires
        0 <= from,
        first_match(keys, credential, from) < keys.len(),
    ensures
        keys[first_match(keys, credential, from)].answers_to(credential),
    decreases keys.len() - from,
{
    if from < keys.len() && !keys[from].answers_to(credential) {
        the_search_ends_at_a_match(keys, credential, from + 1);
    }
}

/// A note on an item that is passed over names it and says why; a signature that could
/// not be made is told with the reason.
pub proof fn notes_and_messages_say_why(e: &VaultKeyError, note: String, cause: String, m: String)
    requires
        call_ensures(VaultKeyError::skip_note, (e,), note),
        call_ensures(SignError::message, (&SignError::Plain(cause),), m),
    ensures
        e matches VaultKeyError::Encrypted(name) ==> note@ == "skipping vault SSH key '"@ + name@
            + "': "@ + refusal_text(RefusalView::Encrypted(name@)),
        e matches VaultKeyError::Unreadable(name, why) ==> note@ == "skipping vault SSH key '"@
            + name@ + "': "@ + refusal_text(RefusalView::Unreadable(name@, why@)),
        m@ == "signing with private key: "@ + cause@,
{
    reveal_strlit(": ");
    reveal_strlit("signing with private key");
    reveal_strlit("signing with private key: ");
    assert("signing with private key"@ + ": "@ =~= "signing with private key: "@);
}

/// What people are told of a key, and what a client is offered of it, is its own.
pub proof fn a_key_is_summed_up_as_itself(
    key: &VaultKey,
    summary: KeySummary,
    offered: Identity,
    blob: Vec<u8>,
    meant: bool,
)
    requires
        call_ensures(VaultKey::summary, (key,), summary),
        call_ensures(VaultKey::identity, (key,), offered),
        call_ensures(VaultKey::matches, (key, &Credential::Key(blob)), meant),
        private_key_in(key@.pem) is Ok,
    ensures
        summary.algorithm@ == private_key_in(key@.pem)->Ok_0.algorithm,
        summary.fingerprint@ == private_key_in(key@.pem)->Ok_0.fingerprint,
        summary.comment@ == key@.comment,
        offered.public@ == private_key_in(key@.pem)->Ok_0.blob,
        offered.comment@ == key@.comment,
        meant <==> blob@ == private_key_in(key@.pem)->Ok_0.blob,
{
}

} // verus!
