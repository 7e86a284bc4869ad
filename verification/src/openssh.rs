//! OpenSSH keys, as plain values: what a key file says of itself, and the
//! signatures made with it.
//!
//! Reading keys and signing is the work of `ssh_key` and `rsa`; every function
//! here that calls them takes and returns plain values.

use rsa::pkcs1v15::SigningKey;
use rsa::{BigUint, RsaPrivateKey};
use signature::{SignatureEncoding, Signer};
use ssh_key::sha2::{Sha256, Sha512};
use ssh_key::{Error, HashAlg, LineEnding, PrivateKey, PublicKey};
use vstd::prelude::*;

use crate::text::text_of;

verus! {

/// What is read off an OpenSSH private key.
pub struct KeyFacts {
    /// Whether the private half is protected by a passphrase.
    pub encrypted: bool,
    /// Whether the private half is there to be used, and is an RSA key.
    pub rsa: bool,
    /// How many bytes the modulus of such an RSA key has; none for other keys.
    pub modulus_len: usize,
    /// The algorithm as OpenSSH names it (`ssh-ed25519`, `ssh-rsa`, ...).
    pub algorithm: String,
    /// The `SHA256:...` fingerprint of the public half.
    pub fingerprint: String,
    /// The comment that stands in the key.
    pub comment: String,
    /// The public half as an OpenSSH line, where it can be written as one.
    pub public_line: Option<String>,
    /// The public half in the encoding of the SSH protocol.
    pub blob: Vec<u8>,
}

/// The contents of [`KeyFacts`].
pub struct KeyFactsView {
    pub encrypted: bool,
    pub rsa: bool,
    pub modulus_len: usize,
    pub algorithm: Seq<char>,
    pub fingerprint: Seq<char>,
    pub comment: Seq<char>,
    pub public_line: Option<Seq<char>>,
    pub blob: Seq<u8>,
}

impl View for KeyFacts {
    type V = KeyFactsView;

    open spec fn view(&self) -> KeyFactsView {
        KeyFactsView {
            encrypted: self.encrypted,
            rsa: self.rsa,
            modulus_len: self.modulus_len,
            algorithm: self.algorithm@,
            fingerprint: self.fingerprint@,
            comment: self.comment@,
            public_line: text_of(self.public_line),
            blob: self.blob@,
        }
    }
}

/// What `PrivateKey::from_openssh` reads in a text, or what `ssh_key` says is
/// wrong with it where it is no OpenSSH private key.
pub uninterp spec fn private_key_in(pem: Seq<char>) -> Result<KeyFactsView, Seq<char>>;

/// The SHA-256 fingerprint of the key that `PublicKey::from_openssh` reads in a
/// line: nothing where the line is no OpenSSH public key.
pub uninterp spec fn public_line_fingerprint(line: Seq<char>) -> Option<Seq<char>>;

/// The PKCS#1 v1.5 signature with SHA-256 that `rsa` makes of `data` with the
/// RSA key in a text, or what `ssh_key` says where the text makes no signing key;
/// within the first, what the signing key says where it makes no signature.
pub uninterp spec fn rsa_sha256_signature(pem: Seq<char>, data: Seq<u8>) -> Result<
    Result<Seq<u8>, Seq<char>>,
    Seq<char>,
>;

/// The PKCS#1 v1.5 signature with SHA-512 that `rsa` makes of `data` with the
/// RSA key in a text, or what `ssh_key` says where the text makes no signing key;
/// within the first, what the signing key says where it makes no signature.
pub uninterp spec fn rsa_sha512_signature(pem: Seq<char>, data: Seq<u8>) -> Result<
    Result<Seq<u8>, Seq<char>>,
    Seq<char>,
>;

/// The algorithm and the bytes of the signature that `ssh_key` makes of `data`
/// with the key in a text, or what it says where it makes none.
pub uninterp spec fn plain_signature(pem: Seq<char>, data: Seq<u8>) -> Result<
    (Seq<char>, Seq<u8>),
    Seq<char>,
>;

/// Wraps `PrivateKey::from_openssh` and reads the key's plain facts off it. The
/// public half is in clear in every key, so all facts are there for a key that
/// is protected by a passphrase too; such a key is not told apart as RSA. Where
/// the public half can be written as a line and that line can be read again,
/// it is read as a key with the same fingerprint, if no space stands in the name
/// of the algorithm: the first space of a line ends the name.
#[verifier::external_body]
pub(crate) fn read_private_key(pem: &str) -> (r: Result<KeyFacts, String>)
    ensures
        match r {
            Ok(facts) => private_key_in(pem@) == Ok::<KeyFactsView, Seq<char>>(facts@),
            Err(e) => private_key_in(pem@) == Err::<KeyFactsView, Seq<char>>(e@),
        },
        r matches Ok(facts) ==> facts.encrypted ==> !facts.rsa,
        r matches Ok(facts) ==> !facts.algorithm@.contains(' ') ==> (
        facts.public_line matches Some(line) ==> (public_line_fingerprint(line@) is Some
            ==> public_line_fingerprint(line@) == Some(facts.fingerprint@))),
{
    let key = PrivateKey::from_openssh(pem.as_bytes()).map_err(|e| e.to_string())?;
    let public = key.public_key();
    let modulus = key.key_data().rsa().map(|k| &k.public.n);
    Ok(KeyFacts {
        encrypted: key.is_encrypted(),
        rsa: key.key_data().rsa().is_some(),
        modulus_len: modulus.and_then(|n| n.as_positive_bytes()).map_or(0, |b| b.len()),
        algorithm: public.algorithm().as_str().to_string(),
        fingerprint: public.fingerprint(HashAlg::Sha256).to_string(),
        comment: public.comment().to_string(),
        public_line: public.to_openssh().ok(),
        blob: public.to_bytes().map_err(|e| e.to_string())?,
    })
}

/// The text of the key in `pem` without its passphrase, as `PrivateKey::decrypt`
/// frees it and `PrivateKey::to_openssh` writes it: nothing where either fails,
/// such as for a wrong passphrase or a key that has none.
pub uninterp spec fn freed_private_key(pem: Seq<char>, passphrase: Seq<char>) -> Option<Seq<char>>;

/// Wraps `PrivateKey::decrypt` and `PrivateKey::to_openssh` with Unix line ends,
/// on the key in `pem`.
#[verifier::external_body]
pub(crate) fn free_private_key(pem: &str, passphrase: &str) -> (r: Option<String>)
    ensures
        text_of(r) == freed_private_key(pem@, passphrase@),
{
    let key = PrivateKey::from_openssh(pem.as_bytes()).ok()?.decrypt(passphrase).ok()?;
    Some(key.to_openssh(LineEnding::LF).ok()?.to_string())
}

/// Wraps `PublicKey::from_openssh` and `PublicKey::fingerprint` with SHA-256.
#[verifier::external_body]
pub(crate) fn read_public_fingerprint(line: &str) -> (r: Option<String>)
    ensures
        text_of(r) == public_line_fingerprint(line@),
{
    Some(PublicKey::from_openssh(line).ok()?.fingerprint(HashAlg::Sha256).to_string())
}

/// What an RSA key made, or why it made nothing: the outer reason where it is not
/// fit to sign at all.
pub open spec fn rsa_made(r: Result<Result<Vec<u8>, String>, String>) -> Result<
    Result<Seq<u8>, Seq<char>>,
    Seq<char>,
> {
    match r {
        Ok(Ok(raw)) => Ok(Ok(raw@)),
        Ok(Err(cause)) => Ok(Err(cause@)),
        Err(cause) => Err(cause@),
    }
}

/// Wraps `RsaPrivateKey::from_components` of `rsa` on the numbers of the RSA key
/// in `pem`, and `SigningKey::<Sha256>::try_sign` with it. What either says is
/// wrong is told in its own words. The numbers are handed over here because the
/// conversion that `ssh_key` offers gives one prime twice, which `rsa` refuses.
/// What `rsa` computes in advance is cleared: with it, signing takes very long
/// where one prime is much smaller than the other.
#[verifier::external_body]
pub(crate) fn sign_rsa_sha256(pem: &str, data: &[u8]) -> (r: Result<Result<Vec<u8>, String>, String>)
    ensures
        rsa_made(r) == rsa_sha256_signature(pem@, data@),
{
    let sign = || {
        let key = PrivateKey::from_openssh(pem.as_bytes())?;
        let pair = key.key_data().rsa().ok_or(Error::AlgorithmUnknown)?;
        let mut numbers = RsaPrivateKey::from_components(
            BigUint::try_from(&pair.public.n)?,
            BigUint::try_from(&pair.public.e)?,
            BigUint::try_from(&pair.private.d)?,
            vec![BigUint::try_from(&pair.private.p)?, BigUint::try_from(&pair.private.q)?],
        )?;
        numbers.clear_precomputed();
        Ok(SigningKey::<Sha256>::new(numbers).try_sign(data))
    };
    let made = sign().map_err(|e: Error| e.to_string())?;
    Ok(made.map(|s| s.to_vec()).map_err(|e| e.to_string()))
}

/// Wraps `RsaPrivateKey::from_components` of `rsa` on the numbers of the RSA key
/// in `pem`, and `SigningKey::<Sha512>::try_sign` with it. What either says is
/// wrong is told in its own words. The numbers are handed over here because the
/// conversion that `ssh_key` offers gives one prime twice, which `rsa` refuses.
/// What `rsa` computes in advance is cleared: with it, signing takes very long
/// where one prime is much smaller than the other.
#[verifier::external_body]
pub(crate) fn sign_rsa_sha512(pem: &str, data: &[u8]) -> (r: Result<Result<Vec<u8>, String>, String>)
    ensures
        rsa_made(r) == rsa_sha512_signature(pem@, data@),
{
    let sign = || {
        let key = PrivateKey::from_openssh(pem.as_bytes())?;
        let pair = key.key_data().rsa().ok_or(Error::AlgorithmUnknown)?;
        let mut numbers = RsaPrivateKey::from_components(
            BigUint::try_from(&pair.public.n)?,
            BigUint::try_from(&pair.public.e)?,
            BigUint::try_from(&pair.private.d)?,
            vec![BigUint::try_from(&pair.private.p)?, BigUint::try_from(&pair.private.q)?],
        )?;
        numbers.clear_precomputed();
        Ok(SigningKey::<Sha512>::new(numbers).try_sign(data))
    };
    let made = sign().map_err(|e: Error| e.to_string())?;
    Ok(made.map(|s| s.to_vec()).map_err(|e| e.to_string()))
}

/// Wraps `PrivateKey::try_sign` of `ssh_key`, on the key in `pem`.
#[verifier::external_body]
pub(crate) fn sign_plain(pem: &str, data: &[u8]) -> (r: Result<(String, Vec<u8>), String>)
    ensures
        match r {
            Ok(s) => plain_signature(pem@, data@) == Ok::<(Seq<char>, Seq<u8>), Seq<char>>(
                (s.0@, s.1@),
            ),
            Err(e) => plain_signature(pem@, data@) == Err::<(Seq<char>, Seq<u8>), Seq<char>>(e@),
        },
{
    let key = PrivateKey::from_openssh(pem.as_bytes()).map_err(|e| e.to_string())?;
    let signed = key.try_sign(data).map_err(|e| e.to_string())?;
    Ok((signed.algorithm().as_str().to_string(), signed.as_bytes().to_vec()))
}

// --- laws -------------------------------------------------------------------

/// What is read off a key is what stands in it.
pub proof fn facts_are_what_stands_in_them(facts: KeyFacts)
    ensures
        facts@.encrypted == facts.encrypted,
        facts@.rsa == facts.rsa,
        facts@.modulus_len == facts.modulus_len,
        facts@.algorithm == facts.algorithm@,
        facts@.fingerprint == facts.fingerprint@,
        facts@.comment == facts.comment@,
        facts@.public_line == text_of(facts.public_line),
        facts@.blob == facts.blob@,
{
}

/// What an RSA key made is taken as it was made.
pub proof fn what_was_made_is_taken_as_it_was(raw: Vec<u8>, cause: String)
    ensures
        rsa_made(Ok(Ok(raw))) == Ok::<Result<Seq<u8>, Seq<char>>, Seq<char>>(Ok(raw@)),
        rsa_made(Ok(Err(cause))) == Ok::<Result<Seq<u8>, Seq<char>>, Seq<char>>(Err(cause@)),
        rsa_made(Err(cause)) == Err::<Result<Seq<u8>, Seq<char>>, Seq<char>>(cause@),
{
}

} // verus!
