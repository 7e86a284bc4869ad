//! Secrets: text that is wiped from memory when its owner goes away.

use secrecy::{ExposeSecret, SecretString};
use vstd::prelude::*;

verus! {

/// A piece of text (a password, an API secret, a session key, a private key)
/// held by `secrecy::SecretString`, which wipes it when it is dropped.
#[verifier::external_body]
pub struct Secret {
    inner: SecretString,
}

/// The text that a secret holds.
pub uninterp spec fn secret_text(secret: Secret) -> Seq<char>;

impl View for Secret {
    type V = Seq<char>;

    open spec fn view(&self) -> Seq<char> {
        secret_text(*self)
    }
}

/// Wraps `SecretString::from`, which takes the text over as it is.
#[verifier::external_body]
fn seal(text: String) -> (secret: Secret)
    ensures
        secret_text(secret) == text@,
{
    Secret { inner: SecretString::from(text) }
}

/// Wraps `ExposeSecret::expose_secret`, which lends the text out as it is.
#[verifier::external_body]
fn unseal(secret: &Secret) -> (text: &str)
    ensures
        text@ == secret_text(*secret),
{
    secret.inner.expose_secret()
}

/// Wraps `SecretString::clone`, which copies the text.
#[verifier::external_body]
fn duplicate(secret: &Secret) -> (copy: Secret)
    ensures
        secret_text(copy) == secret_text(*secret),
{
    Secret { inner: secret.inner.clone() }
}

impl Secret {
    /// Takes `text` over; from here on it is wiped when dropped.
    pub fn new(text: String) -> (secret: Secret)
        ensures
            secret@ == text@,
    {
        seal(text)
    }

    /// The text itself, for the one place that has to hand it on.
    pub fn expose(&self) -> (text: &str)
        ensures
            text@ == self@,
    {
        unseal(self)
    }

    /// A second secret with the same text.
    pub fn copy(&self) -> (copy: Secret)
        ensures
            copy@ == self@,
    {
        duplicate(self)
    }
}

} // verus!
