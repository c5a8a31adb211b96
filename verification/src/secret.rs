//! A string that is handled as a secret.

use secrecy::ExposeSecret;
use secrecy::Secret;
use std::str::FromStr;
use vstd::prelude::*;

verus! {

/// A string that stays out of debug output and is wiped from memory when dropped.
///
/// The value is a `secrecy::Secret<String>`. The verifier does not look inside it: what it
/// holds is known only through [`secret_chars`].
#[verifier::external_body]
#[derive(Debug)]
pub struct SecretText {
    inner: Secret<String>,
}

/// The characters that a secret holds.
pub uninterp spec fn secret_chars(secret: SecretText) -> Seq<char>;

impl View for SecretText {
    type V = Seq<char>;

    open spec fn view(&self) -> Seq<char> {
        secret_chars(*self)
    }
}

/// Calls `secrecy`'s `FromStr::from_str` for `Secret<String>`, which copies the text into a
/// new `String`, wraps it with `Secret::new` and never fails. Taken on trust: the secret
/// holds the characters of `text`.
#[verifier::external_body]
fn sealed(text: &str) -> (secret: SecretText)
    ensures
        secret_chars(secret) == text@,
{
    match Secret::<String>::from_str(text) {
        Ok(inner) => SecretText { inner },
        Err(never) => match never {},
    }
}

/// Calls `secrecy`'s `ExposeSecret::expose_secret` on the `Secret<String>`, which hands out
/// a reference to the wrapped `String`. Taken on trust: the text is what the secret holds.
#[verifier::external_body]
fn exposed(secret: &SecretText) -> (text: &String)
    ensures
        text@ == secret_chars(*secret),
{
    secret.inner.expose_secret()
}

impl Clone for SecretText {
    /// Calls `secrecy`'s `Clone::clone` for `Secret<String>`, which wraps a clone of the
    /// `String` inside. Taken on trust: the copy holds what the secret holds.
    #[verifier::external_body]
    fn clone(&self) -> (copy: SecretText)
        ensures
            secret_chars(copy) == secret_chars(*self),
    {
        SecretText { inner: self.inner.clone() }
    }
}

impl SecretText {
    /// Takes a copy of `text` as a secret.
    pub fn new(text: &str) -> (secret: SecretText)
        ensures
            secret@ == text@,
    {
        sealed(text)
    }

    /// The text of the secret. This is the only way to read it.
    pub fn expose_secret(&self) -> (text: &str)
        ensures
            text@ == self@,
    {
        exposed(self).as_str()
    }
}

} // verus!
