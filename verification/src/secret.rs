//! Secrets that are wiped from memory when they are dropped.

use secrecy::{ExposeSecret, SecretString, SecretVec};
use vstd::prelude::*;

verus! {

/// Holds a `secrecy::SecretVec`, which wipes its bytes when it is dropped.
#[verifier::external_body]
pub struct SecretBytes {
    inner: SecretVec<u8>,
}

/// The bytes that a secret holds.
pub uninterp spec fn secret_bytes(secret: SecretBytes) -> Seq<u8>;

/// Calls `secrecy::Secret::new` on a vector. The contract claims that the secret holds the bytes of
/// the vector.
#[verifier::external_body]
pub(crate) fn seal_bytes(bytes: Vec<u8>) -> (secret: SecretBytes)
    ensures
        secret_bytes(secret) == bytes@,
{
    SecretBytes { inner: SecretVec::new(bytes) }
}

/// Calls `expose_secret` of `secrecy::ExposeSecret` on a secret vector. The contract claims that it
/// gives the bytes that the secret holds.
#[verifier::external_body]
pub(crate) fn expose_bytes(secret: &SecretBytes) -> (bytes: &Vec<u8>)
    ensures
        bytes@ == secret_bytes(*secret),
{
    secret.inner.expose_secret()
}

/// Holds a `secrecy::SecretString`, which wipes its text when it is dropped.
#[verifier::external_body]
pub struct SecretText {
    inner: SecretString,
}

/// The characters that a secret holds.
pub uninterp spec fn secret_text(secret: SecretText) -> Seq<char>;

/// Calls `secrecy::Secret::new` on a string. The contract claims that the secret holds the
/// characters of the string.
#[verifier::external_body]
pub(crate) fn seal_text(text: String) -> (secret: SecretText)
    ensures
        secret_text(secret) == text@,
{
    SecretText { inner: SecretString::new(text) }
}

/// Calls `expose_secret` of `secrecy::ExposeSecret` on a secret string. The contract claims that it
/// gives the characters that the secret holds.
#[verifier::external_body]
pub(crate) fn expose_text(secret: &SecretText) -> (text: &String)
    ensures
        text@ == secret_text(*secret),
{
    secret.inner.expose_secret()
}

} // verus!
