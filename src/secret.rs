//! Sensitive text held in `secrecy::SecretString`, which keeps it out of
//! formatted output and wipes it from memory on drop.
use secrecy::ExposeSecret;
use vstd::prelude::*;

verus! {

/// A bearer secret. `Debug` shows a redaction placeholder, never the text; the
/// text is read only through `expose`, and it is wiped from memory on drop.
#[verifier::external_body]
#[derive(Debug)]
pub struct SecretText {
    inner: secrecy::SecretString,
}

/// The text that a secret holds.
pub uninterp spec fn secret_text(s: SecretText) -> Seq<char>;

/// Relies on `secrecy::Secret::new`: the secret takes ownership of the text as it is.
#[verifier::external_body]
pub fn new_secret(text: String) -> (r: SecretText)
    ensures
        secret_text(r) == text@,
{
    SecretText { inner: secrecy::Secret::new(text) }
}

/// Relies on `secrecy::ExposeSecret::expose_secret`: it hands out the text held.
#[verifier::external_body]
pub fn expose(s: &SecretText) -> (r: &str)
    ensures
        r@ == secret_text(*s),
{
    s.inner.expose_secret().as_str()
}

/// Relies on `Clone for secrecy::Secret<String>`: the copy holds a clone of the text.
#[verifier::external_body]
pub fn clone_secret(s: &SecretText) -> (r: SecretText)
    ensures
        secret_text(r) == secret_text(*s),
{
    SecretText { inner: s.inner.clone() }
}

} // verus!
