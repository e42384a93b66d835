//! Texts and bytes that are wiped from memory when they are dropped.

use vstd::prelude::*;

verus! {

/// A text in a `zeroize::Zeroizing`, which overwrites it when it is dropped. Verus
/// takes no declaration of that type: it has a bound on an outside trait.
#[derive(Debug)]
#[verifier::external_body]
pub struct Secret {
    inner: zeroize::Zeroizing<String>,
}

/// The text that a secret holds.
pub uninterp spec fn secret_text(s: Secret) -> Seq<char>;

/// Calls `zeroize::Zeroizing::new`, which takes the text over as it is.
#[verifier::external_body]
fn seal_text(text: String) -> (r: Secret)
    ensures
        secret_text(r) == text@,
{
    Secret { inner: zeroize::Zeroizing::new(text) }
}

/// Calls `zeroize::Zeroizing::deref`, which lends the text that is held.
#[verifier::external_body]
fn lend_text(s: &Secret) -> (r: &str)
    ensures
        r@ == secret_text(*s),
{
    std::ops::Deref::deref(&s.inner).as_str()
}

impl View for Secret {
    type V = Seq<char>;

    open spec fn view(&self) -> Seq<char> {
        secret_text(*self)
    }
}

impl Secret {
    /// A secret that holds a text.
    pub fn new(text: String) -> (r: Secret)
        ensures
            r@ == text@,
    {
        seal_text(text)
    }

    /// The text that is held.
    pub fn as_str(&self) -> (r: &str)
        ensures
            r@ == self@,
    {
        lend_text(self)
    }

    /// The same secret once more, wiped as this one is.
    pub fn duplicate(&self) -> (r: Secret)
        ensures
            r@ == self@,
    {
        Secret::new(self.as_str().to_string())
    }
}

/// 32 bytes in a `zeroize::Zeroizing`, which overwrites them when they are dropped.
/// Verus takes no declaration of that type: it has a bound on an outside trait.
#[derive(Debug)]
#[verifier::external_body]
pub struct SecretBytes {
    inner: zeroize::Zeroizing<[u8; 32]>,
}

/// The bytes that are held.
pub uninterp spec fn secret_bytes(s: SecretBytes) -> Seq<u8>;

/// Calls `zeroize::Zeroizing::new`, which takes the bytes over as they are.
#[verifier::external_body]
fn seal_bytes(bytes: [u8; 32]) -> (r: SecretBytes)
    ensures
        secret_bytes(r) == bytes@,
{
    SecretBytes { inner: zeroize::Zeroizing::new(bytes) }
}

/// Calls `zeroize::Zeroizing::deref`, which lends the bytes that are held.
#[verifier::external_body]
fn lend_bytes(s: &SecretBytes) -> (r: &[u8; 32])
    ensures
        r@ == secret_bytes(*s),
{
    std::ops::Deref::deref(&s.inner)
}

/// Calls `rand::RngCore::fill_bytes` of `rand::rngs::OsRng` on 32 bytes that are
/// wiped when they are dropped. Which bytes come is a matter of chance, so only their
/// number is claimed.
#[verifier::external_body]
pub(crate) fn random_bytes() -> (r: SecretBytes)
    ensures
        secret_bytes(r).len() == 32,
{
    let mut inner = zeroize::Zeroizing::new([0u8; 32]);
    rand::RngCore::fill_bytes(&mut rand::rngs::OsRng, &mut inner[..]);
    SecretBytes { inner }
}

impl View for SecretBytes {
    type V = Seq<u8>;

    open spec fn view(&self) -> Seq<u8> {
        secret_bytes(*self)
    }
}

impl SecretBytes {
    /// A secret that holds these bytes.
    pub fn new(bytes: [u8; 32]) -> (r: SecretBytes)
        ensures
            r@ == bytes@,
    {
        seal_bytes(bytes)
    }

    /// The bytes that are held.
    pub fn as_array(&self) -> (r: &[u8; 32])
        ensures
            r@ == self@,
            r@.len() == 32,
    {
        lend_bytes(self)
    }
}

} // verus!
