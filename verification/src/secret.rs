//! Holders for plaintext that are wiped when dropped. Each holds a `zeroize::Zeroizing`
//! value in a private field; Verus cannot declare that type itself because its parameter is
//! bounded by the outside `Zeroize` trait.
use vstd::prelude::*;

verus! {

/// Text kept in a `zeroize::Zeroizing<String>`, overwritten with zeros when dropped.
#[verifier::external_body]
pub struct ZeroizingText {
    inner: zeroize::Zeroizing<String>,
}

/// Bytes kept in a `zeroize::Zeroizing<Vec<u8>>`, overwritten with zeros when dropped.
#[verifier::external_body]
pub struct ZeroizingBytes {
    inner: zeroize::Zeroizing<Vec<u8>>,
}

/// The characters held by a [`ZeroizingText`].
pub uninterp spec fn zeroizing_text(z: ZeroizingText) -> Seq<char>;

/// The bytes held by a [`ZeroizingBytes`].
pub uninterp spec fn zeroizing_bytes(z: ZeroizingBytes) -> Seq<u8>;

impl ZeroizingText {
    /// Trusted: `Zeroizing::new` on a string: the holder keeps exactly the given characters.
    #[verifier::external_body]
    pub(crate) fn new(s: String) -> (z: Self)
        ensures
            zeroizing_text(z) == s@,
    {
        ZeroizingText { inner: zeroize::Zeroizing::new(s) }
    }

    /// Trusted: `Zeroizing::deref` then `String::as_str`: the held characters.
    #[verifier::external_body]
    pub(crate) fn as_str(&self) -> (r: &str)
        ensures
            r@ == zeroizing_text(*self),
    {
        self.inner.as_str()
    }

    /// Trusted: `<Zeroizing<String> as Clone>::clone`, which clones the held string.
    #[verifier::external_body]
    pub(crate) fn duplicate(&self) -> (r: Self)
        ensures
            zeroizing_text(r) == zeroizing_text(*self),
    {
        ZeroizingText { inner: self.inner.clone() }
    }

    /// Trusted: `<Zeroizing<String> as PartialEq>::eq`, which compares the held strings.
    #[verifier::external_body]
    pub(crate) fn same_text(&self, other: &Self) -> (r: bool)
        ensures
            r == (zeroizing_text(*self) == zeroizing_text(*other)),
    {
        self.inner == other.inner
    }
}

impl ZeroizingBytes {
    /// Trusted: `Zeroizing::new` on a byte buffer: the holder keeps exactly the given bytes.
    #[verifier::external_body]
    pub(crate) fn new(b: Vec<u8>) -> (z: Self)
        ensures
            zeroizing_bytes(z) == b@,
    {
        ZeroizingBytes { inner: zeroize::Zeroizing::new(b) }
    }

    /// Trusted: `Zeroizing::deref` then `Vec::as_slice`: the held bytes.
    #[verifier::external_body]
    pub(crate) fn as_slice(&self) -> (r: &[u8])
        ensures
            r@ == zeroizing_bytes(*self),
    {
        self.inner.as_slice()
    }

    /// Trusted: `<Zeroizing<Vec<u8>> as Clone>::clone`, which clones the held bytes.
    #[verifier::external_body]
    pub(crate) fn duplicate(&self) -> (r: Self)
        ensures
            zeroizing_bytes(r) == zeroizing_bytes(*self),
    {
        ZeroizingBytes { inner: self.inner.clone() }
    }

    /// Trusted: `<Zeroizing<Vec<u8>> as PartialEq>::eq`, which compares the held bytes.
    #[verifier::external_body]
    pub(crate) fn same_bytes(&self, other: &Self) -> (r: bool)
        ensures
            r == (zeroizing_bytes(*self) == zeroizing_bytes(*other)),
    {
        self.inner == other.inner
    }
}

} // verus!
