//! The two rolling digests of a download, and their hexadecimal form.
//!
//! The digests themselves are computed by the crates `sha2` and `md-5`, the
//! hexadecimal text by the crate `hex`. What this module states of them is
//! believed, not proved.

use vstd::prelude::*;

verus! {

/// A SHA-256 computation in progress, as the crate `sha2` holds it.
#[verifier::external_body]
pub struct Sha256Hasher {
    inner: sha2::Sha256,
}

/// An MD5 computation in progress, as the crate `md-5` holds it.
#[verifier::external_body]
pub struct Md5Hasher {
    inner: md5::Md5,
}

/// The bytes that a SHA-256 computation has been fed so far, in order.
pub uninterp spec fn sha256_absorbed(h: Sha256Hasher) -> Seq<u8>;

/// The bytes that an MD5 computation has been fed so far, in order.
pub uninterp spec fn md5_absorbed(h: Md5Hasher) -> Seq<u8>;

/// The SHA-256 digest of `data`.
pub uninterp spec fn sha256_digest(data: Seq<u8>) -> Seq<u8>;

/// The MD5 digest of `data`.
pub uninterp spec fn md5_digest(data: Seq<u8>) -> Seq<u8>;

/// The hexadecimal digit of a value below sixteen, in lower case.
pub open spec fn hex_digit(n: int) -> char {
    if n < 10 {
        (48 + n) as u8 as char
    } else {
        (87 + n) as u8 as char
    }
}

/// `data` in hexadecimal: two lower-case digits for each byte, the high half
/// first.
pub open spec fn hex_lower(data: Seq<u8>) -> Seq<char> {
    Seq::new(
        2 * data.len(),
        |i: int|
            if i % 2 == 0 {
                hex_digit(data[i / 2] as int / 16)
            } else {
                hex_digit(data[i / 2] as int % 16)
            },
    )
}

/// `Digest::new` of `sha2::Sha256`: a fresh computation, which has been fed
/// nothing.
#[verifier::external_body]
pub(crate) fn sha256_new() -> (h: Sha256Hasher)
    ensures
        sha256_absorbed(h) == Seq::<u8>::empty(),
{
    Sha256Hasher { inner: <sha2::Sha256 as sha2::Digest>::new() }
}

/// `Digest::update` of `sha2::Sha256`: feeds `data` to the computation, after
/// all that it was fed before.
#[verifier::external_body]
pub(crate) fn sha256_update(h: &mut Sha256Hasher, data: &[u8])
    ensures
        sha256_absorbed(*final(h)) == sha256_absorbed(*old(h)) + data@,
{
    sha2::Digest::update(&mut h.inner, data)
}

/// `Digest::finalize` of `sha2::Sha256`: the digest of all the bytes that the
/// computation was fed.
#[verifier::external_body]
pub(crate) fn sha256_finalize(h: Sha256Hasher) -> (digest: Vec<u8>)
    ensures
        digest@ == sha256_digest(sha256_absorbed(h)),
{
    sha2::Digest::finalize(h.inner).to_vec()
}

/// `Digest::new` of `md5::Md5`: a fresh computation, which has been fed
/// nothing.
#[verifier::external_body]
pub(crate) fn md5_new() -> (h: Md5Hasher)
    ensures
        md5_absorbed(h) == Seq::<u8>::empty(),
{
    Md5Hasher { inner: <md5::Md5 as md5::Digest>::new() }
}

/// `Digest::update` of `md5::Md5`: feeds `data` to the computation, after all
/// that it was fed before.
#[verifier::external_body]
pub(crate) fn md5_update(h: &mut Md5Hasher, data: &[u8])
    ensures
        md5_absorbed(*final(h)) == md5_absorbed(*old(h)) + data@,
{
    md5::Digest::update(&mut h.inner, data)
}

/// `Digest::finalize` of `md5::Md5`: the digest of all the bytes that the
/// computation was fed.
#[verifier::external_body]
pub(crate) fn md5_finalize(h: Md5Hasher) -> (digest: Vec<u8>)
    ensures
        digest@ == md5_digest(md5_absorbed(h)),
{
    md5::Digest::finalize(h.inner).to_vec()
}

/// `hex::encode`: each byte becomes two characters out of `0123456789abcdef`,
/// the one for its high four bits first.
#[verifier::external_body]
pub(crate) fn hex_encode(data: &[u8]) -> (text: String)
    ensures
        text@ == hex_lower(data@),
{
    hex::encode(data)
}

/// The SHA-256 digest of `data`, in lower-case hexadecimal.
pub fn sha256_hex(data: &[u8]) -> (text: String)
    ensures
        text@ == hex_lower(sha256_digest(data@)),
{
    let mut h = sha256_new();
    sha256_update(&mut h, data);
    proof {
        assert(Seq::<u8>::empty() + data@ =~= data@);
    }
    let digest = sha256_finalize(h);
    hex_encode(digest.as_slice())
}

/// The MD5 digest of `data`, in lower-case hexadecimal.
pub fn md5_hex(data: &[u8]) -> (text: String)
    ensures
        text@ == hex_lower(md5_digest(data@)),
{
    let mut h = md5_new();
    md5_update(&mut h, data);
    proof {
        assert(Seq::<u8>::empty() + data@ =~= data@);
    }
    let digest = md5_finalize(h);
    hex_encode(digest.as_slice())
}

} // verus!
