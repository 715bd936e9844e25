//! Message digests and HMACs.

use digest::Digest;
use hmac::Mac;
use vstd::prelude::*;

verus! {

/// The MD5 digest of the bytes.
pub uninterp spec fn md5_of(b: Seq<u8>) -> Seq<u8>;

/// The MD5 digest (16 bytes) of `bytes`.
///
/// Calls `md5::Md5::digest`; the digest depends on the bytes alone.
#[verifier::external_body]
pub(crate) fn md5_digest(bytes: &[u8]) -> (r: Vec<u8>)
    ensures
        r@ == md5_of(bytes@),
        r@.len() == 16,
{
    md5::Md5::digest(bytes).to_vec()
}

/// The SHA-1 digest of the bytes.
pub uninterp spec fn sha1_of(b: Seq<u8>) -> Seq<u8>;

/// The SHA-1 digest (20 bytes) of `bytes`.
///
/// Calls `sha1::Sha1::digest`; the digest depends on the bytes alone.
#[verifier::external_body]
pub(crate) fn sha1_digest(bytes: &[u8]) -> (r: Vec<u8>)
    ensures
        r@ == sha1_of(bytes@),
        r@.len() == 20,
{
    sha1::Sha1::digest(bytes).to_vec()
}

/// The SHA-256 digest of the bytes.
pub uninterp spec fn sha256_of(b: Seq<u8>) -> Seq<u8>;

/// The SHA-256 digest (32 bytes) of `bytes`.
///
/// Calls `sha2::Sha256::digest`; the digest depends on the bytes alone.
#[verifier::external_body]
pub(crate) fn sha256_digest(bytes: &[u8]) -> (r: Vec<u8>)
    ensures
        r@ == sha256_of(bytes@),
        r@.len() == 32,
{
    sha2::Sha256::digest(bytes).to_vec()
}

/// The SHA-512 digest of the bytes.
pub uninterp spec fn sha512_of(b: Seq<u8>) -> Seq<u8>;

/// The SHA-512 digest (64 bytes) of `bytes`.
///
/// Calls `sha2::Sha512::digest`; the digest depends on the bytes alone.
#[verifier::external_body]
pub(crate) fn sha512_digest(bytes: &[u8]) -> (r: Vec<u8>)
    ensures
        r@ == sha512_of(bytes@),
        r@.len() == 64,
{
    sha2::Sha512::digest(bytes).to_vec()
}

/// The HMAC-SHA-256 of a message under a key.
pub uninterp spec fn hmac_sha256_of(key: Seq<u8>, msg: Seq<u8>) -> Seq<u8>;

/// The HMAC-SHA-256 (32 bytes) of `msg` under `key`.
///
/// Calls `hmac::Hmac::<Sha256>::new_from_slice`, which takes a key of any
/// length, then `update` and `finalize`; the result depends on the key and
/// the message alone.
#[verifier::external_body]
pub(crate) fn hmac_sha256(key: &[u8], msg: &[u8]) -> (r: Vec<u8>)
    ensures
        r@ == hmac_sha256_of(key@, msg@),
        r@.len() == 32,
{
    let mut mac = <hmac::Hmac<sha2::Sha256> as Mac>::new_from_slice(key).unwrap();
    mac.update(msg);
    mac.finalize().into_bytes().to_vec()
}

/// The HMAC-SHA-512 of a message under a key.
pub uninterp spec fn hmac_sha512_of(key: Seq<u8>, msg: Seq<u8>) -> Seq<u8>;

/// The HMAC-SHA-512 (64 bytes) of `msg` under `key`.
///
/// Calls `hmac::Hmac::<Sha512>::new_from_slice`, which takes a key of any
/// length, then `update` and `finalize`; the result depends on the key and
/// the message alone.
#[verifier::external_body]
pub(crate) fn hmac_sha512(key: &[u8], msg: &[u8]) -> (r: Vec<u8>)
    ensures
        r@ == hmac_sha512_of(key@, msg@),
        r@.len() == 64,
{
    let mut mac = <hmac::Hmac<sha2::Sha512> as Mac>::new_from_slice(key).unwrap();
    mac.update(msg);
    mac.finalize().into_bytes().to_vec()
}

/// The last component of a path, as `Path::file_name` gives it (empty when
/// it has none).
pub uninterp spec fn file_name_of(path: Seq<char>) -> Seq<char>;

/// The file name at the end of a path; empty when the path ends in `..` or
/// has no components.
///
/// Calls `std::path::Path::file_name` and takes the name as text; the
/// result depends on the path alone.
#[verifier::external_body]
pub(crate) fn path_file_name(path: &str) -> (r: String)
    ensures
        r@ == file_name_of(path@),
{
    std::path::Path::new(path).file_name().map(|n| n.to_string_lossy().to_string()).unwrap_or_default()
}

/// The HMAC algorithms a JSON Web Token can be signed with.
#[derive(Debug, Clone, Copy, PartialEq, Eq, Structural)]
pub enum JwtAlgorithm {
    HS256,
    HS384,
    HS512,
}

/// What signing the JSON claims `payload` with `secret` gives: the token,
/// or the error's text.
pub uninterp spec fn jwt_signing(alg: JwtAlgorithm, payload: Seq<char>, secret: Seq<u8>) -> Result<Seq<char>, Seq<char>>;

/// Sign the JSON claims `payload` (read as a JSON value) into a JSON Web
/// Token with the given HMAC algorithm and secret.
///
/// Reads the claims with `serde_json::from_str` and calls
/// `jsonwebtoken::encode` with `Header::new(alg)` and
/// `EncodingKey::from_secret`; the outcome depends on the algorithm, the
/// claims and the secret alone.
#[verifier::external_body]
pub(crate) fn encode_jwt(alg: JwtAlgorithm, payload: &str, secret: &[u8]) -> (r: Result<String, String>)
    ensures
        match r {
            Ok(t) => jwt_signing(alg, payload@, secret@) == Ok::<Seq<char>, Seq<char>>(t@),
            Err(m) => jwt_signing(alg, payload@, secret@) == Err::<Seq<char>, Seq<char>>(m@),
        },
{
    let a = match alg {
        JwtAlgorithm::HS256 => jsonwebtoken::Algorithm::HS256,
        JwtAlgorithm::HS384 => jsonwebtoken::Algorithm::HS384,
        JwtAlgorithm::HS512 => jsonwebtoken::Algorithm::HS512,
    };
    let claims: serde_json::Value = serde_json::from_str(payload).map_err(|e| e.to_string())?;
    jsonwebtoken::encode(&jsonwebtoken::Header::new(a), &claims, &jsonwebtoken::EncodingKey::from_secret(secret))
        .map_err(|e| e.to_string())
}

} // verus!
