use vstd::prelude::*;
use hmac::Mac;
use rand::Rng;

verus! {

/// `rsa::Error`: why a key could not decrypt.
#[verifier::external_type_specification]
#[verifier::external_body]
pub struct ExRsaError(rsa::Error);

/// The HMAC-SHA256 of `message` under `key`.
pub uninterp spec fn hmac_sha256(key: Seq<u8>, message: Seq<u8>) -> Seq<u8>;

/// The MD5 digest of `data`.
pub uninterp spec fn md5_of(data: Seq<u8>) -> Seq<u8>;

/// `RsaPrivateKey::decrypt` with `Pkcs1v15Encrypt`: what the ciphertext
/// holds, or why the key cannot open it. Nothing is claimed of either.
#[verifier::external_body]
pub(crate) fn rsa_decrypt(key: &rsa::RsaPrivateKey, ciphertext: &[u8]) -> (r: Result<
    Vec<u8>,
    rsa::Error,
>) {
    key.decrypt(rsa::Pkcs1v15Encrypt, ciphertext)
}

/// `Hmac::<Sha256>` with `new_from_slice`, `update` and `verify_slice`:
/// whether `tag` is the HMAC-SHA256 of `message` under `key`. The comparison
/// takes the same time whatever the tag.
#[verifier::external_body]
pub(crate) fn hmac_sha256_verify(key: &[u8], message: &[u8], tag: &[u8]) -> (ok: bool)
    ensures
        ok == (tag@ == hmac_sha256(key@, message@)),
{
    match hmac::Hmac::<sha2::Sha256>::new_from_slice(key) {
        Ok(mut mac) => {
            mac.update(message);
            mac.verify_slice(tag).is_ok()
        },
        Err(_) => false,
    }
}

/// `md5::compute`: the MD5 digest of `data`, which has 16 bytes.
#[verifier::external_body]
pub(crate) fn md5_digest(data: &[u8]) -> (digest: [u8; 16])
    ensures
        digest@ == md5_of(data@),
{
    md5::compute(data).0
}

/// `Rng::fill` on `rand::thread_rng()`: four bytes of chance.
#[verifier::external_body]
pub(crate) fn random_verify_token() -> (token: [u8; 4]) {
    let mut token = [0u8; 4];
    rand::thread_rng().fill(&mut token);
    token
}

/// `rand::random`: a 64-bit number of chance.
#[verifier::external_body]
pub(crate) fn random_keep_alive_id() -> (id: i64) {
    rand::random()
}

} // verus!
