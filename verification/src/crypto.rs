//! The outside primitives that credential records rest on: AES-256-GCM, SHA-256,
//! the system's random source and buffers that wipe themselves.

use aes_gcm::aead::{AeadInOut, KeyInit};
use sha2::Digest;
use vstd::prelude::*;
use zeroize::Zeroize;

verus! {

/// Bytes that are wiped when they are dropped: a `zeroize::Zeroizing<Vec<u8>>`.
#[verifier::external_body]
pub struct Secret {
    bytes: zeroize::Zeroizing<Vec<u8>>,
}

/// `aes_gcm::Error`: the one error of the cipher, without detail.
#[verifier::external_type_specification]
#[verifier::external_body]
pub struct ExCipherError(aes_gcm::Error);

/// `getrandom::Error`: the system's random source failed.
#[verifier::external_type_specification]
#[verifier::external_body]
pub struct ExRandomError(getrandom::Error);

/// The bytes that a wiping buffer holds.
pub uninterp spec fn secret_bytes(secret: Secret) -> Seq<u8>;

/// What AES-256-GCM makes of a plaintext under a key, a nonce and associated data:
/// the ciphertext and the tag.
pub uninterp spec fn gcm_sealed(
    key: Seq<u8>,
    nonce: Seq<u8>,
    bound: Seq<u8>,
    plain: Seq<u8>,
) -> (Seq<u8>, Seq<u8>);

/// What AES-256-GCM gives back for a ciphertext and a tag, if the tag holds.
pub uninterp spec fn gcm_opened(
    key: Seq<u8>,
    nonce: Seq<u8>,
    bound: Seq<u8>,
    ciphertext: Seq<u8>,
    tag: Seq<u8>,
) -> Option<Seq<u8>>;

/// The SHA-256 digest of some bytes.
pub uninterp spec fn sha256_of(data: Seq<u8>) -> Seq<u8>;

/// Every plaintext that seals to `ciphertext` under `key` and `nonce`, whatever it was
/// bound to, is `plain`.
pub open spec fn only_plaintext(
    key: Seq<u8>,
    nonce: Seq<u8>,
    ciphertext: Seq<u8>,
    plain: Seq<u8>,
) -> bool {
    forall|bound: Seq<u8>, other: Seq<u8>|
        bound.len() <= 0x1fff_ffff_ffff_ffff && other.len() == ciphertext.len() && (
        #[trigger] gcm_sealed(key, nonce, bound, other)).0 == ciphertext ==> other == plain
}

/// `zeroize::Zeroizing::new`: the buffer holds the bytes it was given.
#[verifier::external_body]
pub(crate) fn wiping(bytes: Vec<u8>) -> (secret: Secret)
    ensures
        secret_bytes(secret) == bytes@,
{
    Secret { bytes: zeroize::Zeroizing::new(bytes) }
}

/// `Deref` of `zeroize::Zeroizing`: the bytes of the buffer.
#[verifier::external_body]
pub(crate) fn reveal_bytes(secret: &Secret) -> (bytes: &[u8])
    ensures
        bytes@ == secret_bytes(*secret),
{
    secret.bytes.as_slice()
}

impl Secret {
    /// The bytes, for as long as the buffer lives.
    pub fn as_slice(&self) -> (bytes: &[u8])
        ensures
            bytes@ == secret_bytes(*self),
    {
        reveal_bytes(self)
    }
}

/// `zeroize::Zeroize::zeroize` on an array: every byte is zero afterwards.
#[verifier::external_body]
pub(crate) fn wipe(key: &mut [u8; 32])
    ensures
        forall|i: int| 0 <= i < 32 ==> final(key)@[i] == 0,
{
    key.zeroize();
}

/// `getrandom::fill`: an array of random bytes, or the source's error. Which bytes they are
/// is left unsaid: they come from the system.
#[verifier::external_body]
pub(crate) fn random_array<const N: usize>() -> (r: Result<[u8; N], getrandom::Error>) {
    let mut bytes = [0u8; N];
    getrandom::fill(&mut bytes)?;
    Ok(bytes)
}

/// `sha2::Sha256::digest`: the digest of the whole input, 32 bytes.
#[verifier::external_body]
pub(crate) fn sha256(data: &[u8]) -> (digest: [u8; 32])
    ensures
        digest@ == sha256_of(data@),
{
    sha2::Sha256::digest(data).into()
}

/// `aes_gcm`'s `encrypt_inout_detached` with a 256-bit key and a 96-bit nonce: the
/// buffer holds the ciphertext afterwards, as long as the plaintext was, and the
/// 16-byte tag comes back. Opening the two under the same key, nonce and associated
/// data gives the plaintext back. It fails only beyond 2^36 - 32 bytes of plaintext or
/// 2^61 - 1 bytes of associated data.
#[verifier::external_body]
pub(crate) fn gcm_seal(
    key: &[u8; 32],
    nonce: &[u8],
    bound: &[u8],
    buffer: &mut Secret,
) -> (r: Result<Vec<u8>, aes_gcm::Error>)
    requires
        nonce@.len() == 12,
    ensures
        secret_bytes(*old(buffer)).len() <= 0xf_ffff_ffe0 && bound@.len() <= 0x1fff_ffff_ffff_ffff
            ==> r is Ok,
        r matches Ok(tag) ==> {
            &&& (secret_bytes(*final(buffer)), tag@) == gcm_sealed(
                key@,
                nonce@,
                bound@,
                secret_bytes(*old(buffer)),
            )
            &&& secret_bytes(*final(buffer)).len() == secret_bytes(*old(buffer)).len()
            &&& tag@.len() == 16
            &&& gcm_opened(key@, nonce@, bound@, secret_bytes(*final(buffer)), tag@) == Some(
                secret_bytes(*old(buffer)),
            )
        },
{
    let cipher = aes_gcm::Aes256Gcm::new(key.into());
    let nonce = aes_gcm::Nonce::try_from(nonce).map_err(|_| aes_gcm::Error)?;
    let tag = cipher.encrypt_inout_detached(&nonce, bound, buffer.bytes.as_mut_slice().into())?;
    Ok(tag.to_vec())
}

/// `aes_gcm`'s `decrypt_inout_detached` with a 256-bit key and a 96-bit nonce: where the
/// tag holds, the buffer holds the plaintext afterwards, as long as the ciphertext was;
/// sealing that plaintext again gives the ciphertext and the tag, and no other plaintext
/// seals to the ciphertext under the key and the nonce. It fails exactly where the tag
/// does not hold.
#[verifier::external_body]
pub(crate) fn gcm_open(
    key: &[u8; 32],
    nonce: &[u8],
    bound: &[u8],
    tag: &[u8],
    buffer: &mut Secret,
) -> (r: Result<(), aes_gcm::Error>)
    requires
        nonce@.len() == 12,
        tag@.len() == 16,
        secret_bytes(*old(buffer)).len() <= 0xf_ffff_ffe0,
        bound@.len() <= 0x1fff_ffff_ffff_ffff,
    ensures
        r is Ok <==> gcm_opened(key@, nonce@, bound@, secret_bytes(*old(buffer)), tag@) is Some,
        r is Ok ==> {
            &&& gcm_opened(key@, nonce@, bound@, secret_bytes(*old(buffer)), tag@) == Some(
                secret_bytes(*final(buffer)),
            )
            &&& secret_bytes(*final(buffer)).len() == secret_bytes(*old(buffer)).len()
            &&& gcm_sealed(key@, nonce@, bound@, secret_bytes(*final(buffer))) == (
                secret_bytes(*old(buffer)),
                tag@,
            )
            &&& only_plaintext(
                key@,
                nonce@,
                secret_bytes(*old(buffer)),
                secret_bytes(*final(buffer)),
            )
        },
{
    let cipher = aes_gcm::Aes256Gcm::new(key.into());
    let nonce = aes_gcm::Nonce::try_from(nonce).map_err(|_| aes_gcm::Error)?;
    let tag = aes_gcm::Tag::try_from(tag).map_err(|_| aes_gcm::Error)?;
    cipher.decrypt_inout_detached(&nonce, bound, buffer.bytes.as_mut_slice().into(), &tag)
}

} // verus!
