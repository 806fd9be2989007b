//! The cryptographic primitives the protocol consumes. Each function here
//! hands its arguments to an outside crate and is taken on trust; its result
//! is named by a spec function so that the protocol logic can speak of it.

use aes::cipher::BlockEncrypt;
use aes_gcm::aead::{Aead, Payload};
use aes_gcm::KeyInit;
use cfb_mode::cipher::{AsyncStreamCipher, KeyIvInit};
use hmac::Mac;
use sha2::Digest;
use vstd::prelude::*;

verus! {

pub uninterp spec fn md5_of(data: Seq<u8>) -> Seq<u8>;

pub uninterp spec fn sha256_of(data: Seq<u8>) -> Seq<u8>;

pub uninterp spec fn hmac_md5_of(key: Seq<u8>, msg: Seq<u8>) -> Seq<u8>;

pub uninterp spec fn crc32_of(data: Seq<u8>) -> u32;

pub uninterp spec fn aes_block_of(key: Seq<u8>, block: Seq<u8>) -> Seq<u8>;

pub uninterp spec fn cfb_encrypt_of(key: Seq<u8>, iv: Seq<u8>, data: Seq<u8>) -> Seq<u8>;

pub uninterp spec fn cfb_decrypt_of(key: Seq<u8>, iv: Seq<u8>, data: Seq<u8>) -> Seq<u8>;

pub uninterp spec fn gcm_seal_of(key: Seq<u8>, nonce: Seq<u8>, pt: Seq<u8>, aad: Seq<u8>) -> Seq<u8>;

pub uninterp spec fn gcm_open_of(key: Seq<u8>, nonce: Seq<u8>, ct: Seq<u8>, aad: Seq<u8>) -> Option<
    Seq<u8>,
>;

pub uninterp spec fn chacha_seal_of(key: Seq<u8>, nonce: Seq<u8>, pt: Seq<u8>, aad: Seq<u8>) -> Seq<
    u8,
>;

pub uninterp spec fn chacha_open_of(key: Seq<u8>, nonce: Seq<u8>, ct: Seq<u8>, aad: Seq<u8>) -> Option<
    Seq<u8>,
>;

/// Largest plaintext or associated data AES-GCM accepts (the crate's `P_MAX`
/// and `A_MAX`, 2^36 bytes).
pub open spec fn aead_max_len() -> int {
    0x10_0000_0000
}

/// The view of an optional byte vector.
pub open spec fn opt_view(r: Option<Vec<u8>>) -> Option<Seq<u8>> {
    match r {
        Some(v) => Some(v@),
        None => None,
    }
}

/// Relies on `md5::Md5::digest` (md-5): the sixteen-byte MD5 digest of `data`.
#[verifier::external_body]
pub(crate) fn md5(data: &[u8]) -> (r: Vec<u8>)
    ensures
        r@ == md5_of(data@),
        r@.len() == 16,
{
    md5::Md5::digest(data).to_vec()
}

/// Relies on `sha2::Sha256::digest`: the 32-byte SHA-256 digest of `data`.
#[verifier::external_body]
pub(crate) fn sha256(data: &[u8]) -> (r: Vec<u8>)
    ensures
        r@ == sha256_of(data@),
        r@.len() == 32,
{
    sha2::Sha256::digest(data).to_vec()
}

/// Relies on `hmac::Hmac<md5::Md5>`: the sixteen-byte HMAC-MD5 of `msg` under
/// `key` (any key length is accepted).
#[verifier::external_body]
pub(crate) fn hmac_md5(key: &[u8], msg: &[u8]) -> (r: Vec<u8>)
    ensures
        r@ == hmac_md5_of(key@, msg@),
        r@.len() == 16,
{
    let mut mac = <hmac::Hmac<md5::Md5> as Mac>::new_from_slice(key).unwrap();
    mac.update(msg);
    mac.finalize().into_bytes().to_vec()
}

/// Relies on `crc32fast::hash`: the CRC-32 (IEEE) checksum of `data`.
#[verifier::external_body]
pub(crate) fn crc32(data: &[u8]) -> (r: u32)
    ensures
        r == crc32_of(data@),
{
    crc32fast::hash(data)
}

/// Relies on `aes::Aes128` (`BlockEncrypt::encrypt_block`): one sixteen-byte
/// block encrypted under a sixteen-byte key.
#[verifier::external_body]
pub(crate) fn aes128_encrypt_block(key: &[u8], block: &[u8]) -> (r: Vec<u8>)
    requires
        key@.len() == 16,
        block@.len() == 16,
    ensures
        r@ == aes_block_of(key@, block@),
        r@.len() == 16,
{
    let cipher = aes::Aes128::new_from_slice(key).unwrap();
    let mut b = aes::Block::clone_from_slice(block);
    cipher.encrypt_block(&mut b);
    b.to_vec()
}

/// Relies on `cfb_mode::Encryptor<aes::Aes128>`: AES-128-CFB keeps the length,
/// and the matching decryptor with the same key and IV gives `data` back.
#[verifier::external_body]
pub(crate) fn aes_cfb_encrypt(key: &[u8], iv: &[u8], data: &[u8]) -> (r: Vec<u8>)
    requires
        key@.len() == 16,
        iv@.len() == 16,
    ensures
        r@ == cfb_encrypt_of(key@, iv@, data@),
        r@.len() == data@.len(),
        cfb_decrypt_of(key@, iv@, r@) == data@,
{
    let mut buf = data.to_vec();
    let enc = cfb_mode::Encryptor::<aes::Aes128>::new_from_slices(key, iv).unwrap();
    AsyncStreamCipher::encrypt(enc, &mut buf);
    buf
}

/// Relies on `cfb_mode::Decryptor<aes::Aes128>`: AES-128-CFB keeps the length.
#[verifier::external_body]
pub(crate) fn aes_cfb_decrypt(key: &[u8], iv: &[u8], data: &[u8]) -> (r: Vec<u8>)
    requires
        key@.len() == 16,
        iv@.len() == 16,
    ensures
        r@ == cfb_decrypt_of(key@, iv@, data@),
        r@.len() == data@.len(),
{
    let mut buf = data.to_vec();
    let dec = cfb_mode::Decryptor::<aes::Aes128>::new_from_slices(key, iv).unwrap();
    AsyncStreamCipher::decrypt(dec, &mut buf);
    buf
}

/// Relies on `aes_gcm::Aes128Gcm` (`Aead::encrypt`): it fails only past the
/// crate's length limits; the ciphertext is the plaintext's length plus a
/// sixteen-byte tag, and `Aead::decrypt` with the same key, nonce and
/// associated data gives the plaintext back.
#[verifier::external_body]
pub(crate) fn aes_gcm_seal(key: &[u8], nonce: &[u8], pt: &[u8], aad: &[u8]) -> (r: Option<Vec<u8>>)
    requires
        key@.len() == 16,
        nonce@.len() == 12,
    ensures
        (r is Some) == (pt@.len() <= aead_max_len() && aad@.len() <= aead_max_len()),
        r matches Some(c) ==> c@ == gcm_seal_of(key@, nonce@, pt@, aad@) && c@.len() == pt@.len()
            + 16 && gcm_open_of(key@, nonce@, c@, aad@) == Some(pt@),
{
    let cipher = aes_gcm::Aes128Gcm::new_from_slice(key).unwrap();
    let nonce = aes_gcm::Nonce::from_slice(nonce);
    cipher.encrypt(nonce, Payload { msg: pt, aad }).ok()
}

/// Relies on `aes_gcm::Aes128Gcm` (`Aead::decrypt`): `None` when the tag does
/// not authenticate; a plaintext is sixteen bytes shorter than `ct`.
#[verifier::external_body]
pub(crate) fn aes_gcm_open(key: &[u8], nonce: &[u8], ct: &[u8], aad: &[u8]) -> (r: Option<Vec<u8>>)
    requires
        key@.len() == 16,
        nonce@.len() == 12,
    ensures
        opt_view(r) == gcm_open_of(key@, nonce@, ct@, aad@),
        r matches Some(p) ==> p@.len() + 16 == ct@.len(),
{
    let cipher = aes_gcm::Aes128Gcm::new_from_slice(key).unwrap();
    let nonce = aes_gcm::Nonce::from_slice(nonce);
    cipher.decrypt(nonce, Payload { msg: ct, aad }).ok()
}

/// Relies on `chacha20poly1305::ChaCha20Poly1305` (`Aead::encrypt`): it fails
/// only when the plaintext reaches 2^32 - 1 blocks of 64 bytes; the
/// ciphertext is the plaintext's length plus a sixteen-byte tag, and
/// `Aead::decrypt` with the same key, nonce and associated data gives the
/// plaintext back.
#[verifier::external_body]
pub(crate) fn chacha_seal(key: &[u8], nonce: &[u8], pt: &[u8], aad: &[u8]) -> (r: Option<Vec<u8>>)
    requires
        key@.len() == 32,
        nonce@.len() == 12,
    ensures
        (r is Some) == (pt@.len() / 64 < 0xFFFF_FFFF),
        r matches Some(c) ==> c@ == chacha_seal_of(key@, nonce@, pt@, aad@) && c@.len()
            == pt@.len() + 16 && chacha_open_of(key@, nonce@, c@, aad@) == Some(pt@),
{
    let cipher = chacha20poly1305::ChaCha20Poly1305::new_from_slice(key).unwrap();
    let nonce = chacha20poly1305::Nonce::from_slice(nonce);
    cipher.encrypt(nonce, Payload { msg: pt, aad }).ok()
}

/// Relies on `chacha20poly1305::ChaCha20Poly1305` (`Aead::decrypt`): `None`
/// when the tag does not authenticate; a plaintext is sixteen bytes shorter
/// than `ct`.
#[verifier::external_body]
pub(crate) fn chacha_open(key: &[u8], nonce: &[u8], ct: &[u8], aad: &[u8]) -> (r: Option<Vec<u8>>)
    requires
        key@.len() == 32,
        nonce@.len() == 12,
    ensures
        opt_view(r) == chacha_open_of(key@, nonce@, ct@, aad@),
        r matches Some(p) ==> p@.len() + 16 == ct@.len(),
{
    let cipher = chacha20poly1305::ChaCha20Poly1305::new_from_slice(key).unwrap();
    let nonce = chacha20poly1305::Nonce::from_slice(nonce);
    cipher.decrypt(nonce, Payload { msg: ct, aad }).ok()
}

} // verus!
