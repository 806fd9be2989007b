//! The VMess key derivation: a chain of HMACs built on SHA-256, each link
//! using the previous one as its hash function.

use crate::crypto::{sha256, sha256_of};
use vstd::prelude::*;

verus! {

/// Initial HMAC key of the derivation chain. (ASCII "VMess AEAD KDF")
pub open spec fn kdf_base_spec() -> Seq<u8> {
    seq![86, 77, 101, 115, 115, 32, 65, 69, 65, 68, 32, 75, 68, 70]
}

pub fn kdf_base() -> (r: Vec<u8>)
    ensures
        r@ == kdf_base_spec(),
{
    let r: Vec<u8> = vec![86, 77, 101, 115, 115, 32, 65, 69, 65, 68, 32, 75, 68, 70];
    assert(r@ =~= kdf_base_spec());
    r
}

/// Salt of the key that encrypts the AEAD auth id. (ASCII "AES Auth ID Encryption")
pub open spec fn auth_id_encryption_key_spec() -> Seq<u8> {
    seq![65, 69, 83, 32, 65, 117, 116, 104, 32, 73, 68, 32, 69, 110, 99, 114, 121, 112, 116, 105, 111, 110]
}

pub fn auth_id_encryption_key() -> (r: Vec<u8>)
    ensures
        r@ == auth_id_encryption_key_spec(),
{
    let r: Vec<u8> = vec![65, 69, 83, 32, 65, 117, 116, 104, 32, 73, 68, 32, 69, 110, 99, 114, 121, 112, 116, 105, 111, 110];
    assert(r@ =~= auth_id_encryption_key_spec());
    r
}

/// Salt of the key that seals the response header length. (ASCII "AEAD Resp Header Len Key")
pub open spec fn aead_resp_header_len_key_spec() -> Seq<u8> {
    seq![65, 69, 65, 68, 32, 82, 101, 115, 112, 32, 72, 101, 97, 100, 101, 114, 32, 76, 101, 110, 32, 75, 101, 121]
}

pub fn aead_resp_header_len_key() -> (r: Vec<u8>)
    ensures
        r@ == aead_resp_header_len_key_spec(),
{
    let r: Vec<u8> = vec![65, 69, 65, 68, 32, 82, 101, 115, 112, 32, 72, 101, 97, 100, 101, 114, 32, 76, 101, 110, 32, 75, 101, 121];
    assert(r@ =~= aead_resp_header_len_key_spec());
    r
}

/// Salt of the nonce that seals the response header length. (ASCII "AEAD Resp Header Len IV")
pub open spec fn aead_resp_header_len_iv_spec() -> Seq<u8> {
    seq![65, 69, 65, 68, 32, 82, 101, 115, 112, 32, 72, 101, 97, 100, 101, 114, 32, 76, 101, 110, 32, 73, 86]
}

pub fn aead_resp_header_len_iv() -> (r: Vec<u8>)
    ensures
        r@ == aead_resp_header_len_iv_spec(),
{
    let r: Vec<u8> = vec![65, 69, 65, 68, 32, 82, 101, 115, 112, 32, 72, 101, 97, 100, 101, 114, 32, 76, 101, 110, 32, 73, 86];
    assert(r@ =~= aead_resp_header_len_iv_spec());
    r
}

/// Salt of the key that seals the response header. (ASCII "AEAD Resp Header Key")
pub open spec fn aead_resp_header_payload_key_spec() -> Seq<u8> {
    seq![65, 69, 65, 68, 32, 82, 101, 115, 112, 32, 72, 101, 97, 100, 101, 114, 32, 75, 101, 121]
}

pub fn aead_resp_header_payload_key() -> (r: Vec<u8>)
    ensures
        r@ == aead_resp_header_payload_key_spec(),
{
    let r: Vec<u8> = vec![65, 69, 65, 68, 32, 82, 101, 115, 112, 32, 72, 101, 97, 100, 101, 114, 32, 75, 101, 121];
    assert(r@ =~= aead_resp_header_payload_key_spec());
    r
}

/// Salt of the nonce that seals the response header. (ASCII "AEAD Resp Header IV")
pub open spec fn aead_resp_header_payload_iv_spec() -> Seq<u8> {
    seq![65, 69, 65, 68, 32, 82, 101, 115, 112, 32, 72, 101, 97, 100, 101, 114, 32, 73, 86]
}

pub fn aead_resp_header_payload_iv() -> (r: Vec<u8>)
    ensures
        r@ == aead_resp_header_payload_iv_spec(),
{
    let r: Vec<u8> = vec![65, 69, 65, 68, 32, 82, 101, 115, 112, 32, 72, 101, 97, 100, 101, 114, 32, 73, 86];
    assert(r@ =~= aead_resp_header_payload_iv_spec());
    r
}

/// Salt of the key that seals the request header length. (ASCII "VMess Header AEAD Key_Length")
pub open spec fn aead_req_header_len_key_spec() -> Seq<u8> {
    seq![86, 77, 101, 115, 115, 32, 72, 101, 97, 100, 101, 114, 32, 65, 69, 65, 68, 32, 75, 101, 121, 95, 76, 101, 110, 103, 116, 104]
}

pub fn aead_req_header_len_key() -> (r: Vec<u8>)
    ensures
        r@ == aead_req_header_len_key_spec(),
{
    let r: Vec<u8> = vec![86, 77, 101, 115, 115, 32, 72, 101, 97, 100, 101, 114, 32, 65, 69, 65, 68, 32, 75, 101, 121, 95, 76, 101, 110, 103, 116, 104];
    assert(r@ =~= aead_req_header_len_key_spec());
    r
}

/// Salt of the nonce that seals the request header length. (ASCII "VMess Header AEAD Nonce_Length")
pub open spec fn aead_req_header_len_iv_spec() -> Seq<u8> {
    seq![86, 77, 101, 115, 115, 32, 72, 101, 97, 100, 101, 114, 32, 65, 69, 65, 68, 32, 78, 111, 110, 99, 101, 95, 76, 101, 110, 103, 116, 104]
}

pub fn aead_req_header_len_iv() -> (r: Vec<u8>)
    ensures
        r@ == aead_req_header_len_iv_spec(),
{
    let r: Vec<u8> = vec![86, 77, 101, 115, 115, 32, 72, 101, 97, 100, 101, 114, 32, 65, 69, 65, 68, 32, 78, 111, 110, 99, 101, 95, 76, 101, 110, 103, 116, 104];
    assert(r@ =~= aead_req_header_len_iv_spec());
    r
}

/// Salt of the key that seals the request header. (ASCII "VMess Header AEAD Key")
pub open spec fn aead_req_header_payload_key_spec() -> Seq<u8> {
    seq![86, 77, 101, 115, 115, 32, 72, 101, 97, 100, 101, 114, 32, 65, 69, 65, 68, 32, 75, 101, 121]
}

pub fn aead_req_header_payload_key() -> (r: Vec<u8>)
    ensures
        r@ == aead_req_header_payload_key_spec(),
{
    let r: Vec<u8> = vec![86, 77, 101, 115, 115, 32, 72, 101, 97, 100, 101, 114, 32, 65, 69, 65, 68, 32, 75, 101, 121];
    assert(r@ =~= aead_req_header_payload_key_spec());
    r
}

/// Salt of the nonce that seals the request header. (ASCII "VMess Header AEAD Nonce")
pub open spec fn aead_req_header_payload_iv_spec() -> Seq<u8> {
    seq![86, 77, 101, 115, 115, 32, 72, 101, 97, 100, 101, 114, 32, 65, 69, 65, 68, 32, 78, 111, 110, 99, 101]
}

pub fn aead_req_header_payload_iv() -> (r: Vec<u8>)
    ensures
        r@ == aead_req_header_payload_iv_spec(),
{
    let r: Vec<u8> = vec![86, 77, 101, 115, 115, 32, 72, 101, 97, 100, 101, 114, 32, 65, 69, 65, 68, 32, 78, 111, 110, 99, 101];
    assert(r@ =~= aead_req_header_payload_iv_spec());
    r
}

/// An HMAC key (at most one 64-byte block) padded with zeros to the block
/// size, each byte xored with `pad`.
pub open spec fn hmac_pad_spec(key: Seq<u8>, pad: u8) -> Seq<u8> {
    Seq::new(64, |i: int| (if i < key.len() { key[i] } else { 0u8 }) ^ pad)
}

/// The hash function of the chain whose links are keyed by `salts`, in order:
/// SHA-256 for the empty chain, else HMAC keyed by the last salt over the
/// hash of the chain without it. As in any HMAC, a key longer than the
/// 64-byte block is first replaced by its hash.
pub open spec fn kdf_hash_spec(salts: Seq<Seq<u8>>, msg: Seq<u8>) -> Seq<u8>
    decreases salts.len(),
{
    if salts.len() == 0 {
        sha256_of(msg)
    } else {
        let inner = salts.drop_last();
        let k = if salts.last().len() > 64 {
            kdf_hash_spec(inner, salts.last())
        } else {
            salts.last()
        };
        kdf_hash_spec(
            inner,
            hmac_pad_spec(k, 0x5c) + kdf_hash_spec(inner, hmac_pad_spec(k, 0x36) + msg),
        )
    }
}

pub open spec fn views(v: Seq<Vec<u8>>) -> Seq<Seq<u8>> {
    v.map_values(|x: Vec<u8>| x@)
}

/// `vmess_kdf(key, path)`: the chain keyed by the base salt and then each salt
/// of `path`, applied to `key`.
pub open spec fn vmess_kdf_spec(key: Seq<u8>, path: Seq<Seq<u8>>) -> Seq<u8> {
    kdf_hash_spec(seq![kdf_base_spec()] + path, key)
}

fn hmac_pad(key: &[u8], pad: u8) -> (r: Vec<u8>)
    requires
        key@.len() <= 64,
    ensures
        r@ == hmac_pad_spec(key@, pad),
{
    let mut r: Vec<u8> = Vec::with_capacity(64);
    let mut i: usize = 0;
    while i < 64
        invariant
            i <= 64,
            key@.len() <= 64,
            r@.len() == i,
            forall|j: int| 0 <= j < i ==> r@[j] == hmac_pad_spec(key@, pad)[j],
        decreases 64 - i,
    {
        let b: u8 = if i < key.len() {
            key[i]
        } else {
            0u8
        };
        r.push(b ^ pad);
        i = i + 1;
    }
    assert(r@ =~= hmac_pad_spec(key@, pad));
    r
}

fn kdf_hash(salts: &Vec<Vec<u8>>, n: usize, msg: &[u8]) -> (r: Vec<u8>)
    requires
        n <= salts@.len(),
    ensures
        r@ == kdf_hash_spec(views(salts@).take(n as int), msg@),
        r@.len() == 32,
    decreases n,
{
    let ghost s = views(salts@).take(n as int);
    if n == 0 {
        assert(s.len() == 0);
        sha256(msg)
    } else {
        let salt = &salts[n - 1];
        proof {
            assert(s.drop_last() =~= views(salts@).take(n - 1));
            assert(s.last() == salt@);
        }
        let k = if salt.len() > 64 {
            kdf_hash(salts, n - 1, salt.as_slice())
        } else {
            let c = salt.clone();
            assert(c@ =~= salt@);
            c
        };
        let mut inner_msg = hmac_pad(k.as_slice(), 0x36);
        inner_msg.extend_from_slice(msg);
        let inner = kdf_hash(salts, n - 1, inner_msg.as_slice());
        let mut outer_msg = hmac_pad(k.as_slice(), 0x5c);
        outer_msg.extend_from_slice(inner.as_slice());
        let r = kdf_hash(salts, n - 1, outer_msg.as_slice());
        proof {
            assert(s.len() > 0);
            assert(inner_msg@ =~= hmac_pad_spec(k@, 0x36) + msg@);
            assert(outer_msg@ =~= hmac_pad_spec(k@, 0x5c) + inner@);
        }
        r
    }
}

/// The VMess KDF: HMAC chain keyed by the base salt followed by `path`,
/// applied to `key`. Callers keep the first 16 (key) or 12 (nonce) bytes.
pub fn vmess_kdf(key: &[u8], path: &Vec<Vec<u8>>) -> (r: Vec<u8>)
    ensures
        r@ == vmess_kdf_spec(key@, views(path@)),
        r@.len() == 32,
{
    let mut salts: Vec<Vec<u8>> = Vec::new();
    salts.push(kdf_base());
    let mut i: usize = 0;
    while i < path.len()
        invariant
            i <= path@.len(),
            salts@.len() == i + 1,
            views(salts@) =~= seq![kdf_base_spec()] + views(path@).take(i as int),
        decreases path@.len() - i,
    {
        let c = path[i].clone();
        assert(c@ =~= path@[i as int]@);
        let ghost prev = salts@;
        salts.push(c);
        i = i + 1;
        assert(salts@ =~= prev.push(c));
        assert(views(salts@) =~= views(prev).push(c@));
        assert(views(path@).take(i as int) =~= views(path@).take(i - 1).push(c@));
        assert(views(salts@) =~= seq![kdf_base_spec()] + views(path@).take(i as int));
    }
    assert(views(path@).take(path@.len() as int) =~= views(path@));
    assert(views(salts@).take(salts@.len() as int) =~= views(salts@));
    kdf_hash(&salts, salts.len(), key)
}

} // verus!
