//! The chunk cipher: an AEAD key with a base IV and a 16-bit chunk counter
//! that makes each chunk's nonce.

use crate::codec::{be16, put_slice, put_u16};
use crate::crypto::{
    aes_gcm_open, aes_gcm_seal, chacha_open, chacha_open_of, chacha_seal, chacha_seal_of,
    gcm_open_of, gcm_seal_of, md5, md5_of,
};
use crate::error::VmessError;
use vstd::prelude::*;

verus! {

/// The AEAD that protects payload chunks.
#[derive(Clone, Copy, Debug, PartialEq, Eq, Structural)]
pub enum VmessSecurity {
    Aes128Gcm,
    ChaCha20Poly1305,
}

/// Number of distinct chunk counters in one direction.
pub const MAX_CHUNKS: u32 = 65536;

impl VmessSecurity {
    pub open spec fn key_len(&self) -> nat {
        match self {
            VmessSecurity::Aes128Gcm => 16,
            VmessSecurity::ChaCha20Poly1305 => 32,
        }
    }

    /// Length of the tag appended to each sealed chunk.
    pub fn overhead_len(&self) -> (r: usize)
        ensures
            r == 16,
    {
        16
    }
}

/// The sealed form of `pt` under `sec` with an empty associated data.
pub open spec fn seal_of(sec: VmessSecurity, key: Seq<u8>, nonce: Seq<u8>, pt: Seq<u8>) -> Seq<u8> {
    match sec {
        VmessSecurity::Aes128Gcm => gcm_seal_of(key, nonce, pt, seq![]),
        VmessSecurity::ChaCha20Poly1305 => chacha_seal_of(key, nonce, pt, seq![]),
    }
}

/// What opening `ct` under `sec` with an empty associated data gives.
pub open spec fn open_of(sec: VmessSecurity, key: Seq<u8>, nonce: Seq<u8>, ct: Seq<u8>) -> Option<
    Seq<u8>,
> {
    match sec {
        VmessSecurity::Aes128Gcm => gcm_open_of(key, nonce, ct, seq![]),
        VmessSecurity::ChaCha20Poly1305 => chacha_open_of(key, nonce, ct, seq![]),
    }
}

/// The nonce of chunk number `count`: the counter big-endian, then bytes 2 to
/// 11 of the base IV.
pub open spec fn chunk_nonce(count: nat, iv: Seq<u8>) -> Seq<u8> {
    be16(count as u16) + iv.subrange(2, 12)
}

/// The 32-byte ChaCha20-Poly1305 key made from a 16-byte body key:
/// MD5 of the key, then MD5 of that.
pub open spec fn chacha_key_spec(key: Seq<u8>) -> Seq<u8> {
    md5_of(key) + md5_of(md5_of(key))
}

pub fn chacha_key(key: &[u8]) -> (r: Vec<u8>)
    ensures
        r@ == chacha_key_spec(key@),
        r@.len() == 32,
{
    let first = md5(key);
    let second = md5(first.as_slice());
    let mut r = first.clone();
    assert(r@ =~= first@);
    put_slice(&mut r, second.as_slice());
    r
}

/// One direction's chunk cipher. `count` is the number of chunks already
/// sealed or opened; it never passes `MAX_CHUNKS`.
#[derive(Debug)]
pub struct AeadCipher {
    pub security: VmessSecurity,
    pub key: Vec<u8>,
    pub iv: Vec<u8>,
    pub count: u32,
}

impl AeadCipher {
    pub open spec fn wf(&self) -> bool {
        &&& self.key@.len() == self.security.key_len()
        &&& self.iv@.len() == 16
        &&& self.count <= MAX_CHUNKS
    }

    /// The nonce the next chunk uses.
    pub open spec fn next_nonce(&self) -> Seq<u8> {
        chunk_nonce(self.count as nat, self.iv@)
    }

    pub fn new(iv: &[u8], security: VmessSecurity, key: &[u8]) -> (r: AeadCipher)
        requires
            iv@.len() == 16,
            key@.len() == security.key_len(),
        ensures
            r.wf(),
            r.security == security,
            r.key@ == key@,
            r.iv@ == iv@,
            r.count == 0,
    {
        AeadCipher {
            security,
            key: vstd::slice::slice_to_vec(key),
            iv: vstd::slice::slice_to_vec(iv),
            count: 0,
        }
    }

    fn nonce(&self) -> (r: Vec<u8>)
        requires
            self.wf(),
            self.count < MAX_CHUNKS,
        ensures
            r@ == self.next_nonce(),
            r@.len() == 12,
    {
        let mut r: Vec<u8> = Vec::with_capacity(12);
        put_u16(&mut r, self.count as u16);
        put_slice(&mut r, vstd::slice::slice_subrange(self.iv.as_slice(), 2, 12));
        r
    }

    /// Seals one chunk with the next nonce and advances the counter; fails,
    /// changing nothing, once every counter has been used.
    pub fn encrypt_chunk(&mut self, pt: &[u8]) -> (r: Result<Vec<u8>, VmessError>)
        requires
            old(self).wf(),
            pt@.len() <= 65536,
        ensures
            final(self).wf(),
            final(self).security == old(self).security,
            final(self).key@ == old(self).key@,
            final(self).iv@ == old(self).iv@,
            old(self).count == MAX_CHUNKS ==> r == Err::<Vec<u8>, VmessError>(
                VmessError::NonceExhausted,
            ) && final(self).count == old(self).count,
            old(self).count < MAX_CHUNKS ==> r is Ok && final(self).count == old(self).count + 1,
            r matches Ok(c) ==> c@ == seal_of(
                old(self).security,
                old(self).key@,
                old(self).next_nonce(),
                pt@,
            ) && c@.len() == pt@.len() + 16 && open_of(
                old(self).security,
                old(self).key@,
                old(self).next_nonce(),
                c@,
            ) == Some(pt@),
    {
        if self.count >= MAX_CHUNKS {
            return Err(VmessError::NonceExhausted);
        }
        let nonce = self.nonce();
        let aad: Vec<u8> = Vec::new();
        let sealed = match self.security {
            VmessSecurity::Aes128Gcm => aes_gcm_seal(
                self.key.as_slice(),
                nonce.as_slice(),
                pt,
                aad.as_slice(),
            ),
            VmessSecurity::ChaCha20Poly1305 => chacha_seal(
                self.key.as_slice(),
                nonce.as_slice(),
                pt,
                aad.as_slice(),
            ),
        };
        assert(aad@ =~= Seq::<u8>::empty());
        match sealed {
            Some(c) => {
                self.count = self.count + 1;
                Ok(c)
            },
            None => Err(VmessError::NonceExhausted),
        }
    }

    /// Opens one chunk with the next nonce and advances the counter.
    pub fn decrypt_chunk(&mut self, ct: &[u8]) -> (r: Result<Vec<u8>, VmessError>)
        requires
            old(self).wf(),
        ensures
            final(self).wf(),
            final(self).security == old(self).security,
            final(self).key@ == old(self).key@,
            final(self).iv@ == old(self).iv@,
            old(self).count == MAX_CHUNKS ==> r == Err::<Vec<u8>, VmessError>(
                VmessError::NonceExhausted,
            ),
            old(self).count < MAX_CHUNKS ==> match open_of(
                old(self).security,
                old(self).key@,
                old(self).next_nonce(),
                ct@,
            ) {
                None => r == Err::<Vec<u8>, VmessError>(VmessError::DecryptionFailed),
                Some(p) => r matches Ok(v) && v@ == p,
            },
            r is Ok ==> final(self).count == old(self).count + 1,
            r is Err ==> final(self).count == old(self).count,
            r matches Ok(v) ==> v@.len() + 16 == ct@.len(),
    {
        if self.count >= MAX_CHUNKS {
            return Err(VmessError::NonceExhausted);
        }
        let nonce = self.nonce();
        let aad: Vec<u8> = Vec::new();
        let opened = match self.security {
            VmessSecurity::Aes128Gcm => aes_gcm_open(
                self.key.as_slice(),
                nonce.as_slice(),
                ct,
                aad.as_slice(),
            ),
            VmessSecurity::ChaCha20Poly1305 => chacha_open(
                self.key.as_slice(),
                nonce.as_slice(),
                ct,
                aad.as_slice(),
            ),
        };
        assert(aad@ =~= Seq::<u8>::empty());
        match opened {
            Some(p) => {
                self.count = self.count + 1;
                Ok(p)
            },
            None => Err(VmessError::DecryptionFailed),
        }
    }
}

} // verus!
