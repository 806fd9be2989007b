//! The handshake: session keys, the request header with its two wrappings,
//! and the checks on the response header.

use crate::addr::SocksAddr;
use crate::codec::{be16, be32, be64, copy_range, from_be16, get_u16, put_slice, put_u16, put_u32, put_u64, put_u8};
use crate::crypto::{
    aes128_encrypt_block, aes_block_of, aes_cfb_decrypt, aes_cfb_encrypt, aes_gcm_open,
    aes_gcm_seal, cfb_decrypt_of, cfb_encrypt_of, crc32, crc32_of, gcm_open_of, gcm_seal_of,
    hmac_md5, hmac_md5_of, md5, md5_of, sha256, sha256_of,
};
use crate::error::VmessError;
use crate::fnv::{fnv1a32, fnv1a32_spec};
use crate::kdf::{
    aead_req_header_len_iv, aead_req_header_len_iv_spec, aead_req_header_len_key, aead_req_header_len_key_spec, aead_req_header_payload_iv, aead_req_header_payload_iv_spec, aead_req_header_payload_key, aead_req_header_payload_key_spec, aead_resp_header_len_iv, aead_resp_header_len_iv_spec, aead_resp_header_len_key, aead_resp_header_len_key_spec, aead_resp_header_payload_iv, aead_resp_header_payload_iv_spec, aead_resp_header_payload_key, aead_resp_header_payload_key_spec, auth_id_encryption_key, auth_id_encryption_key_spec, vmess_kdf, vmess_kdf_spec, views,
};
use crate::user::ID;
use crate::{COMMAND_TCP, COMMAND_UDP, OPTION_CHUNK_STREAM, VERSION};
use vstd::prelude::*;

verus! {

/// A body key or IV of the response direction: the first sixteen bytes of the
/// SHA-256 of the request one in AEAD mode, its MD5 otherwise.
pub open spec fn resp_key_spec(k: Seq<u8>, is_aead: bool) -> Seq<u8> {
    if is_aead {
        sha256_of(k).subrange(0, 16)
    } else {
        md5_of(k)
    }
}

/// The per-connection key material.
#[derive(Debug)]
pub struct SessionKeys {
    pub req_body_iv: Vec<u8>,
    pub req_body_key: Vec<u8>,
    pub resp_body_iv: Vec<u8>,
    pub resp_body_key: Vec<u8>,
    pub resp_v: u8,
}

impl SessionKeys {
    pub open spec fn wf(&self) -> bool {
        &&& self.req_body_iv@.len() == 16
        &&& self.req_body_key@.len() == 16
        &&& self.resp_body_iv@.len() == 16
        &&& self.resp_body_key@.len() == 16
    }

    /// The keys made from 33 random bytes: IV, key, then the verification
    /// byte; the response pair derived from the request pair.
    pub open spec fn made_from(&self, rand: Seq<u8>, is_aead: bool) -> bool {
        &&& self.req_body_iv@ == rand.subrange(0, 16)
        &&& self.req_body_key@ == rand.subrange(16, 32)
        &&& self.resp_v == rand[32]
        &&& self.resp_body_iv@ == resp_key_spec(rand.subrange(0, 16), is_aead)
        &&& self.resp_body_key@ == resp_key_spec(rand.subrange(16, 32), is_aead)
    }

    pub fn new(rand: &[u8], is_aead: bool) -> (r: SessionKeys)
        requires
            rand@.len() == 33,
        ensures
            r.wf(),
            r.made_from(rand@, is_aead),
    {
        let req_body_iv = copy_range(rand, 0, 16);
        let req_body_key = copy_range(rand, 16, 32);
        let (resp_body_key, resp_body_iv) = if is_aead {
            let k = sha256(req_body_key.as_slice());
            let i = sha256(req_body_iv.as_slice());
            (copy_range(k.as_slice(), 0, 16), copy_range(i.as_slice(), 0, 16))
        } else {
            (md5(req_body_key.as_slice()), md5(req_body_iv.as_slice()))
        };
        SessionKeys { req_body_iv, req_body_key, resp_body_iv, resp_body_key, resp_v: rand[32] }
    }
}

/// The request header before its checksum: version, body IV and key, the
/// verification byte, the option, padding length and security kind in one
/// byte, a reserved zero, the command, the destination, and the padding.
pub open spec fn request_body_spec(
    keys: &SessionKeys,
    security: u8,
    is_udp: bool,
    dst: &SocksAddr,
    padding: Seq<u8>,
) -> Seq<u8> {
    seq![VERSION] + keys.req_body_iv@ + keys.req_body_key@ + seq![
        keys.resp_v,
        OPTION_CHUNK_STREAM,
        (padding.len() * 16 + security) as u8,
        0u8,
        if is_udp {
            COMMAND_UDP
        } else {
            COMMAND_TCP
        },
    ] + dst.vmess_bytes() + padding
}

/// The request header: its body followed by the body's FNV-1a checksum.
pub open spec fn request_header_spec(
    keys: &SessionKeys,
    security: u8,
    is_udp: bool,
    dst: &SocksAddr,
    padding: Seq<u8>,
) -> Seq<u8> {
    let body = request_body_spec(keys, security, is_udp, dst, padding);
    body + be32(fnv1a32_spec(body))
}

pub fn build_request_header(
    keys: &SessionKeys,
    security: u8,
    is_udp: bool,
    dst: &SocksAddr,
    padding: &[u8],
) -> (r: Vec<u8>)
    requires
        keys.wf(),
        dst.wf(),
        padding@.len() < 16,
        security < 16,
    ensures
        r@ == request_header_spec(keys, security, is_udp, dst, padding@),
{
    let mut buf: Vec<u8> = Vec::new();
    put_u8(&mut buf, VERSION);
    put_slice(&mut buf, keys.req_body_iv.as_slice());
    put_slice(&mut buf, keys.req_body_key.as_slice());
    put_u8(&mut buf, keys.resp_v);
    put_u8(&mut buf, OPTION_CHUNK_STREAM);
    put_u8(&mut buf, (padding.len() as u8) * 16 + security);
    put_u8(&mut buf, 0);
    put_u8(&mut buf, if is_udp { COMMAND_UDP } else { COMMAND_TCP });
    dst.write_to_buf_vmess(&mut buf);
    put_slice(&mut buf, padding);
    assert(buf@ =~= request_body_spec(keys, security, is_udp, dst, padding@));
    let sum = fnv1a32(buf.as_slice());
    put_u32(&mut buf, sum);
    buf
}

/// The legacy CFB IV: MD5 of the big-endian timestamp written four times.
pub open spec fn hash_timestamp_spec(ts: u64) -> Seq<u8> {
    md5_of(be64(ts) + be64(ts) + be64(ts) + be64(ts))
}

pub fn hash_timestamp(ts: u64) -> (r: Vec<u8>)
    ensures
        r@ == hash_timestamp_spec(ts),
        r@.len() == 16,
{
    let mut buf: Vec<u8> = Vec::with_capacity(32);
    put_u64(&mut buf, ts);
    put_u64(&mut buf, ts);
    put_u64(&mut buf, ts);
    put_u64(&mut buf, ts);
    md5(buf.as_slice())
}

/// The legacy wire form: HMAC-MD5 of the timestamp under the UUID, then the
/// header encrypted with AES-128-CFB under the command key.
pub open spec fn legacy_request_spec(id: &ID, ts: u64, header: Seq<u8>) -> Seq<u8> {
    hmac_md5_of(id.uuid@, be64(ts)) + cfb_encrypt_of(id.cmd_key@, hash_timestamp_spec(ts), header)
}

pub fn seal_legacy_header(id: &ID, header: &[u8], now: u64) -> (r: Vec<u8>)
    requires
        id.wf(),
    ensures
        r@ == legacy_request_spec(id, now, header@),
{
    let mut ts: Vec<u8> = Vec::with_capacity(8);
    put_u64(&mut ts, now);
    let mut out = hmac_md5(id.uuid.as_slice(), ts.as_slice());
    let iv = hash_timestamp(now);
    let data = aes_cfb_encrypt(id.cmd_key.as_slice(), iv.as_slice(), header);
    put_slice(&mut out, data.as_slice());
    assert(ts@ =~= be64(now));
    out
}

/// The auth id before encryption: timestamp, four random bytes, and the
/// CRC-32 of those twelve bytes.
pub open spec fn auth_id_plain_spec(ts: u64, rand: Seq<u8>) -> Seq<u8> {
    be64(ts) + rand + be32(crc32_of(be64(ts) + rand))
}

/// The auth id: its plain form as one AES-128 block under a key derived from
/// the command key.
pub open spec fn auth_id_spec(cmd_key: Seq<u8>, ts: u64, rand: Seq<u8>) -> Seq<u8> {
    aes_block_of(
        vmess_kdf_spec(cmd_key, seq![auth_id_encryption_key_spec()]).subrange(0, 16),
        auth_id_plain_spec(ts, rand),
    )
}

pub fn create_auth_id(cmd_key: &[u8], now: u64, rand: &[u8]) -> (r: Vec<u8>)
    requires
        rand@.len() == 4,
    ensures
        r@ == auth_id_spec(cmd_key@, now, rand@),
        r@.len() == 16,
{
    let mut buf: Vec<u8> = Vec::with_capacity(16);
    put_u64(&mut buf, now);
    put_slice(&mut buf, rand);
    let sum = crc32(buf.as_slice());
    put_u32(&mut buf, sum);
    let path: Vec<Vec<u8>> = vec![auth_id_encryption_key()];
    assert(views(path@) =~= seq![auth_id_encryption_key_spec()]);
    let k = vmess_kdf(cmd_key, &path);
    let key = copy_range(k.as_slice(), 0, 16);
    assert(buf@ =~= auth_id_plain_spec(now, rand@));
    aes128_encrypt_block(key.as_slice(), buf.as_slice())
}

/// A request-header key or nonce: the KDF of the command key along `salt`,
/// the auth id and the connection nonce.
pub open spec fn req_kdf_spec(cmd_key: Seq<u8>, salt: Seq<u8>, auth_id: Seq<u8>, nonce: Seq<u8>) -> Seq<
    u8,
> {
    vmess_kdf_spec(cmd_key, seq![salt, auth_id, nonce])
}

/// The AEAD wire form: auth id, the sealed header length, the sealed header,
/// then the connection nonce. Both are sealed with AES-128-GCM with the auth
/// id as associated data.
pub open spec fn aead_request_spec(
    cmd_key: Seq<u8>,
    ts: u64,
    rand: Seq<u8>,
    nonce: Seq<u8>,
    header: Seq<u8>,
) -> Seq<u8> {
    let aid = auth_id_spec(cmd_key, ts, rand);
    let len_key = req_kdf_spec(cmd_key, aead_req_header_len_key_spec(), aid, nonce).subrange(0, 16);
    let len_iv = req_kdf_spec(cmd_key, aead_req_header_len_iv_spec(), aid, nonce).subrange(0, 12);
    let key = req_kdf_spec(cmd_key, aead_req_header_payload_key_spec(), aid, nonce).subrange(0, 16);
    let iv = req_kdf_spec(cmd_key, aead_req_header_payload_iv_spec(), aid, nonce).subrange(0, 12);
    aid + gcm_seal_of(len_key, len_iv, be16(header.len() as u16), aid) + gcm_seal_of(
        key,
        iv,
        header,
        aid,
    ) + nonce
}

fn req_kdf(cmd_key: &[u8], salt: Vec<u8>, auth_id: &[u8], nonce: &[u8], n: usize) -> (r: Vec<u8>)
    requires
        auth_id@.len() == 16,
        nonce@.len() == 8,
        n <= 32,
    ensures
        r@ == req_kdf_spec(cmd_key@, salt@, auth_id@, nonce@).subrange(0, n as int),
        r@.len() == n,
{
    let path: Vec<Vec<u8>> = vec![salt, vstd::slice::slice_to_vec(auth_id), vstd::slice::slice_to_vec(nonce)];
    assert(views(path@) =~= seq![salt@, auth_id@, nonce@]);
    let k = vmess_kdf(cmd_key, &path);
    copy_range(k.as_slice(), 0, n)
}

pub fn seal_vmess_aead_header(
    cmd_key: &[u8],
    header: &[u8],
    now: u64,
    rand: &[u8],
    nonce: &[u8],
) -> (r: Vec<u8>)
    requires
        header@.len() < 65536,
        rand@.len() == 4,
        nonce@.len() == 8,
    ensures
        r@ == aead_request_spec(cmd_key@, now, rand@, nonce@, header@),
{
    let aid = create_auth_id(cmd_key, now, rand);
    let len_key = req_kdf(cmd_key, aead_req_header_len_key(), aid.as_slice(), nonce, 16);
    let len_iv = req_kdf(cmd_key, aead_req_header_len_iv(), aid.as_slice(), nonce, 12);
    let key = req_kdf(cmd_key, aead_req_header_payload_key(), aid.as_slice(), nonce, 16);
    let iv = req_kdf(cmd_key, aead_req_header_payload_iv(), aid.as_slice(), nonce, 12);
    let mut len_bytes: Vec<u8> = Vec::with_capacity(2);
    put_u16(&mut len_bytes, header.len() as u16);
    let sealed_len = aes_gcm_seal(len_key.as_slice(), len_iv.as_slice(), len_bytes.as_slice(), aid.as_slice());
    let sealed = aes_gcm_seal(key.as_slice(), iv.as_slice(), header, aid.as_slice());
    let mut out = aid.clone();
    assert(out@ =~= aid@);
    match (sealed_len, sealed) {
        (Some(l), Some(h)) => {
            put_slice(&mut out, l.as_slice());
            put_slice(&mut out, h.as_slice());
            put_slice(&mut out, nonce);
            assert(len_bytes@ =~= be16(header@.len() as u16));
            out
        },
        _ => {
            assert(false);
            out
        },
    }
}

/// What a decrypted response header (at least four bytes) must hold: the
/// verification byte first, and a zero command byte (no dynamic port).
pub open spec fn response_check_spec(plain: Seq<u8>, resp_v: u8) -> Result<(), VmessError> {
    if plain.len() < 4 {
        Err(VmessError::HeaderTooShort)
    } else if plain[0] != resp_v {
        Err(VmessError::InvalidRespV)
    } else if plain[2] != 0 {
        Err(VmessError::DynamicPortNotSupported)
    } else {
        Ok(())
    }
}

pub fn validate_response_header(plain: &[u8], resp_v: u8) -> (r: Result<(), VmessError>)
    ensures
        r == response_check_spec(plain@, resp_v),
{
    if plain.len() < 4 {
        Err(VmessError::HeaderTooShort)
    } else if plain[0] != resp_v {
        Err(VmessError::InvalidRespV)
    } else if plain[2] != 0 {
        Err(VmessError::DynamicPortNotSupported)
    } else {
        Ok(())
    }
}

/// The legacy response: four bytes AES-128-CFB decrypted under the response
/// key and IV, then checked.
pub open spec fn legacy_response_spec(keys: &SessionKeys, data: Seq<u8>) -> Result<(), VmessError> {
    response_check_spec(cfb_decrypt_of(keys.resp_body_key@, keys.resp_body_iv@, data), keys.resp_v)
}

pub fn check_legacy_response(keys: &SessionKeys, data: &[u8]) -> (r: Result<(), VmessError>)
    requires
        keys.wf(),
    ensures
        r == legacy_response_spec(keys, data@),
{
    let plain = aes_cfb_decrypt(keys.resp_body_key.as_slice(), keys.resp_body_iv.as_slice(), data);
    validate_response_header(plain.as_slice(), keys.resp_v)
}

/// A response-header key or nonce: the KDF of a response body key or IV
/// along one salt, cut to `n` bytes.
pub open spec fn resp_kdf_spec(k: Seq<u8>, salt: Seq<u8>, n: int) -> Seq<u8> {
    vmess_kdf_spec(k, seq![salt]).subrange(0, n)
}

fn resp_kdf(k: &[u8], salt: Vec<u8>, n: usize) -> (r: Vec<u8>)
    requires
        n <= 32,
    ensures
        r@ == resp_kdf_spec(k@, salt@, n as int),
        r@.len() == n,
{
    let path: Vec<Vec<u8>> = vec![salt];
    assert(views(path@) =~= seq![salt@]);
    let d = vmess_kdf(k, &path);
    copy_range(d.as_slice(), 0, n)
}

/// The AEAD response length envelope opened: the big-endian length of the
/// response header that follows.
pub open spec fn response_length_spec(keys: &SessionKeys, data: Seq<u8>) -> Result<usize, VmessError> {
    let key = resp_kdf_spec(keys.resp_body_key@, aead_resp_header_len_key_spec(), 16);
    let iv = resp_kdf_spec(keys.resp_body_iv@, aead_resp_header_len_iv_spec(), 12);
    match gcm_open_of(key, iv, data, seq![]) {
        None => Err(VmessError::DecryptionFailed),
        Some(p) => if p.len() < 2 {
            Err(VmessError::HeaderTooShort)
        } else {
            Ok(from_be16(p) as usize)
        },
    }
}

pub fn open_response_length(keys: &SessionKeys, data: &[u8]) -> (r: Result<usize, VmessError>)
    requires
        keys.wf(),
    ensures
        r == response_length_spec(keys, data@),
        r matches Ok(n) ==> n < 65536,
{
    let key = resp_kdf(keys.resp_body_key.as_slice(), aead_resp_header_len_key(), 16);
    let iv = resp_kdf(keys.resp_body_iv.as_slice(), aead_resp_header_len_iv(), 12);
    let aad: Vec<u8> = Vec::new();
    assert(aad@ =~= Seq::<u8>::empty());
    match aes_gcm_open(key.as_slice(), iv.as_slice(), data, aad.as_slice()) {
        None => Err(VmessError::DecryptionFailed),
        Some(p) => if p.len() < 2 {
            Err(VmessError::HeaderTooShort)
        } else {
            Ok(get_u16(p.as_slice()) as usize)
        },
    }
}

/// The AEAD response header opened and checked.
pub open spec fn response_payload_spec(keys: &SessionKeys, data: Seq<u8>) -> Result<(), VmessError> {
    let key = resp_kdf_spec(keys.resp_body_key@, aead_resp_header_payload_key_spec(), 16);
    let iv = resp_kdf_spec(keys.resp_body_iv@, aead_resp_header_payload_iv_spec(), 12);
    match gcm_open_of(key, iv, data, seq![]) {
        None => Err(VmessError::DecryptionFailed),
        Some(p) => response_check_spec(p, keys.resp_v),
    }
}

pub fn open_response_header(keys: &SessionKeys, data: &[u8]) -> (r: Result<(), VmessError>)
    requires
        keys.wf(),
    ensures
        r == response_payload_spec(keys, data@),
{
    let key = resp_kdf(keys.resp_body_key.as_slice(), aead_resp_header_payload_key(), 16);
    let iv = resp_kdf(keys.resp_body_iv.as_slice(), aead_resp_header_payload_iv(), 12);
    let aad: Vec<u8> = Vec::new();
    assert(aad@ =~= Seq::<u8>::empty());
    match aes_gcm_open(key.as_slice(), iv.as_slice(), data, aad.as_slice()) {
        None => Err(VmessError::DecryptionFailed),
        Some(p) => validate_response_header(p.as_slice(), keys.resp_v),
    }
}

} // verus!
