//! Properties that relate several calls of the stream and header functions.

use crate::cipher::{chunk_nonce, AeadCipher, MAX_CHUNKS};
use crate::codec::{be32, from_be16};
use crate::error::VmessError;
use crate::fnv::fnv1a32_spec;
use crate::crypto::{cfb_decrypt_of, gcm_open_of};
use crate::header::resp_kdf_spec;
use crate::kdf::{aead_resp_header_payload_iv_spec, aead_resp_header_payload_key_spec};
use crate::stream::{max_plain_spec, min, unframe_spec, ReadState, VmessStream};
use crate::{CHUNK_SIZE, MAX_CHUNK_SIZE};
use vstd::prelude::*;

verus! {

/// The plaintext counts that successive writes acknowledge when the caller
/// keeps writing the rest of `len` bytes, each write taking at most `max`.
pub open spec fn chunk_takes(len: nat, max: nat) -> Seq<nat>
    decreases len,
{
    if len == 0 || max == 0 {
        Seq::empty()
    } else {
        let t = min(len, max);
        seq![t] + chunk_takes((len - t) as nat, max)
    }
}

pub open spec fn sum(s: Seq<nat>) -> nat
    decreases s.len(),
{
    if s.len() == 0 {
        0
    } else {
        s[0] + sum(s.skip(1))
    }
}

/// Writing `len` bytes as successive chunks of at most `max` plaintext bytes
/// acknowledges counts that add up to `len`, each positive and at most `max`.
pub proof fn lemma_chunk_acks_sum(len: nat, max: nat)
    requires
        max > 0,
    ensures
        sum(chunk_takes(len, max)) == len,
        forall|i: int|
            0 <= i < chunk_takes(len, max).len() ==> 0 < #[trigger] chunk_takes(len, max)[i] <= max,
    decreases len,
{
    if len > 0 {
        let t = min(len, max);
        let rest = chunk_takes((len - t) as nat, max);
        lemma_chunk_acks_sum((len - t) as nat, max);
        assert((seq![t] + rest).skip(1) =~= rest);
        assert forall|i: int| 0 <= i < chunk_takes(len, max).len() implies 0
            < #[trigger] chunk_takes(len, max)[i] <= max by {
            if i > 0 {
                assert(chunk_takes(len, max)[i] == rest[i - 1]);
            }
        }
    }
}

/// Every frame the writer builds, for either cipher setting, has a body of at
/// most `CHUNK_SIZE` bytes: the plaintext bound plus the tag fits.
pub proof fn lemma_frame_within_chunk_size(c: Option<AeadCipher>, pt_len: nat)
    requires
        pt_len <= max_plain_spec(c),
    ensures
        pt_len + (if c is Some { 16nat } else { 0nat }) <= CHUNK_SIZE,
{
}

/// The nonce of chunk `count` carries `count` in its first two bytes, so two
/// different counters never share a nonce, and a later chunk's counter is the
/// larger one.
pub proof fn lemma_nonce_counter(a: nat, b: nat, iv: Seq<u8>)
    requires
        a < b < MAX_CHUNKS,
        iv.len() == 16,
    ensures
        from_be16(chunk_nonce(a, iv)) == a,
        from_be16(chunk_nonce(b, iv)) == b,
        from_be16(chunk_nonce(a, iv)) < from_be16(chunk_nonce(b, iv)),
        chunk_nonce(a, iv) != chunk_nonce(b, iv),
{
    assert(from_be16(chunk_nonce(a, iv)) == a);
    assert(from_be16(chunk_nonce(b, iv)) == b);
}

/// A reader whose chunk cipher matches the writer's (same kind, key, base IV
/// and counter) and that is waiting for a chunk length gets back, from a frame
/// the writer built, exactly the plaintext the frame carries.
pub proof fn lemma_frame_round_trip(reader: VmessStream, wc: Option<AeadCipher>, frame: Seq<u8>, pt: Seq<u8>)
    requires
        reader.read_state == ReadState::StreamWaitingLength,
        reader.aead_read_cipher == wc,
        wc matches Some(c) ==> c.count < MAX_CHUNKS,
        frame.len() >= 2,
        from_be16(frame) == frame.len() - 2,
        frame.len() - 2 <= CHUNK_SIZE,
        unframe_spec(wc, frame.skip(2)) == Some(pt),
    ensures
        reader.completed_read(frame.subrange(0, 2)) == Ok::<(ReadState, Seq<u8>), VmessError>(
            (ReadState::StreamWaitingData((frame.len() - 2) as usize), Seq::empty()),
        ),
        (VmessStream { read_state: ReadState::StreamWaitingData((frame.len() - 2) as usize), ..reader }).completed_read(frame.skip(2)) == Ok::<(ReadState, Seq<u8>), VmessError>(
            (ReadState::StreamFlushingData(pt.len() as usize), pt),
        ),
{
    assert(from_be16(frame.subrange(0, 2)) == from_be16(frame));
}

/// The decrypted response header a reader gets from `data` in its current
/// state: the CFB-decrypted bytes in legacy mode, the opened envelope in AEAD
/// mode; `None` where the state reads no response header or the envelope
/// does not open.
pub open spec fn response_plain(reader: &VmessStream, data: Seq<u8>) -> Option<Seq<u8>> {
    match reader.read_state {
        ReadState::AeadWaitingHeaderSize => if reader.is_aead {
            None
        } else {
            Some(cfb_decrypt_of(reader.keys.resp_body_key@, reader.keys.resp_body_iv@, data))
        },
        ReadState::AeadWaitingHeader(_) => gcm_open_of(
            resp_kdf_spec(reader.keys.resp_body_key@, aead_resp_header_payload_key_spec(), 16),
            resp_kdf_spec(reader.keys.resp_body_iv@, aead_resp_header_payload_iv_spec(), 12),
            data,
            seq![],
        ),
        _ => None,
    }
}

/// A response header whose first byte is not the verification byte sent in
/// the request fails the reader with `InvalidRespV`, an invalid-data error.
pub proof fn lemma_resp_v_enforced(reader: VmessStream, data: Seq<u8>, plain: Seq<u8>)
    requires
        response_plain(&reader, data) == Some(plain),
        plain.len() >= 4,
        plain[0] != reader.keys.resp_v,
    ensures
        reader.completed_read(data) == Err::<(ReadState, Seq<u8>), VmessError>(
            VmessError::InvalidRespV,
        ),
        VmessError::InvalidRespV.is_invalid_data_spec(),
{
}

/// A response header that asks for a dynamic port (a nonzero command byte)
/// fails the reader with an invalid-data error, whatever else it holds.
pub proof fn lemma_dynamic_port_rejected(reader: VmessStream, data: Seq<u8>, plain: Seq<u8>)
    requires
        response_plain(&reader, data) == Some(plain),
        plain.len() >= 4,
        plain[2] != 0,
    ensures
        reader.completed_read(data) matches Err(e) && e.is_invalid_data_spec(),
        plain[0] == reader.keys.resp_v ==> reader.completed_read(data) == Err::<
            (ReadState, Seq<u8>),
            VmessError,
        >(VmessError::DynamicPortNotSupported),
{
}

/// A length field above `MAX_CHUNK_SIZE` fails the reader with
/// `ChunkTooLarge` before any chunk body is read or opened.
pub proof fn lemma_max_chunk_enforced(reader: VmessStream, len_bytes: Seq<u8>)
    requires
        reader.read_state == ReadState::StreamWaitingLength,
        len_bytes.len() == 2,
        from_be16(len_bytes) > MAX_CHUNK_SIZE,
    ensures
        reader.completed_read(len_bytes) == Err::<(ReadState, Seq<u8>), VmessError>(
            VmessError::ChunkTooLarge,
        ),
{
}

/// A request header whose FNV-1a checksum closes it.
pub open spec fn checksum_ok(h: Seq<u8>) -> bool {
    h.len() >= 4 && h.skip(h.len() - 4) == be32(fnv1a32_spec(h.take(h.len() - 4)))
}

/// Flipping any single bit of the checksum of a valid request header makes
/// the checksum check fail.
pub proof fn lemma_checksum_bit_flip(h: Seq<u8>, i: int, bit: u8)
    requires
        checksum_ok(h),
        h.len() - 4 <= i < h.len(),
        bit < 8,
    ensures
        !checksum_ok(h.update(i, h[i] ^ (1u8 << bit))),
{
    let b = h[i];
    assert(b ^ (1u8 << bit) != b) by (bit_vector)
        requires
            bit < 8,
    ;
    let g = h.update(i, b ^ (1u8 << bit));
    assert(g.take(g.len() - 4) =~= h.take(h.len() - 4));
    assert(g.skip(g.len() - 4)[i - (h.len() - 4)] != h.skip(h.len() - 4)[i - (h.len() - 4)]);
}

} // verus!
