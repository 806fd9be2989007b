//! Client side of the VMess proxy transport: handshake request construction,
//! response header checking, and the chunked AEAD framing of the payload,
//! written as a sans-IO core that a host runtime drives.

mod addr;
mod cipher;
mod codec;
mod crypto;
mod error;
mod fnv;
mod header;
mod kdf;
mod laws;
mod stream;
mod urltest;
mod user;

pub use addr::SocksAddr;
pub use cipher::{chacha_key, AeadCipher, VmessSecurity, MAX_CHUNKS};
pub use codec::{be16, be32, be64, from_be16};
pub use error::VmessError;
pub use fnv::{fnv1a32, fnv1a32_spec};
pub use header::{
    build_request_header, check_legacy_response, create_auth_id, hash_timestamp,
    open_response_header, open_response_length, seal_legacy_header, seal_vmess_aead_header,
    validate_response_header, SessionKeys,
};
pub use kdf::{
    aead_resp_header_len_iv, aead_resp_header_len_key, aead_resp_header_payload_iv,
    aead_resp_header_payload_key, vmess_kdf,
};
pub use laws::{
    lemma_checksum_bit_flip, lemma_chunk_acks_sum, lemma_dynamic_port_rejected,
    lemma_frame_round_trip, lemma_frame_within_chunk_size, lemma_max_chunk_enforced,
    lemma_nonce_counter, lemma_resp_v_enforced,
};
pub use stream::{HandshakeEntropy, ReadExt, ReadState, VmessStream, WriteState};
pub use urltest::HandlerOptions;
pub use user::ID;

use vstd::prelude::*;

verus! {

/// Protocol version written first in every request header.
pub const VERSION: u8 = 0x01;

/// Request option: the payload is carried as length-prefixed chunks.
pub const OPTION_CHUNK_STREAM: u8 = 0x05;

pub const COMMAND_TCP: u8 = 0x01;

pub const COMMAND_UDP: u8 = 0x02;

pub const SECURITY_AES_128_GCM: u8 = 0x03;

pub const SECURITY_CHACHA20_POLY1305: u8 = 0x04;

pub const SECURITY_NONE: u8 = 0x05;

/// Largest frame body the writer produces, tag included.
pub const CHUNK_SIZE: usize = 16384;

/// Largest frame body the reader accepts.
pub const MAX_CHUNK_SIZE: usize = 16384;

pub const ID_BYTES_LEN: usize = 16;

} // verus!
