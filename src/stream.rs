//! The framed stream: a sans-IO duplex core. The host feeds it what the
//! transport delivered and writes out what it hands back; the core runs the
//! read and write state machines, seals and opens chunks, and checks the
//! response header.

use crate::addr::SocksAddr;
use crate::cipher::{chacha_key, chacha_key_spec, open_of, seal_of, AeadCipher, VmessSecurity, MAX_CHUNKS};
use crate::codec::{be16, copy_range, from_be16, get_u16, put_slice, put_u16};
use crate::error::VmessError;
use crate::header::{
    aead_request_spec, build_request_header, check_legacy_response, legacy_request_spec,
    legacy_response_spec, open_response_header, open_response_length, request_header_spec,
    response_length_spec, response_payload_spec, seal_legacy_header, seal_vmess_aead_header,
    SessionKeys,
};
use crate::user::ID;
use crate::{CHUNK_SIZE, MAX_CHUNK_SIZE, SECURITY_AES_128_GCM, SECURITY_CHACHA20_POLY1305, SECURITY_NONE};
use vstd::prelude::*;

verus! {

/// Where the reader stands.
#[derive(Clone, Copy, Debug, PartialEq, Eq, Structural)]
pub enum ReadState {
    /// Waiting for the response header (legacy) or its sealed length (AEAD).
    AeadWaitingHeaderSize,
    /// Waiting for the sealed AEAD response header of the given length.
    AeadWaitingHeader(usize),
    /// Waiting for the two length bytes of the next chunk.
    StreamWaitingLength,
    /// Waiting for a chunk body of the given length.
    StreamWaitingData(usize),
    /// Handing out the given number of plaintext bytes still buffered.
    StreamFlushingData(usize),
}

/// Where the writer stands.
#[derive(Clone, Copy, Debug, PartialEq, Eq, Structural)]
pub enum WriteState {
    /// No chunk pending: the next write builds one.
    BuildingData,
    /// A chunk is pending: plaintext bytes it consumed, its total length on
    /// the wire, and how much of it the transport has taken.
    FlushingData(usize, usize, usize),
}

/// Random material and the clock reading one handshake consumes.
#[derive(Debug)]
pub struct HandshakeEntropy {
    /// Request body IV (16), body key (16) and verification byte (1).
    pub session: Vec<u8>,
    /// Random padding of the request header, shorter than sixteen bytes.
    pub padding: Vec<u8>,
    /// Random bytes of the AEAD auth id.
    pub auth_rand: Vec<u8>,
    /// The AEAD connection nonce.
    pub connection_nonce: Vec<u8>,
    /// UNIX seconds.
    pub now: u64,
}

impl HandshakeEntropy {
    pub open spec fn wf(&self) -> bool {
        &&& self.session@.len() == 33
        &&& self.padding@.len() < 16
        &&& self.auth_rand@.len() == 4
        &&& self.connection_nonce@.len() == 8
    }
}

/// The chunk cipher a security byte selects: `None` when the byte names no
/// supported kind, `Some(None)` for no encryption.
pub open spec fn security_kind(security: u8) -> Option<Option<VmessSecurity>> {
    if security == SECURITY_NONE {
        Some(None)
    } else if security == SECURITY_AES_128_GCM {
        Some(Some(VmessSecurity::Aes128Gcm))
    } else if security == SECURITY_CHACHA20_POLY1305 {
        Some(Some(VmessSecurity::ChaCha20Poly1305))
    } else {
        None
    }
}

/// The chunk key for a sixteen-byte body key.
pub open spec fn chunk_key_spec(sec: VmessSecurity, k: Seq<u8>) -> Seq<u8> {
    match sec {
        VmessSecurity::Aes128Gcm => k,
        VmessSecurity::ChaCha20Poly1305 => chacha_key_spec(k),
    }
}

/// `c` is a fresh chunk cipher of kind `sec` for the body key and IV given.
pub open spec fn fresh_cipher(c: Option<AeadCipher>, kind: Option<VmessSecurity>, key: Seq<u8>, iv: Seq<u8>) -> bool {
    match kind {
        None => c is None,
        Some(sec) => c matches Some(c) && c.security == sec && c.key@ == chunk_key_spec(sec, key)
            && c.iv@ == iv && c.count == 0,
    }
}

/// The handshake bytes: the request header wrapped for AEAD or legacy mode.
pub open spec fn handshake_spec(
    id: &ID,
    keys: &SessionKeys,
    dst: &SocksAddr,
    security: u8,
    is_aead: bool,
    is_udp: bool,
    ent: &HandshakeEntropy,
) -> Seq<u8> {
    let header = request_header_spec(keys, security, is_udp, dst, ent.padding@);
    if is_aead {
        aead_request_spec(id.cmd_key@, ent.now, ent.auth_rand@, ent.connection_nonce@, header)
    } else {
        legacy_request_spec(id, ent.now, header)
    }
}

/// The frame that carries `pt`: its body length big-endian, then the body,
/// sealed when there is a cipher.
pub open spec fn frame_spec(c: Option<AeadCipher>, pt: Seq<u8>) -> Seq<u8> {
    match c {
        None => be16(pt.len() as u16) + pt,
        Some(c) => be16((pt.len() + 16) as u16) + seal_of(c.security, c.key@, c.next_nonce(), pt),
    }
}

/// What the receiving side of the frame gets back from a frame body.
pub open spec fn unframe_spec(c: Option<AeadCipher>, body: Seq<u8>) -> Option<Seq<u8>> {
    match c {
        None => Some(body),
        Some(c) => open_of(c.security, c.key@, c.next_nonce(), body),
    }
}

/// Largest plaintext one frame carries.
pub open spec fn max_plain_spec(c: Option<AeadCipher>) -> nat {
    if c is Some {
        (CHUNK_SIZE - 16) as nat
    } else {
        CHUNK_SIZE as nat
    }
}

pub open spec fn min(a: nat, b: nat) -> nat {
    if a < b {
        a
    } else {
        b
    }
}

pub struct VmessStream {
    pub aead_read_cipher: Option<AeadCipher>,
    pub aead_write_cipher: Option<AeadCipher>,
    pub keys: SessionKeys,
    pub security: u8,
    pub is_aead: bool,
    pub is_udp: bool,
    pub read_state: ReadState,
    pub read_buf: Vec<u8>,
    pub write_state: WriteState,
    pub write_buf: Vec<u8>,
}

impl VmessStream {
    /// Bytes the current read state gathers before it moves on; none while
    /// flushing.
    pub open spec fn read_size(&self) -> nat {
        match self.read_state {
            ReadState::AeadWaitingHeaderSize => if self.is_aead {
                18
            } else {
                4
            },
            ReadState::AeadWaitingHeader(l) => (l + 16) as nat,
            ReadState::StreamWaitingLength => 2,
            ReadState::StreamWaitingData(n) => n as nat,
            ReadState::StreamFlushingData(_) => 0,
        }
    }

    pub open spec fn wf(&self) -> bool {
        &&& self.keys.wf()
        &&& (self.aead_read_cipher matches Some(c) ==> c.wf())
        &&& (self.aead_write_cipher matches Some(c) ==> c.wf())
        &&& match self.read_state {
            ReadState::StreamFlushingData(n) => self.read_buf@.len() == n,
            ReadState::AeadWaitingHeader(l) => l < 65536 && self.read_buf@.len() <= self.read_size(),
            ReadState::StreamWaitingData(n) => n <= MAX_CHUNK_SIZE && self.read_buf@.len() <= n,
            _ => self.read_buf@.len() <= self.read_size(),
        }
        &&& match self.write_state {
            WriteState::BuildingData => self.write_buf@.len() == 0,
            WriteState::FlushingData(c, total, written) => total == self.write_buf@.len() && written
                < total && c <= CHUNK_SIZE,
        }
    }

    /// The write side of `other` is that of `self`.
    pub open spec fn same_write_side(&self, other: &VmessStream) -> bool {
        &&& self.aead_write_cipher == other.aead_write_cipher
        &&& self.write_state == other.write_state
        &&& self.write_buf@ == other.write_buf@
    }

    /// The read side of `other` is that of `self`.
    pub open spec fn same_read_side(&self, other: &VmessStream) -> bool {
        &&& self.aead_read_cipher == other.aead_read_cipher
        &&& self.read_state == other.read_state
        &&& self.read_buf@ == other.read_buf@
    }

    /// The session parameters of `other` are those of `self`.
    pub open spec fn same_session(&self, other: &VmessStream) -> bool {
        &&& self.keys == other.keys
        &&& self.security == other.security
        &&& self.is_aead == other.is_aead
        &&& self.is_udp == other.is_udp
    }

    /// What a read state does with the `data` it gathered: the next state and
    /// the buffer it leaves, or the error that ends the stream.
    pub open spec fn completed_read(&self, data: Seq<u8>) -> Result<(ReadState, Seq<u8>), VmessError> {
        match self.read_state {
            ReadState::AeadWaitingHeaderSize => if self.is_aead {
                match response_length_spec(&self.keys, data) {
                    Ok(l) => Ok((ReadState::AeadWaitingHeader(l), Seq::empty())),
                    Err(e) => Err(e),
                }
            } else {
                match legacy_response_spec(&self.keys, data) {
                    Ok(_) => Ok((ReadState::StreamWaitingLength, Seq::empty())),
                    Err(e) => Err(e),
                }
            },
            ReadState::AeadWaitingHeader(_) => match response_payload_spec(&self.keys, data) {
                Ok(_) => Ok((ReadState::StreamWaitingLength, Seq::empty())),
                Err(e) => Err(e),
            },
            ReadState::StreamWaitingLength => if from_be16(data) > MAX_CHUNK_SIZE {
                Err(VmessError::ChunkTooLarge)
            } else {
                Ok((ReadState::StreamWaitingData(from_be16(data) as usize), Seq::empty()))
            },
            ReadState::StreamWaitingData(n) => match self.aead_read_cipher {
                None => Ok((ReadState::StreamFlushingData(n), data)),
                Some(c) => if c.count >= MAX_CHUNKS {
                    Err(VmessError::NonceExhausted)
                } else {
                    match open_of(c.security, c.key@, c.next_nonce(), data) {
                        None => Err(VmessError::DecryptionFailed),
                        Some(p) => Ok((ReadState::StreamFlushingData(p.len() as usize), p)),
                    }
                },
            },
            ReadState::StreamFlushingData(_) => Ok((self.read_state, self.read_buf@)),
        }
    }
}

fn make_cipher(sec: VmessSecurity, key: &[u8], iv: &[u8]) -> (r: AeadCipher)
    requires
        key@.len() == 16,
        iv@.len() == 16,
    ensures
        r.wf(),
        fresh_cipher(Some(r), Some(sec), key@, iv@),
{
    match sec {
        VmessSecurity::Aes128Gcm => AeadCipher::new(iv, sec, key),
        VmessSecurity::ChaCha20Poly1305 => {
            let k = chacha_key(key);
            AeadCipher::new(iv, sec, k.as_slice())
        },
    }
}

fn security_from_byte(security: u8) -> (r: Option<Option<VmessSecurity>>)
    ensures
        r == security_kind(security),
{
    if security == SECURITY_NONE {
        Some(None)
    } else if security == SECURITY_AES_128_GCM {
        Some(Some(VmessSecurity::Aes128Gcm))
    } else if security == SECURITY_CHACHA20_POLY1305 {
        Some(Some(VmessSecurity::ChaCha20Poly1305))
    } else {
        None
    }
}

impl VmessStream {
    /// Sets up a stream to `dst` for user `id`: makes the session keys and
    /// chunk ciphers from `ent`, and returns the stream with the handshake
    /// bytes to send before any other I/O. Fails only on an unsupported
    /// security byte.
    pub fn new(
        id: &ID,
        dst: &SocksAddr,
        security: u8,
        is_aead: bool,
        is_udp: bool,
        ent: &HandshakeEntropy,
    ) -> (r: Result<(VmessStream, Vec<u8>), VmessError>)
        requires
            id.wf(),
            dst.wf(),
            ent.wf(),
        ensures
            (r is Err) == (security_kind(security) is None),
            r is Err ==> r == Err::<(VmessStream, Vec<u8>), VmessError>(VmessError::Unsupported),
            r matches Ok((s, hs)) ==> {
                &&& s.wf()
                &&& s.keys.made_from(ent.session@, is_aead)
                &&& s.security == security
                &&& s.is_aead == is_aead
                &&& s.is_udp == is_udp
                &&& hs@ == handshake_spec(id, &s.keys, dst, security, is_aead, is_udp, ent)
                &&& s.read_state == ReadState::AeadWaitingHeaderSize
                &&& s.read_buf@.len() == 0
                &&& s.write_state == WriteState::BuildingData
                &&& fresh_cipher(
                    s.aead_write_cipher,
                    security_kind(security)->0,
                    s.keys.req_body_key@,
                    s.keys.req_body_iv@,
                )
                &&& fresh_cipher(
                    s.aead_read_cipher,
                    security_kind(security)->0,
                    s.keys.resp_body_key@,
                    s.keys.resp_body_iv@,
                )
            },
    {
        let kind = match security_from_byte(security) {
            Some(k) => k,
            None => return Err(VmessError::Unsupported),
        };
        let keys = SessionKeys::new(ent.session.as_slice(), is_aead);
        let (aead_read_cipher, aead_write_cipher) = match kind {
            None => (None, None),
            Some(sec) => (
                Some(make_cipher(sec, keys.resp_body_key.as_slice(), keys.resp_body_iv.as_slice())),
                Some(make_cipher(sec, keys.req_body_key.as_slice(), keys.req_body_iv.as_slice())),
            ),
        };
        let header = build_request_header(&keys, security, is_udp, dst, ent.padding.as_slice());
        let hs = if is_aead {
            seal_vmess_aead_header(
                id.cmd_key.as_slice(),
                header.as_slice(),
                ent.now,
                ent.auth_rand.as_slice(),
                ent.connection_nonce.as_slice(),
            )
        } else {
            seal_legacy_header(id, header.as_slice(), ent.now)
        };
        let s = VmessStream {
            aead_read_cipher,
            aead_write_cipher,
            keys,
            security,
            is_aead,
            is_udp,
            read_state: ReadState::AeadWaitingHeaderSize,
            read_buf: Vec::new(),
            write_state: WriteState::BuildingData,
            write_buf: Vec::new(),
        };
        Ok((s, hs))
    }
}

impl VmessStream {
    /// Builds the next frame out of the front of `buf`: as many bytes as one
    /// chunk carries, sealed with the write cipher's next nonce. Returns how
    /// many plaintext bytes the frame consumed; the frame then waits in the
    /// write buffer for the transport.
    pub fn build_chunk(&mut self, buf: &[u8]) -> (r: Result<usize, VmessError>)
        requires
            old(self).wf(),
            old(self).write_state == WriteState::BuildingData,
        ensures
            old(self).same_read_side(final(self)),
            old(self).same_session(final(self)),
            (r is Err) == (old(self).aead_write_cipher matches Some(c) && c.count == MAX_CHUNKS),
            r is Err ==> r == Err::<usize, VmessError>(VmessError::NonceExhausted),
            r matches Ok(take) ==> {
                &&& take == min(buf@.len(), max_plain_spec(old(self).aead_write_cipher))
                &&& final(self).wf()
                &&& final(self).write_buf@ == frame_spec(
                    old(self).aead_write_cipher,
                    buf@.subrange(0, take as int),
                )
                &&& final(self).write_state == WriteState::FlushingData(
                    take,
                    final(self).write_buf@.len() as usize,
                    0,
                )
                &&& from_be16(final(self).write_buf@) == final(self).write_buf@.len() - 2
                &&& final(self).write_buf@.len() - 2 <= CHUNK_SIZE
                &&& unframe_spec(old(self).aead_write_cipher, final(self).write_buf@.skip(2)) == Some(
                    buf@.subrange(0, take as int),
                )
                &&& match old(self).aead_write_cipher {
                    None => final(self).aead_write_cipher is None,
                    Some(c) => final(self).aead_write_cipher matches Some(d) && d.security
                        == c.security && d.key@ == c.key@ && d.iv@ == c.iv@ && d.count == c.count
                        + 1,
                }
            },
    {
        let overhead: usize = match &self.aead_write_cipher {
            Some(c) => c.security.overhead_len(),
            None => 0,
        };
        let max = CHUNK_SIZE - overhead;
        let take = if buf.len() < max {
            buf.len()
        } else {
            max
        };
        let pt = vstd::slice::slice_subrange(buf, 0, take);
        let mut out: Vec<u8> = Vec::with_capacity(take + overhead + 2);
        put_u16(&mut out, (take + overhead) as u16);
        let ghost old_cipher = self.aead_write_cipher;
        match &mut self.aead_write_cipher {
            Some(c) => {
                let sealed = c.encrypt_chunk(pt);
                match sealed {
                    Ok(body) => {
                        put_slice(&mut out, body.as_slice());
                        assert(out@.skip(2) =~= body@);
                    },
                    Err(e) => return Err(e),
                }
            },
            None => {
                put_slice(&mut out, pt);
                assert(out@.skip(2) =~= pt@);
            },
        }
        proof {
            assert(out@.skip(2) =~= frame_spec(old_cipher, pt@).skip(2));
            assert(out@ =~= frame_spec(old_cipher, pt@));
        }
        let total = out.len();
        self.write_buf = out;
        self.write_state = WriteState::FlushingData(take, total, 0);
        Ok(take)
    }

    /// The part of the pending frame the transport has not taken yet.
    pub fn pending_write(&self) -> (r: &[u8])
        requires
            self.wf(),
            self.write_state is FlushingData,
        ensures
            match self.write_state {
                WriteState::FlushingData(_, total, written) => r@ == self.write_buf@.subrange(
                    written as int,
                    total as int,
                ),
                _ => true,
            },
    {
        match self.write_state {
            WriteState::FlushingData(_, total, written) => vstd::slice::slice_subrange(
                self.write_buf.as_slice(),
                written,
                total,
            ),
            WriteState::BuildingData => self.write_buf.as_slice(),
        }
    }

    /// Records that the transport took `nw` more bytes of the pending frame.
    /// Once it has taken the whole frame, the writer is ready for the next one
    /// and the plaintext count the frame consumed is returned.
    pub fn advance_write(&mut self, nw: usize) -> (r: Result<Option<usize>, VmessError>)
        requires
            old(self).wf(),
            match old(self).write_state {
                WriteState::FlushingData(_, total, written) => nw <= total - written,
                _ => false,
            },
        ensures
            old(self).same_read_side(final(self)),
            old(self).same_session(final(self)),
            final(self).aead_write_cipher == old(self).aead_write_cipher,
            r is Ok ==> final(self).wf(),
            match old(self).write_state {
                WriteState::FlushingData(consumed, total, written) => if nw == 0 {
                    r == Err::<Option<usize>, VmessError>(VmessError::WriteZero)
                } else if written + nw >= total {
                    &&& r == Ok::<Option<usize>, VmessError>(Some(consumed))
                    &&& final(self).write_state == WriteState::BuildingData
                    &&& final(self).write_buf@.len() == 0
                } else {
                    &&& r == Ok::<Option<usize>, VmessError>(None)
                    &&& final(self).write_state == WriteState::FlushingData(
                        consumed,
                        total,
                        (written + nw) as usize,
                    )
                    &&& final(self).write_buf@ == old(self).write_buf@
                },
                _ => true,
            },
    {
        match self.write_state {
            WriteState::FlushingData(consumed, total, written) => {
                if nw == 0 {
                    return Err(VmessError::WriteZero);
                }
                if written + nw >= total {
                    self.write_buf.clear();
                    self.write_state = WriteState::BuildingData;
                    Ok(Some(consumed))
                } else {
                    self.write_state = WriteState::FlushingData(consumed, total, written + nw);
                    Ok(None)
                }
            },
            WriteState::BuildingData => Err(VmessError::WriteZero),
        }
    }
}

/// Reading exactly a given number of bytes, fed in pieces.
pub trait ReadExt {
    /// The bytes gathered so far.
    spec fn gathered(&self) -> Seq<u8>;

    /// Adds `input`, the next bytes the transport delivered, to what was
    /// gathered toward `size` bytes. Returns whether `size` bytes are now
    /// gathered; an empty `input` while bytes are still missing means the
    /// transport closed early.
    fn poll_read_exact(&mut self, input: &[u8], size: usize) -> (r: Result<bool, VmessError>)
        requires
            old(self).gathered().len() <= size,
            input@.len() <= size - old(self).gathered().len(),
        ensures
            input@.len() == 0 && old(self).gathered().len() < size ==> r == Err::<bool, VmessError>(
                VmessError::UnexpectedEof,
            ) && final(self).gathered() == old(self).gathered(),
            !(input@.len() == 0 && old(self).gathered().len() < size) ==> final(self).gathered()
                == old(self).gathered() + input@ && r == Ok::<bool, VmessError>(
                final(self).gathered().len() == size,
            ),
    ;

    /// The bytes gathered so far.
    fn get_data(&self) -> (r: &[u8])
        ensures
            r@ == self.gathered(),
    ;
}

/// How the read cipher moves when a read state completes: only a chunk body
/// opened by a cipher advances its counter.
pub open spec fn read_cipher_after(old: &VmessStream, new: &VmessStream) -> bool {
    match (old.read_state, old.aead_read_cipher) {
        (ReadState::StreamWaitingData(_), Some(c)) => new.aead_read_cipher matches Some(d)
            && d.security == c.security && d.key@ == c.key@ && d.iv@ == c.iv@ && d.count == c.count
            + 1,
        _ => new.aead_read_cipher == old.aead_read_cipher,
    }
}

impl VmessStream {
    /// How many more bytes the reader needs before its state can move on;
    /// none while it hands out buffered plaintext.
    pub open spec fn read_want_spec(&self) -> nat {
        if self.read_state is StreamFlushingData {
            0
        } else {
            (self.read_size() - self.read_buf@.len()) as nat
        }
    }

    fn read_size_exec(&self) -> (r: usize)
        requires
            self.wf(),
        ensures
            r == self.read_size(),
    {
        match self.read_state {
            ReadState::AeadWaitingHeaderSize => if self.is_aead {
                18
            } else {
                4
            },
            ReadState::AeadWaitingHeader(l) => l + 16,
            ReadState::StreamWaitingLength => 2,
            ReadState::StreamWaitingData(n) => n,
            ReadState::StreamFlushingData(_) => 0,
        }
    }

    pub fn read_want(&self) -> (r: usize)
        requires
            self.wf(),
        ensures
            r == self.read_want_spec(),
    {
        if self.is_flushing() {
            0
        } else {
            self.read_size_exec() - self.read_buf.len()
        }
    }

    pub fn is_flushing(&self) -> (r: bool)
        ensures
            r == self.read_state is StreamFlushingData,
    {
        match self.read_state {
            ReadState::StreamFlushingData(_) => true,
            _ => false,
        }
    }

    fn gather(&mut self, input: &[u8], size: usize) -> (r: Result<bool, VmessError>)
        requires
            old(self).read_buf@.len() <= size,
            input@.len() <= size - old(self).read_buf@.len(),
        ensures
            old(self).same_write_side(final(self)),
            old(self).same_session(final(self)),
            final(self).read_state == old(self).read_state,
            final(self).aead_read_cipher == old(self).aead_read_cipher,
            input@.len() == 0 && old(self).read_buf@.len() < size ==> r == Err::<bool, VmessError>(
                VmessError::UnexpectedEof,
            ) && final(self).read_buf@ == old(self).read_buf@,
            !(input@.len() == 0 && old(self).read_buf@.len() < size) ==> final(self).read_buf@
                == old(self).read_buf@ + input@ && r == Ok::<bool, VmessError>(
                final(self).read_buf@.len() == size,
            ),
    {
        if input.len() == 0 && self.read_buf.len() < size {
            return Err(VmessError::UnexpectedEof);
        }
        self.read_buf.extend_from_slice(input);
        Ok(self.read_buf.len() == size)
    }

    /// One step of the reader. While flushing, hands out up to `room` of the
    /// buffered plaintext (`Some`). Otherwise adds `input` to what the current
    /// state gathers and, once complete, checks or opens it and moves to the
    /// next state (`None`: the host reads on).
    pub fn poll_read(&mut self, input: &[u8], room: usize) -> (r: Result<Option<Vec<u8>>, VmessError>)
        requires
            old(self).wf(),
            input@.len() <= old(self).read_want_spec(),
        ensures
            old(self).same_write_side(final(self)),
            old(self).same_session(final(self)),
            r is Ok ==> final(self).wf(),
            match old(self).read_state {
                ReadState::StreamFlushingData(rem) => {
                    let n = min(room as nat, rem as nat);
                    &&& r matches Ok(Some(out)) && out@ == old(self).read_buf@.subrange(0, n as int)
                    &&& final(self).read_buf@ == old(self).read_buf@.skip(n as int)
                    &&& final(self).read_state == if n < rem {
                        ReadState::StreamFlushingData((rem - n) as usize)
                    } else {
                        ReadState::StreamWaitingLength
                    }
                    &&& final(self).aead_read_cipher == old(self).aead_read_cipher
                },
                _ => {
                    let gathered = old(self).read_buf@ + input@;
                    if input@.len() == 0 && old(self).read_buf@.len() < old(self).read_size() {
                        r == Err::<Option<Vec<u8>>, VmessError>(VmessError::UnexpectedEof)
                    } else if gathered.len() < old(self).read_size() {
                        &&& r == Ok::<Option<Vec<u8>>, VmessError>(None)
                        &&& final(self).read_buf@ == gathered
                        &&& final(self).read_state == old(self).read_state
                        &&& final(self).aead_read_cipher == old(self).aead_read_cipher
                    } else {
                        match old(self).completed_read(gathered) {
                            Err(e) => r == Err::<Option<Vec<u8>>, VmessError>(e),
                            Ok((st, b)) => {
                                &&& r == Ok::<Option<Vec<u8>>, VmessError>(None)
                                &&& final(self).read_state == st
                                &&& final(self).read_buf@ == b
                                &&& read_cipher_after(old(self), final(self))
                            },
                        }
                    }
                },
            },
    {
        if let ReadState::StreamFlushingData(rem) = self.read_state {
            let n = if room < rem {
                room
            } else {
                rem
            };
            let out = copy_range(self.read_buf.as_slice(), 0, n);
            let rest = copy_range(self.read_buf.as_slice(), n, self.read_buf.len());
            self.read_buf = rest;
            self.read_state = if n < rem {
                ReadState::StreamFlushingData(rem - n)
            } else {
                ReadState::StreamWaitingLength
            };
            return Ok(Some(out));
        }
        let size = self.read_size_exec();
        let done = match self.gather(input, size) {
            Ok(d) => d,
            Err(e) => return Err(e),
        };
        if !done {
            return Ok(None);
        }
        let data = copy_range(self.read_buf.as_slice(), 0, self.read_buf.len());
        assert(data@ =~= old(self).read_buf@ + input@);
        self.read_buf = Vec::new();
        match self.read_state {
            ReadState::AeadWaitingHeaderSize => {
                if self.is_aead {
                    match open_response_length(&self.keys, data.as_slice()) {
                        Ok(l) => self.read_state = ReadState::AeadWaitingHeader(l),
                        Err(e) => return Err(e),
                    }
                } else {
                    match check_legacy_response(&self.keys, data.as_slice()) {
                        Ok(()) => self.read_state = ReadState::StreamWaitingLength,
                        Err(e) => return Err(e),
                    }
                }
            },
            ReadState::AeadWaitingHeader(_) => {
                match open_response_header(&self.keys, data.as_slice()) {
                    Ok(()) => self.read_state = ReadState::StreamWaitingLength,
                    Err(e) => return Err(e),
                }
            },
            ReadState::StreamWaitingLength => {
                let n = get_u16(data.as_slice()) as usize;
                if n > MAX_CHUNK_SIZE {
                    return Err(VmessError::ChunkTooLarge);
                }
                self.read_state = ReadState::StreamWaitingData(n);
            },
            ReadState::StreamWaitingData(n) => {
                match &mut self.aead_read_cipher {
                    None => {
                        self.read_buf = data;
                        self.read_state = ReadState::StreamFlushingData(n);
                    },
                    Some(c) => {
                        match c.decrypt_chunk(data.as_slice()) {
                            Ok(p) => {
                                let len = p.len();
                                self.read_buf = p;
                                self.read_state = ReadState::StreamFlushingData(len);
                            },
                            Err(e) => return Err(e),
                        }
                    },
                }
            },
            ReadState::StreamFlushingData(_) => {},
        }
        Ok(None)
    }
}

impl ReadExt for VmessStream {
    open spec fn gathered(&self) -> Seq<u8> {
        self.read_buf@
    }

    fn poll_read_exact(&mut self, input: &[u8], size: usize) -> (r: Result<bool, VmessError>) {
        self.gather(input, size)
    }

    fn get_data(&self) -> (r: &[u8]) {
        self.read_buf.as_slice()
    }
}

} // verus!
