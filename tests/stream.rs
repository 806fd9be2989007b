use aes_gcm::aead::{Aead, Payload};
use aes_gcm::{Aes128Gcm, KeyInit};
use chacha20poly1305::ChaCha20Poly1305;
use cfb_mode::cipher::{AsyncStreamCipher, KeyIvInit};
use vmess::{
    aead_resp_header_len_iv, aead_resp_header_len_key, aead_resp_header_payload_iv,
    aead_resp_header_payload_key, chacha_key, fnv1a32, hash_timestamp, validate_response_header,
    vmess_kdf, AeadCipher, HandlerOptions, HandshakeEntropy, ReadExt, ReadState, SessionKeys,
    SocksAddr, VmessError, VmessSecurity, VmessStream, WriteState, ID, MAX_CHUNKS,
};

fn unhex(s: &str) -> Vec<u8> {
    (0..s.len() / 2)
        .map(|i| u8::from_str_radix(&s[2 * i..2 * i + 2], 16).unwrap())
        .collect()
}

fn test_id() -> ID {
    ID::new(&unhex("b831381d63244d53ad4f8cda48b30811"))
}

fn zero_entropy() -> HandshakeEntropy {
    HandshakeEntropy {
        session: vec![0u8; 33],
        padding: vec![],
        auth_rand: vec![0u8; 4],
        connection_nonce: vec![0u8; 8],
        now: 1700000000,
    }
}

fn domain_443() -> SocksAddr {
    SocksAddr::Domain(b"example.com".to_vec(), 443)
}

fn open_stream(security: u8, is_aead: bool, dst: &SocksAddr) -> (VmessStream, Vec<u8>) {
    VmessStream::new(&test_id(), dst, security, is_aead, false, &zero_entropy()).unwrap()
}

/// Writes all of `data`, the transport taking each pending frame at once.
fn write_all(s: &mut VmessStream, data: &[u8]) -> (Vec<u8>, Vec<usize>) {
    let mut wire = Vec::new();
    let mut acks = Vec::new();
    let mut off = 0;
    while off < data.len() {
        let take = s.build_chunk(&data[off..]).unwrap();
        let pending = s.pending_write().to_vec();
        wire.extend_from_slice(&pending);
        assert_eq!(s.advance_write(pending.len()).unwrap(), Some(take));
        assert_eq!(s.write_state, WriteState::BuildingData);
        acks.push(take);
        off += take;
    }
    (wire, acks)
}

/// Feeds `wire` to the reader until it runs out at a frame boundary, handing
/// out at most `room` bytes per read.
fn read_all(s: &mut VmessStream, wire: &[u8], room: usize) -> Result<Vec<u8>, VmessError> {
    let mut pos = 0;
    let mut out = Vec::new();
    loop {
        if s.is_flushing() {
            let b = s.poll_read(&[], room)?.unwrap();
            out.extend_from_slice(&b);
            continue;
        }
        if pos == wire.len()
            && s.read_state == ReadState::StreamWaitingLength
            && s.get_data().is_empty()
        {
            return Ok(out);
        }
        let want = s.read_want();
        let n = std::cmp::min(want, wire.len() - pos);
        s.poll_read(&wire[pos..pos + n], room)?;
        pos += n;
    }
}

/// A reader holding the writer's chunk cipher, standing for the server.
fn peer_of(w: &VmessStream, sec: Option<VmessSecurity>) -> VmessStream {
    let cipher = sec.map(|sec| {
        let key = match sec {
            VmessSecurity::Aes128Gcm => w.keys.req_body_key.clone(),
            VmessSecurity::ChaCha20Poly1305 => chacha_key(&w.keys.req_body_key),
        };
        AeadCipher::new(&w.keys.req_body_iv, sec, &key)
    });
    VmessStream {
        aead_read_cipher: cipher,
        aead_write_cipher: None,
        keys: SessionKeys::new(&[0u8; 33], true),
        security: w.security,
        is_aead: true,
        is_udp: false,
        read_state: ReadState::StreamWaitingLength,
        read_buf: Vec::new(),
        write_state: WriteState::BuildingData,
        write_buf: Vec::new(),
    }
}

fn kdf16(key: &[u8], salt: Vec<u8>, n: usize) -> Vec<u8> {
    vmess_kdf(key, &vec![salt])[..n].to_vec()
}

/// The AEAD response a server sends for `plain`.
fn aead_response(keys: &SessionKeys, plain: &[u8]) -> Vec<u8> {
    let lk = kdf16(&keys.resp_body_key, aead_resp_header_len_key(), 16);
    let li = kdf16(&keys.resp_body_iv, aead_resp_header_len_iv(), 12);
    let pk = kdf16(&keys.resp_body_key, aead_resp_header_payload_key(), 16);
    let pi = kdf16(&keys.resp_body_iv, aead_resp_header_payload_iv(), 12);
    let len = (plain.len() as u16).to_be_bytes();
    let mut out = Aes128Gcm::new_from_slice(&lk)
        .unwrap()
        .encrypt(aes_gcm::Nonce::from_slice(&li), Payload { msg: &len, aad: &[] })
        .unwrap();
    out.extend(
        Aes128Gcm::new_from_slice(&pk)
            .unwrap()
            .encrypt(aes_gcm::Nonce::from_slice(&pi), Payload { msg: plain, aad: &[] })
            .unwrap(),
    );
    out
}

/// The legacy response a server sends for four header bytes.
fn legacy_response(keys: &SessionKeys, plain: &[u8]) -> Vec<u8> {
    let mut buf = plain.to_vec();
    let enc = cfb_mode::Encryptor::<aes::Aes128>::new_from_slices(
        &keys.resp_body_key,
        &keys.resp_body_iv,
    )
    .unwrap();
    AsyncStreamCipher::encrypt(enc, &mut buf);
    buf
}

fn gcm_chunk(key: &[u8], iv: &[u8], count: u16, pt: &[u8]) -> Vec<u8> {
    let mut nonce = count.to_be_bytes().to_vec();
    nonce.extend_from_slice(&iv[2..12]);
    let c = Aes128Gcm::new_from_slice(key)
        .unwrap()
        .encrypt(aes_gcm::Nonce::from_slice(&nonce), pt)
        .unwrap();
    let mut out = (c.len() as u16).to_be_bytes().to_vec();
    out.extend(c);
    out
}

#[test]
fn fnv1a32_known_values() {
    assert_eq!(fnv1a32(b""), 0x811c9dc5);
    assert_eq!(fnv1a32(b"a"), 0xe40c292c);
}

#[test]
fn kdf_matches_published_vector() {
    let path = vec![
        b"Demo Path for KDF Value Test".to_vec(),
        b"Demo Path for KDF Value Test2".to_vec(),
        b"Demo Path for KDF Value Test3".to_vec(),
    ];
    let k = vmess_kdf(b"Demo Key for KDF Value Test", &path);
    assert_eq!(k.len(), 32);
    assert_eq!(k[..16].to_vec(), unhex("53e9d7e1bd7bd25022b71ead07d8a596"));
}

#[test]
fn kdf_without_path_is_hmac_sha256() {
    let k = vmess_kdf(b"abc", &vec![]);
    assert_eq!(
        k,
        unhex("83cf1e7c1c28dca6204690dcf31159a5890926a4ceb3598782f1aeef9c786661")
    );
}

#[test]
fn kdf_hashes_a_salt_longer_than_a_block() {
    let k = vmess_kdf(b"key", &vec![vec![b'x'; 100]]);
    assert_eq!(
        k,
        unhex("28396e100f4e205d3abe0de4b157172a2615333c88f804e29e16c6a6ae2298d6")
    );
}

#[test]
fn command_key_of_uuid() {
    let id = test_id();
    assert_eq!(id.cmd_key, unhex("b50d916ac0cec067981af8e5f38a758f"));
}

#[test]
fn timestamp_hash() {
    assert_eq!(hash_timestamp(1700000000), unhex("7a29d7bdc972aaefb1f54e5205589e78"));
}

#[test]
fn aead_gcm_domain_handshake_golden() {
    let (mut s, hs) = open_stream(0x03, true, &domain_443());
    let (_, again) = open_stream(0x03, true, &domain_443());
    assert_eq!(hs, again);
    assert_eq!(
        hs,
        unhex(
            "ce25d87c93152dccb8cffa067a4bafe1c7e9ecd01d7d26fac7f4e3b37d21793ba73e938d72c24c9053f6d0bb1ae5fbe9ac1f90bf6688576dbccb437c4eef746fc2aba77a1658a72706f978f86db341049033ec6c8674b950b68640d384d2587cd5d8b910dfaefa3773e9900000000000000000"
        )
    );
    let (wire, acks) = write_all(&mut s, b"hello");
    assert_eq!(acks, vec![5]);
    assert_eq!(wire, unhex("00156bedb6a20ffc05f3475d29034caa1cc8fa3628c39f"));
}

#[test]
fn legacy_gcm_ipv4_handshake_golden() {
    let dst = SocksAddr::Ipv4(vec![1, 2, 3, 4], 80);
    let (mut s, hs) = open_stream(0x03, false, &dst);
    assert_eq!(hs[..16].to_vec(), unhex("cb4c98431253a6f41d16adc57e6d3550"));
    assert_eq!(
        hs,
        unhex(
            "cb4c98431253a6f41d16adc57e6d355018f037ebbd302d6ae279300195278bbe05acc7cc75a52347f476434e3bd88ea8c5d3b8b17f1d29b98112ea7b2d7fcae661"
        )
    );
    // a 49-byte header after the 16-byte prefix: no connection nonce follows
    assert_eq!(hs.len(), 16 + 49);
    let (wire, _) = write_all(&mut s, b"GET / HTTP/1.0\r\n\r\n");
    assert_eq!(
        wire,
        unhex("002244cd8eee4f96ebc6a778ed885f82f372fa9f0a9bb02b039e825107b079caa1cae2d0")
    );
}

#[test]
fn chacha_ipv6_two_chunks() {
    let mut ip = vec![0u8; 16];
    ip[15] = 1;
    let dst = SocksAddr::Ipv6(ip, 9000);
    let (mut s, _) = open_stream(0x04, true, &dst);
    let data: Vec<u8> = (0..20000u32).map(|i| (i % 251) as u8).collect();
    let (wire, acks) = write_all(&mut s, &data);
    assert_eq!(acks, vec![16368, 3632]);
    let key = chacha_key(&s.keys.req_body_key);
    let cipher = ChaCha20Poly1305::new_from_slice(&key).unwrap();
    let mut pos = 0;
    let mut plain = Vec::new();
    for (count, expect) in [(0u16, 16384usize), (1u16, 3648usize)] {
        let len = u16::from_be_bytes([wire[pos], wire[pos + 1]]) as usize;
        assert_eq!(len, expect);
        let mut nonce = count.to_be_bytes().to_vec();
        nonce.extend_from_slice(&s.keys.req_body_iv[2..12]);
        let p = cipher
            .decrypt(
                chacha20poly1305::Nonce::from_slice(&nonce),
                &wire[pos + 2..pos + 2 + len],
            )
            .unwrap();
        plain.extend(p);
        pos += 2 + len;
    }
    assert_eq!(pos, wire.len());
    assert_eq!(plain, data);
}

#[test]
fn round_trip_through_peer_reader() {
    for (security, sec) in [
        (0x03u8, Some(VmessSecurity::Aes128Gcm)),
        (0x04u8, Some(VmessSecurity::ChaCha20Poly1305)),
        (0x05u8, None),
    ] {
        let (mut s, _) = open_stream(security, true, &domain_443());
        let data: Vec<u8> = (0..40000u32).map(|i| (i * 7 % 256) as u8).collect();
        let (wire, acks) = write_all(&mut s, &data);
        assert_eq!(acks.iter().sum::<usize>(), data.len());
        let mut peer = peer_of(&s, sec);
        assert_eq!(read_all(&mut peer, &wire, 1000).unwrap(), data);
    }
}

#[test]
fn frames_stay_within_chunk_size() {
    for security in [0x03u8, 0x04, 0x05] {
        let (mut s, _) = open_stream(security, true, &domain_443());
        let data = vec![9u8; 50000];
        let (wire, acks) = write_all(&mut s, &data);
        assert_eq!(acks.iter().sum::<usize>(), 50000);
        let mut pos = 0;
        while pos < wire.len() {
            let len = u16::from_be_bytes([wire[pos], wire[pos + 1]]) as usize;
            assert!(len <= 16384);
            pos += 2 + len;
        }
        assert_eq!(pos, wire.len());
    }
}

#[test]
fn chunk_counter_increases() {
    let key = vec![7u8; 16];
    let iv: Vec<u8> = (0..16u8).collect();
    let mut c = AeadCipher::new(&iv, VmessSecurity::Aes128Gcm, &key);
    for count in 0..3u16 {
        let sealed = c.encrypt_chunk(b"abc").unwrap();
        assert_eq!(c.count, count as u32 + 1);
        let expect = gcm_chunk(&key, &iv, count, b"abc");
        assert_eq!(sealed, expect[2..].to_vec());
    }
}

#[test]
fn counter_exhaustion_is_fatal() {
    let mut c = AeadCipher::new(&[0u8; 16], VmessSecurity::Aes128Gcm, &[0u8; 16]);
    c.count = MAX_CHUNKS;
    assert_eq!(c.encrypt_chunk(b"x"), Err(VmessError::NonceExhausted));
    assert_eq!(c.count, MAX_CHUNKS);
}

#[test]
fn checksum_bit_flip_detected() {
    let keys = SessionKeys::new(&[3u8; 33], true);
    let h = vmess::build_request_header(&keys, 0x03, false, &domain_443(), &[1, 2]);
    let body = &h[..h.len() - 4];
    assert_eq!(fnv1a32(body).to_be_bytes().to_vec(), h[h.len() - 4..].to_vec());
    for i in h.len() - 4..h.len() {
        for bit in 0..8 {
            let mut g = h.clone();
            g[i] ^= 1 << bit;
            assert_ne!(fnv1a32(&g[..g.len() - 4]).to_be_bytes().to_vec(), g[g.len() - 4..].to_vec());
        }
    }
}

#[test]
fn aead_header_tamper_fails_open() {
    let (mut s, _) = open_stream(0x03, true, &domain_443());
    let mut resp = aead_response(&s.keys, &[s.keys.resp_v, 0, 0, 0]);
    resp[3] ^= 0x10;
    assert_eq!(read_all(&mut s, &resp, 100), Err(VmessError::DecryptionFailed));
}

#[test]
fn good_aead_response_then_data() {
    let (mut s, _) = open_stream(0x03, true, &domain_443());
    let mut wire = aead_response(&s.keys, &[s.keys.resp_v, 0, 0, 0]);
    wire.extend(gcm_chunk(&s.keys.resp_body_key, &s.keys.resp_body_iv, 0, b"pong"));
    assert_eq!(read_all(&mut s, &wire, 3).unwrap(), b"pong".to_vec());
}

#[test]
fn good_legacy_response_then_data() {
    let (mut s, _) = open_stream(0x05, false, &domain_443());
    let mut wire = legacy_response(&s.keys, &[s.keys.resp_v, 0, 0, 0]);
    wire.extend_from_slice(&[0, 3, b'a', b'b', b'c']);
    assert_eq!(read_all(&mut s, &wire, 10).unwrap(), b"abc".to_vec());
}

#[test]
fn resp_v_mismatch_rejected() {
    let (mut s, _) = open_stream(0x03, true, &domain_443());
    let wire = aead_response(&s.keys, &[s.keys.resp_v ^ 0xff, 0, 0, 0]);
    let e = read_all(&mut s, &wire, 10).unwrap_err();
    assert_eq!(e, VmessError::InvalidRespV);
    assert!(e.is_invalid_data());
}

#[test]
fn legacy_resp_v_mismatch_rejected() {
    let (mut s, _) = open_stream(0x03, false, &domain_443());
    let wire = legacy_response(&s.keys, &[s.keys.resp_v ^ 0xff, 0, 0, 0]);
    assert_eq!(read_all(&mut s, &wire, 10), Err(VmessError::InvalidRespV));
}

#[test]
fn dynamic_port_rejected() {
    let (mut s, _) = open_stream(0x03, true, &domain_443());
    let wire = aead_response(&s.keys, &[s.keys.resp_v, 0, 1, 0]);
    assert_eq!(read_all(&mut s, &wire, 10), Err(VmessError::DynamicPortNotSupported));
    let (mut s, _) = open_stream(0x03, false, &domain_443());
    let wire = legacy_response(&s.keys, &[s.keys.resp_v, 0, 1, 0]);
    assert_eq!(read_all(&mut s, &wire, 10), Err(VmessError::DynamicPortNotSupported));
}

#[test]
fn oversized_chunk_rejected() {
    for len in [16385u16, 0xffff] {
        let (mut s, _) = open_stream(0x03, true, &domain_443());
        let mut wire = aead_response(&s.keys, &[s.keys.resp_v, 0, 0, 0]);
        wire.extend_from_slice(&len.to_be_bytes());
        assert_eq!(read_all(&mut s, &wire, 10), Err(VmessError::ChunkTooLarge));
        assert_eq!(s.aead_read_cipher.as_ref().unwrap().count, 0);
    }
}

#[test]
fn eof_inside_length_envelope() {
    let (mut s, _) = open_stream(0x03, true, &domain_443());
    let wire = aead_response(&s.keys, &[s.keys.resp_v, 0, 0, 0]);
    assert_eq!(read_all(&mut s, &wire[..10], 10), Err(VmessError::UnexpectedEof));
}

#[test]
fn eof_inside_header_payload() {
    let (mut s, _) = open_stream(0x03, true, &domain_443());
    let wire = aead_response(&s.keys, &[s.keys.resp_v, 0, 0, 0]);
    // the length envelope (18 bytes) and part of the 20-byte payload
    assert_eq!(read_all(&mut s, &wire[..18 + 5], 10), Err(VmessError::UnexpectedEof));
    assert_eq!(s.read_state, ReadState::AeadWaitingHeader(4));
}

#[test]
fn tampered_chunk_fails() {
    let (mut s, _) = open_stream(0x03, true, &domain_443());
    let mut wire = aead_response(&s.keys, &[s.keys.resp_v, 0, 0, 0]);
    let mut chunk = gcm_chunk(&s.keys.resp_body_key, &s.keys.resp_body_iv, 0, b"pong");
    chunk[4] ^= 1;
    wire.extend(chunk);
    assert_eq!(read_all(&mut s, &wire, 10), Err(VmessError::DecryptionFailed));
}

#[test]
fn unsupported_security_refused() {
    let r = VmessStream::new(&test_id(), &domain_443(), 0x00, true, false, &zero_entropy());
    assert!(matches!(r, Err(VmessError::Unsupported)));
}

#[test]
fn write_zero_is_error() {
    let (mut s, _) = open_stream(0x03, true, &domain_443());
    s.build_chunk(b"data").unwrap();
    assert_eq!(s.advance_write(0), Err(VmessError::WriteZero));
}

#[test]
fn partial_transport_writes() {
    let (mut s, _) = open_stream(0x05, true, &domain_443());
    assert_eq!(s.build_chunk(b"abcdef").unwrap(), 6);
    assert_eq!(s.pending_write().to_vec(), vec![0, 6, b'a', b'b', b'c', b'd', b'e', b'f']);
    assert_eq!(s.advance_write(3), Ok(None));
    assert_eq!(s.pending_write().to_vec(), vec![b'b', b'c', b'd', b'e', b'f']);
    assert_eq!(s.advance_write(5), Ok(Some(6)));
    assert_eq!(s.write_state, WriteState::BuildingData);
}

#[test]
fn short_response_header_rejected() {
    assert_eq!(validate_response_header(&[1, 0, 0], 1), Err(VmessError::HeaderTooShort));
    assert_eq!(validate_response_header(&[1, 0, 0, 0], 1), Ok(()));
}

#[test]
fn read_exact_gathers_pieces() {
    let (mut s, _) = open_stream(0x03, true, &domain_443());
    assert_eq!(s.poll_read_exact(&[1, 2], 4), Ok(false));
    assert_eq!(s.poll_read_exact(&[3, 4], 4), Ok(true));
    assert_eq!(s.get_data().to_vec(), vec![1, 2, 3, 4]);
}

#[test]
fn read_exact_eof() {
    let (mut s, _) = open_stream(0x03, true, &domain_443());
    assert_eq!(s.poll_read_exact(&[], 4), Err(VmessError::UnexpectedEof));
}

#[test]
fn handler_options_default() {
    let o = HandlerOptions::default();
    assert_eq!(o.name, "");
    assert!(!o.udp);
}
