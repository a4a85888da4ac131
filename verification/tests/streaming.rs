use mdhash::md4::Md4;
use mdhash::ripemd::Ripemd160;
use mdhash::sha2::Sha256;
use mdhash::sha2::Sha384;
use mdhash::sha2::Sha512;

fn hex(bytes: &[u8]) -> String {
    let mut s = String::new();
    for b in bytes {
        s.push_str(&format!("{:02x}", b));
    }
    s
}

fn sha256_chunked(msg: &[u8], chunk: usize) -> Vec<u8> {
    let mut d = Sha256::default();
    if chunk == 0 {
        d.update(msg);
    } else {
        for piece in msg.chunks(chunk) {
            d.update(piece);
        }
    }
    let mut out = vec![0u8; 32];
    d.result(&mut out);
    out
}

fn sha512_chunked(msg: &[u8], chunk: usize) -> Vec<u8> {
    let mut d = Sha512::default();
    if chunk == 0 {
        d.update(msg);
    } else {
        for piece in msg.chunks(chunk) {
            d.update(piece);
        }
    }
    let mut out = vec![0u8; 64];
    d.result(&mut out);
    out
}

fn ripemd160_chunked(msg: &[u8], chunk: usize) -> Vec<u8> {
    let mut d = Ripemd160::default();
    if chunk == 0 {
        d.update(msg);
    } else {
        for piece in msg.chunks(chunk) {
            d.update(piece);
        }
    }
    let mut out = vec![0u8; 20];
    d.result(&mut out);
    out
}

fn md4_chunked(msg: &[u8], chunk: usize) -> Vec<u8> {
    let mut d = Md4::default();
    if chunk == 0 {
        d.update(msg);
    } else {
        for piece in msg.chunks(chunk) {
            d.update(piece);
        }
    }
    let mut out = vec![0u8; 16];
    d.result(&mut out);
    out
}

fn sample_message(len: usize) -> Vec<u8> {
    (0..len).map(|i| (i % 251) as u8).collect()
}

#[test]
fn chunk_invariance_all_algorithms() {
    let msg = sample_message(347);
    let whole256 = sha256_chunked(&msg, 0);
    let whole512 = sha512_chunked(&msg, 0);
    let whole160 = ripemd160_chunked(&msg, 0);
    let whole_md4 = md4_chunked(&msg, 0);
    for chunk in [1, 2, 3, 7, 63, 64, 65, 127, 128, 129, 346, 347] {
        assert_eq!(sha256_chunked(&msg, chunk), whole256);
        assert_eq!(sha512_chunked(&msg, chunk), whole512);
        assert_eq!(ripemd160_chunked(&msg, chunk), whole160);
        assert_eq!(md4_chunked(&msg, chunk), whole_md4);
    }
}

#[test]
fn chunk_invariance_empty_updates() {
    let mut d = Sha256::default();
    d.update(b"");
    d.update(b"abc");
    d.update(b"");
    let mut out = vec![0u8; 32];
    d.result(&mut out);
    assert_eq!(
        hex(&out),
        "ba7816bf8f01cfea414140de5dae2223b00361a396177a9cb410ff61f20015ad"
    );
}

#[test]
fn determinism_same_message() {
    let msg = sample_message(1000);
    assert_eq!(sha256_chunked(&msg, 0), sha256_chunked(&msg, 0));
    assert_eq!(sha512_chunked(&msg, 0), sha512_chunked(&msg, 0));
    assert_eq!(ripemd160_chunked(&msg, 0), ripemd160_chunked(&msg, 0));
    assert_eq!(md4_chunked(&msg, 0), md4_chunked(&msg, 0));
}

#[test]
fn single_bit_difference_changes_digest() {
    let msg = sample_message(100);
    let mut flipped = msg.clone();
    flipped[50] ^= 1;
    assert_ne!(sha256_chunked(&msg, 0), sha256_chunked(&flipped, 0));
    assert_ne!(sha512_chunked(&msg, 0), sha512_chunked(&flipped, 0));
    assert_ne!(ripemd160_chunked(&msg, 0), ripemd160_chunked(&flipped, 0));
    assert_ne!(md4_chunked(&msg, 0), md4_chunked(&flipped, 0));
}

#[test]
fn output_length_per_algorithm() {
    for len in [0usize, 1, 55, 56, 63, 64, 65, 119, 120, 127, 128, 129, 1000] {
        let msg = sample_message(len);
        assert_eq!(sha256_chunked(&msg, 0).len(), 32);
        assert_eq!(sha512_chunked(&msg, 0).len(), 64);
        assert_eq!(ripemd160_chunked(&msg, 0).len(), 20);
        assert_eq!(md4_chunked(&msg, 0).len(), 16);

        let mut d224 = mdhash::sha2::Sha224::default();
        d224.update(&msg);
        let mut out224 = vec![0u8; 28];
        d224.result(&mut out224);
        assert_eq!(out224.len(), 28);

        let mut d384 = Sha384::default();
        d384.update(&msg);
        let mut out384 = vec![0u8; 48];
        d384.result(&mut out384);
        assert_eq!(out384.len(), 48);

        let mut d512224 = mdhash::sha2::Sha512224::default();
        d512224.update(&msg);
        let mut out512224 = vec![0u8; 28];
        d512224.result(&mut out512224);
        assert_eq!(out512224.len(), 28);

        let mut d512256 = mdhash::sha2::Sha512256::default();
        d512256.update(&msg);
        let mut out512256 = vec![0u8; 32];
        d512256.result(&mut out512256);
        assert_eq!(out512256.len(), 32);
    }
}

#[test]
fn larger_output_buffer_keeps_tail() {
    let mut d = Ripemd160::default();
    d.update(b"abc");
    let mut out = vec![0xaau8; 32];
    d.result(&mut out);
    assert_eq!(hex(&out[..20]), "8eb208f7e05d987a9b044a8e98c6b087f15a0bfc");
    assert_eq!(&out[20..], &[0xaau8; 12]);
}

#[test]
fn padding_boundary_64_byte_blocks() {
    // One million bytes is an exact multiple of the 64-byte block size, so
    // the padding must add a whole extra block.
    let msg = vec![b'a'; 1_000_000];
    assert_eq!(
        hex(&sha256_chunked(&msg, 0)),
        "cdc76e5c9914fb9281a1c7e284d73e67f1809a48a497200e046d39ccc7112cd0"
    );
    assert_eq!(
        hex(&ripemd160_chunked(&msg, 0)),
        "52783243c1697bdbe16d37f97f68f08325dc1528"
    );
}

#[test]
fn padding_boundary_chunk_invariance() {
    // Messages whose length lands exactly on the block boundary, fed whole
    // and split right at the boundary.
    let msg64 = sample_message(64);
    let mut d = Sha256::default();
    d.update(&msg64[..64]);
    let mut one = vec![0u8; 32];
    d.result(&mut one);
    assert_eq!(one, sha256_chunked(&msg64, 32));

    let msg128 = sample_message(128);
    let mut d = Sha512::default();
    d.update(&msg128);
    let mut whole = vec![0u8; 64];
    d.result(&mut whole);
    assert_eq!(whole, sha512_chunked(&msg128, 64));
}
