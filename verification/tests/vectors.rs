use mdhash::ripemd::Ripemd160;
use mdhash::sha2::Sha224;
use mdhash::sha2::Sha256;
use mdhash::sha2::Sha384;
use mdhash::sha2::Sha512;
use mdhash::sha2::Sha512224;
use mdhash::sha2::Sha512256;

fn hex(bytes: &[u8]) -> String {
    let mut s = String::new();
    for b in bytes {
        s.push_str(&format!("{:02x}", b));
    }
    s
}

fn ripemd160_hex(msg: &[u8]) -> String {
    let mut d = Ripemd160::default();
    d.update(msg);
    let mut out = vec![0u8; 20];
    d.result(&mut out);
    hex(&out)
}

fn sha224_hex(msg: &[u8]) -> String {
    let mut d = Sha224::default();
    d.update(msg);
    let mut out = vec![0u8; 28];
    d.result(&mut out);
    hex(&out)
}

fn sha256_hex(msg: &[u8]) -> String {
    let mut d = Sha256::default();
    d.update(msg);
    let mut out = vec![0u8; 32];
    d.result(&mut out);
    hex(&out)
}

fn sha384_hex(msg: &[u8]) -> String {
    let mut d = Sha384::default();
    d.update(msg);
    let mut out = vec![0u8; 48];
    d.result(&mut out);
    hex(&out)
}

fn sha512_hex(msg: &[u8]) -> String {
    let mut d = Sha512::default();
    d.update(msg);
    let mut out = vec![0u8; 64];
    d.result(&mut out);
    hex(&out)
}

fn sha512_224_hex(msg: &[u8]) -> String {
    let mut d = Sha512224::default();
    d.update(msg);
    let mut out = vec![0u8; 28];
    d.result(&mut out);
    hex(&out)
}

fn sha512_256_hex(msg: &[u8]) -> String {
    let mut d = Sha512256::default();
    d.update(msg);
    let mut out = vec![0u8; 32];
    d.result(&mut out);
    hex(&out)
}

const TWO_BLOCK_56: &[u8] = b"abcdbcdecdefdefgefghfghighijhijkijkljklmklmnlmnomnopnopq";
const TWO_BLOCK_112: &[u8] = b"abcdefghbcdefghicdefghijdefghijkefghijklfghijklmghijklmnhijklmnoijklmnopjklmnopqklmnopqrlmnopqrsmnopqrstnopqrstu";

#[test]
fn ripemd160_standard_vectors() {
    assert_eq!(ripemd160_hex(b""), "9c1185a5c5e9fc54612808977ee8f548b2258d31");
    assert_eq!(ripemd160_hex(b"a"), "0bdc9d2d256b3ee9daae347be6f4dc835a467ffe");
    assert_eq!(ripemd160_hex(b"abc"), "8eb208f7e05d987a9b044a8e98c6b087f15a0bfc");
    assert_eq!(
        ripemd160_hex(b"message digest"),
        "5d0689ef49d2fae572b881b123a85ffa21595f36"
    );
    assert_eq!(
        ripemd160_hex(b"abcdefghijklmnopqrstuvwxyz"),
        "f71c27109c692c1b56bbdceb5b9d2865b3708dbc"
    );
    assert_eq!(
        ripemd160_hex(TWO_BLOCK_56),
        "12a053384a9c0c88e405a06c27dcf49ada62eb2b"
    );
    assert_eq!(
        ripemd160_hex(b"ABCDEFGHIJKLMNOPQRSTUVWXYZabcdefghijklmnopqrstuvwxyz0123456789"),
        "b0e20b6e3116640286ed3a87a5713079b21f5189"
    );
    assert_eq!(
        ripemd160_hex(
            b"12345678901234567890123456789012345678901234567890123456789012345678901234567890"
        ),
        "9b752e45573d4b39f4dbd3323cab82bf63326bfb"
    );
}

#[test]
fn ripemd160_million_a() {
    assert_eq!(
        ripemd160_hex(&vec![b'a'; 1_000_000]),
        "52783243c1697bdbe16d37f97f68f08325dc1528"
    );
}

#[test]
fn sha224_standard_vectors() {
    assert_eq!(
        sha224_hex(b""),
        "d14a028c2a3a2bc9476102bb288234c415a2b01f828ea62ac5b3e42f"
    );
    assert_eq!(
        sha224_hex(b"abc"),
        "23097d223405d8228642a477bda255b32aadbce4bda0b3f7e36c9da7"
    );
    assert_eq!(
        sha224_hex(TWO_BLOCK_56),
        "75388b16512776cc5dba5da1fd890150b0c6455cb4f58b1952522525"
    );
}

#[test]
fn sha256_standard_vectors() {
    assert_eq!(
        sha256_hex(b""),
        "e3b0c44298fc1c149afbf4c8996fb92427ae41e4649b934ca495991b7852b855"
    );
    assert_eq!(
        sha256_hex(b"abc"),
        "ba7816bf8f01cfea414140de5dae2223b00361a396177a9cb410ff61f20015ad"
    );
    assert_eq!(
        sha256_hex(TWO_BLOCK_56),
        "248d6a61d20638b8e5c026930c3e6039a33ce45964ff2167f6ecedd419db06c1"
    );
}

#[test]
fn sha384_standard_vectors() {
    assert_eq!(
        sha384_hex(b""),
        "38b060a751ac96384cd9327eb1b1e36a21fdb71114be07434c0cc7bf63f6e1da274edebfe76f65fbd51ad2f14898b95b"
    );
    assert_eq!(
        sha384_hex(b"abc"),
        "cb00753f45a35e8bb5a03d699ac65007272c32ab0eded1631a8b605a43ff5bed8086072ba1e7cc2358baeca134c825a7"
    );
    assert_eq!(
        sha384_hex(TWO_BLOCK_112),
        "09330c33f71147e83d192fc782cd1b4753111b173b3b05d22fa08086e3b0f712fcc7c71a557e2db966c3e9fa91746039"
    );
}

#[test]
fn sha512_standard_vectors() {
    assert_eq!(
        sha512_hex(b""),
        "cf83e1357eefb8bdf1542850d66d8007d620e4050b5715dc83f4a921d36ce9ce47d0d13c5d85f2b0ff8318d2877eec2f63b931bd47417a81a538327af927da3e"
    );
    assert_eq!(
        sha512_hex(b"abc"),
        "ddaf35a193617abacc417349ae20413112e6fa4e89a97ea20a9eeee64b55d39a2192992a274fc1a836ba3c23a3feebbd454d4423643ce80e2a9ac94fa54ca49f"
    );
    assert_eq!(
        sha512_hex(TWO_BLOCK_112),
        "8e959b75dae313da8cf4f72814fc143f8f7779c6eb9f7fa17299aeadb6889018501d289e4900f7e4331b99dec4b5433ac7d329eeb6dd26545e96e55b874be909"
    );
}

#[test]
fn sha512_224_standard_vectors() {
    assert_eq!(
        sha512_224_hex(b""),
        "6ed0dd02806fa89e25de060c19d3ac86cabb87d6a0ddd05c333b84f4"
    );
    assert_eq!(
        sha512_224_hex(b"abc"),
        "4634270f707b6a54daae7530460842e20e37ed265ceee9a43e8924aa"
    );
    assert_eq!(
        sha512_224_hex(TWO_BLOCK_112),
        "23fec5bb94d60b23308192640b0c453335d664734fe40e7268674af9"
    );
}

#[test]
fn sha512_256_standard_vectors() {
    assert_eq!(
        sha512_256_hex(b""),
        "c672b8d1ef56ed28ab87c3622c5114069bdd3ad7b8f9737498d0c01ecef0967a"
    );
    assert_eq!(
        sha512_256_hex(b"abc"),
        "53048e2681941ef99b2e29b76b4c7dabe4c2d0c634fc6d46e0e2f13107e7af23"
    );
    assert_eq!(
        sha512_256_hex(TWO_BLOCK_112),
        "3928e184fb8690f840da3988121d31be65cb9d3ef83ee6146feac861e19b563a"
    );
}

#[test]
fn sha384_million_a() {
    let mut d = Sha384::default();
    d.update(&vec![b'a'; 1_000_000]);
    let mut out = vec![0u8; 48];
    d.result(&mut out);
    assert_eq!(
        hex(&out),
        "9d0e1809716474cb086e834e310a4a1ced149e9c00f248527972cec5704c2a5b07b8b3dc38ecc4ebae97ddd87f3d8985"
    );
}
