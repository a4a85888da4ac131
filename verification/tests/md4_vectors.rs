use mdhash::md4::Md4;

fn hex(bytes: &[u8]) -> String {
    let mut s = String::new();
    for b in bytes {
        s.push_str(&format!("{:02x}", b));
    }
    s
}

fn md4_hex(msg: &[u8]) -> String {
    let mut d = Md4::default();
    d.update(msg);
    let mut out = vec![0u8; 16];
    d.result(&mut out);
    hex(&out)
}

#[test]
fn rfc1320_test_vectors() {
    assert_eq!(md4_hex(b""), "31d6cfe0d16ae931b73c59d7e0c089c0");
    assert_eq!(md4_hex(b"a"), "bde52cb31de33e46245e05fbdbd6fb24");
    assert_eq!(md4_hex(b"abc"), "a448017aaf21d8525fc10ae87aa6729d");
    assert_eq!(md4_hex(b"message digest"), "d9130a8164549fe818874806e1c7014b");
    assert_eq!(
        md4_hex(b"abcdefghijklmnopqrstuvwxyz"),
        "d79e1c308aa5bbcdeea8ed63df412da9"
    );
    assert_eq!(
        md4_hex(b"ABCDEFGHIJKLMNOPQRSTUVWXYZabcdefghijklmnopqrstuvwxyz0123456789"),
        "043f8582f241db351ce627e153e7f0e4"
    );
    assert_eq!(
        md4_hex(
            b"12345678901234567890123456789012345678901234567890123456789012345678901234567890"
        ),
        "e33b4ddc9c38f2199c3e7b164fcc0536"
    );
}

#[test]
fn md4_empty_message() {
    assert_eq!(md4_hex(b""), "31d6cfe0d16ae931b73c59d7e0c089c0");
}
