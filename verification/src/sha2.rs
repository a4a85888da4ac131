//! The SHA-2 family: SHA-224 and SHA-256 over a 32-bit compression core, and
//! SHA-384, SHA-512, SHA-512/224 and SHA-512/256 over a 64-bit one. The two
//! cores share their shape: a 16-word block is expanded to a message schedule,
//! 64 or 80 rounds turn an 8-word working set, and the working set is added
//! back into the chaining state. All words are big-endian.

use crate::engine::Core128;
use crate::engine::Core64;
use crate::engine::Engine128;
use crate::engine::Engine64;
use crate::engine::MAX_MESSAGE_BYTES;
use crate::engine::fold128;
use crate::engine::fold64;
use crate::engine::pad128;
use crate::engine::pad64;
use crate::words::be_u32_at;
use crate::words::be_u64_at;
use crate::words::load_be_u32;
use crate::words::load_be_u64;
use crate::words::rotate_right32;
use crate::words::rotate_right64;
use crate::words::rotr32;
use crate::words::rotr64;
use crate::words::store_words32_be;
use crate::words::store_words64_be;
use crate::words::words32_be_bytes;
use crate::words::words64_be_bytes;
use vstd::prelude::*;

verus! {

// ---------------------------------------------------------------------------
// Constants
// ---------------------------------------------------------------------------

/// SHA-224 and SHA-256 round constants.
pub const K32: [u32; 64] = [
    0x428a2f98, 0x71374491, 0xb5c0fbcf, 0xe9b5dba5, 0x3956c25b, 0x59f111f1, 0x923f82a4, 0xab1c5ed5,
    0xd807aa98, 0x12835b01, 0x243185be, 0x550c7dc3, 0x72be5d74, 0x80deb1fe, 0x9bdc06a7, 0xc19bf174,
    0xe49b69c1, 0xefbe4786, 0x0fc19dc6, 0x240ca1cc, 0x2de92c6f, 0x4a7484aa, 0x5cb0a9dc, 0x76f988da,
    0x983e5152, 0xa831c66d, 0xb00327c8, 0xbf597fc7, 0xc6e00bf3, 0xd5a79147, 0x06ca6351, 0x14292967,
    0x27b70a85, 0x2e1b2138, 0x4d2c6dfc, 0x53380d13, 0x650a7354, 0x766a0abb, 0x81c2c92e, 0x92722c85,
    0xa2bfe8a1, 0xa81a664b, 0xc24b8b70, 0xc76c51a3, 0xd192e819, 0xd6990624, 0xf40e3585, 0x106aa070,
    0x19a4c116, 0x1e376c08, 0x2748774c, 0x34b0bcb5, 0x391c0cb3, 0x4ed8aa4a, 0x5b9cca4f, 0x682e6ff3,
    0x748f82ee, 0x78a5636f, 0x84c87814, 0x8cc70208, 0x90befffa, 0xa4506ceb, 0xbef9a3f7, 0xc67178f2,
];

/// SHA-224 initial chaining state.
pub open spec fn sha224_init_words() -> Seq<u32> {
    seq![
        0xc1059ed8u32,
        0x367cd507u32,
        0x3070dd17u32,
        0xf70e5939u32,
        0xffc00b31u32,
        0x68581511u32,
        0x64f98fa7u32,
        0xbefa4fa4u32,
    ]
}

/// SHA-256 initial chaining state.
pub open spec fn sha256_init_words() -> Seq<u32> {
    seq![
        0x6a09e667u32,
        0xbb67ae85u32,
        0x3c6ef372u32,
        0xa54ff53au32,
        0x510e527fu32,
        0x9b05688cu32,
        0x1f83d9abu32,
        0x5be0cd19u32,
    ]
}

// ---------------------------------------------------------------------------
// The 32-bit compression function
// ---------------------------------------------------------------------------

pub open spec fn ssig0_32(x: u32) -> u32 {
    rotr32(x, 7) ^ rotr32(x, 18) ^ (x >> 3)
}

pub open spec fn ssig1_32(x: u32) -> u32 {
    rotr32(x, 17) ^ rotr32(x, 19) ^ (x >> 10)
}

pub open spec fn bsig0_32(x: u32) -> u32 {
    rotr32(x, 2) ^ rotr32(x, 13) ^ rotr32(x, 22)
}

pub open spec fn bsig1_32(x: u32) -> u32 {
    rotr32(x, 6) ^ rotr32(x, 11) ^ rotr32(x, 25)
}

pub open spec fn ch32(e: u32, f: u32, g: u32) -> u32 {
    (e & f) ^ (!e & g)
}

pub open spec fn maj32(a: u32, b: u32, c: u32) -> u32 {
    (a & b) ^ (a & c) ^ (b & c)
}

/// Word `i` of the message schedule of `block`.
pub open spec fn sha256_w(block: Seq<u8>, i: int) -> u32
    recommends
        0 <= i < 64,
        block.len() == 64,
    decreases i,
{
    if i < 16 {
        be_u32_at(block, i)
    } else {
        sha256_w(block, i - 16).wrapping_add(ssig0_32(sha256_w(block, i - 15))).wrapping_add(
            sha256_w(block, i - 7),
        ).wrapping_add(ssig1_32(sha256_w(block, i - 2)))
    }
}

/// The 8-word working set after `i` rounds, starting from `st`.
pub open spec fn sha256_rounds(st: Seq<u32>, block: Seq<u8>, i: int) -> Seq<u32>
    recommends
        st.len() == 8,
        block.len() == 64,
        0 <= i <= 64,
    decreases i,
{
    if i <= 0 {
        st
    } else {
        let p = sha256_rounds(st, block, i - 1);
        let t1 = p[7].wrapping_add(bsig1_32(p[4])).wrapping_add(ch32(p[4], p[5], p[6])).wrapping_add(
            sha256_w(block, i - 1),
        ).wrapping_add(K32[i - 1]);
        let t2 = bsig0_32(p[0]).wrapping_add(maj32(p[0], p[1], p[2]));
        seq![
            t1.wrapping_add(t2),
            p[0],
            p[1],
            p[2],
            p[3].wrapping_add(t1),
            p[4],
            p[5],
            p[6],
        ]
    }
}

/// One application of the SHA-224/256 compression function.
pub open spec fn sha256_compress(st: Seq<u32>, block: Seq<u8>) -> Seq<u32>
    recommends
        st.len() == 8,
        block.len() == 64,
{
    let f = sha256_rounds(st, block, 64);
    seq![
        st[0].wrapping_add(f[0]),
        st[1].wrapping_add(f[1]),
        st[2].wrapping_add(f[2]),
        st[3].wrapping_add(f[3]),
        st[4].wrapping_add(f[4]),
        st[5].wrapping_add(f[5]),
        st[6].wrapping_add(f[6]),
        st[7].wrapping_add(f[7]),
    ]
}

fn ssig0_32x(x: u32) -> (r: u32)
    ensures
        r == ssig0_32(x),
{
    rotate_right32(x, 7) ^ rotate_right32(x, 18) ^ (x >> 3)
}

fn ssig1_32x(x: u32) -> (r: u32)
    ensures
        r == ssig1_32(x),
{
    rotate_right32(x, 17) ^ rotate_right32(x, 19) ^ (x >> 10)
}

fn bsig0_32x(x: u32) -> (r: u32)
    ensures
        r == bsig0_32(x),
{
    rotate_right32(x, 2) ^ rotate_right32(x, 13) ^ rotate_right32(x, 22)
}

fn bsig1_32x(x: u32) -> (r: u32)
    ensures
        r == bsig1_32(x),
{
    rotate_right32(x, 6) ^ rotate_right32(x, 11) ^ rotate_right32(x, 25)
}

/// The 8×32-bit chaining state of the SHA-224/256 core.
#[derive(Clone, Copy, Debug)]
pub struct State32 {
    pub s0: u32,
    pub s1: u32,
    pub s2: u32,
    pub s3: u32,
    pub s4: u32,
    pub s5: u32,
    pub s6: u32,
    pub s7: u32,
}

impl Core64 for State32 {
    open spec fn words(&self) -> Seq<u32> {
        seq![self.s0, self.s1, self.s2, self.s3, self.s4, self.s5, self.s6, self.s7]
    }

    open spec fn compress_spec(st: Seq<u32>, block: Seq<u8>) -> Seq<u32> {
        sha256_compress(st, block)
    }

    fn compress(&mut self, block: &Vec<u8>) {
        let ghost st0 = self.words();
        let mut w: Vec<u32> = Vec::new();
        let mut i: usize = 0;
        while i < 16
            invariant
                block@.len() == 64,
                i <= 16,
                w@.len() == i,
                forall|j: int| 0 <= j < i ==> w@[j] == sha256_w(block@, j),
            decreases 16 - i,
        {
            w.push(load_be_u32(block.as_slice(), i));
            i = i + 1;
        }
        while i < 64
            invariant
                block@.len() == 64,
                16 <= i <= 64,
                w@.len() == i,
                forall|j: int| 0 <= j < i ==> w@[j] == sha256_w(block@, j),
            decreases 64 - i,
        {
            let x = w[i - 16].wrapping_add(ssig0_32x(w[i - 15])).wrapping_add(
                w[i - 7],
            ).wrapping_add(ssig1_32x(w[i - 2]));
            w.push(x);
            i = i + 1;
        }
        let mut a = self.s0;
        let mut b = self.s1;
        let mut c = self.s2;
        let mut d = self.s3;
        let mut e = self.s4;
        let mut f = self.s5;
        let mut g = self.s6;
        let mut h = self.s7;
        let mut i: usize = 0;
        while i < 64
            invariant
                block@.len() == 64,
                i <= 64,
                w@.len() == 64,
                forall|j: int| 0 <= j < 64 ==> w@[j] == sha256_w(block@, j),
                seq![a, b, c, d, e, f, g, h] == sha256_rounds(st0, block@, i as int),
            decreases 64 - i,
        {
            let t1 = h.wrapping_add(bsig1_32x(e)).wrapping_add((e & f) ^ (!e & g)).wrapping_add(
                w[i],
            ).wrapping_add(K32[i]);
            let t2 = bsig0_32x(a).wrapping_add((a & b) ^ (a & c) ^ (b & c));
            h = g;
            g = f;
            f = e;
            e = d.wrapping_add(t1);
            d = c;
            c = b;
            b = a;
            a = t1.wrapping_add(t2);
            i = i + 1;
            proof {
                assert(seq![a, b, c, d, e, f, g, h] =~= sha256_rounds(st0, block@, i as int));
            }
        }
        self.s0 = self.s0.wrapping_add(a);
        self.s1 = self.s1.wrapping_add(b);
        self.s2 = self.s2.wrapping_add(c);
        self.s3 = self.s3.wrapping_add(d);
        self.s4 = self.s4.wrapping_add(e);
        self.s5 = self.s5.wrapping_add(f);
        self.s6 = self.s6.wrapping_add(g);
        self.s7 = self.s7.wrapping_add(h);
        proof {
            assert(self.words() =~= sha256_compress(st0, block@));
        }
    }
}

// ---------------------------------------------------------------------------
// SHA-224 and SHA-256 digests
// ---------------------------------------------------------------------------

/// The 28-byte SHA-224 digest of `msg`.
pub open spec fn sha224_digest(msg: Seq<u8>) -> Seq<u8> {
    words32_be_bytes(fold64::<State32>(sha224_init_words(), pad64(msg, true)), 28)
}

/// The 32-byte SHA-256 digest of `msg`.
pub open spec fn sha256_digest(msg: Seq<u8>) -> Seq<u8> {
    words32_be_bytes(fold64::<State32>(sha256_init_words(), pad64(msg, true)), 32)
}

/// The SHA-224 digest is 28 bytes long whatever the message.
pub proof fn lemma_sha224_digest_len(msg: Seq<u8>)
    ensures
        sha224_digest(msg).len() == 28,
{
}

/// The SHA-256 digest is 32 bytes long whatever the message.
pub proof fn lemma_sha256_digest_len(msg: Seq<u8>)
    ensures
        sha256_digest(msg).len() == 32,
{
}

/// Streaming SHA-224.
#[derive(Clone)]
pub struct Sha224 {
    engine: Engine64<State32>,
}

impl Sha224 {
    pub closed spec fn wf(&self) -> bool {
        &&& self.engine.wf()
        &&& self.engine.init_words() == sha224_init_words()
    }

    /// Every byte fed so far, in order.
    pub closed spec fn bytes(&self) -> Seq<u8> {
        self.engine.bytes()
    }

    /// Feed more of the message. Only the concatenation of all bytes fed
    /// matters for the digest, never the chunking.
    pub fn update(&mut self, data: &[u8])
        requires
            old(self).wf(),
            old(self).bytes().len() + data@.len() <= MAX_MESSAGE_BYTES,
        ensures
            final(self).wf(),
            final(self).bytes() == old(self).bytes() + data@,
    {
        self.engine.update(data);
    }

    /// Write the digest of everything fed into the first 28 bytes of `out`,
    /// consuming the instance.
    pub fn result(self, out: &mut Vec<u8>)
        requires
            self.wf(),
            old(out)@.len() >= 28,
        ensures
            final(out)@.len() == old(out)@.len(),
            final(out)@ == sha224_digest(self.bytes()) + old(out)@.skip(28),
    {
        let mut engine = self.engine;
        engine.finish(true);
        let st = engine.compressor();
        let mut ws: Vec<u32> = Vec::new();
        ws.push(st.s0);
        ws.push(st.s1);
        ws.push(st.s2);
        ws.push(st.s3);
        ws.push(st.s4);
        ws.push(st.s5);
        ws.push(st.s6);
        ws.push(st.s7);
        proof {
            assert(ws@ =~= st.words());
        }
        store_words32_be(&ws, 28, out);
    }
}

impl Default for Sha224 {
    /// A fresh SHA-224 instance with the standard initial state.
    fn default() -> (d: Self)
        ensures
            d.wf(),
            d.bytes() == Seq::<u8>::empty(),
    {
        let st = State32 {
            s0: 0xc1059ed8,
            s1: 0x367cd507,
            s2: 0x3070dd17,
            s3: 0xf70e5939,
            s4: 0xffc00b31,
            s5: 0x68581511,
            s6: 0x64f98fa7,
            s7: 0xbefa4fa4,
        };
        proof {
            assert(st.words() =~= sha224_init_words());
        }
        Sha224 { engine: Engine64::new(st) }
    }
}

/// Streaming SHA-256.
#[derive(Clone)]
pub struct Sha256 {
    engine: Engine64<State32>,
}

impl Sha256 {
    pub closed spec fn wf(&self) -> bool {
        &&& self.engine.wf()
        &&& self.engine.init_words() == sha256_init_words()
    }

    /// Every byte fed so far, in order.
    pub closed spec fn bytes(&self) -> Seq<u8> {
        self.engine.bytes()
    }

    /// Feed more of the message. Only the concatenation of all bytes fed
    /// matters for the digest, never the chunking.
    pub fn update(&mut self, data: &[u8])
        requires
            old(self).wf(),
            old(self).bytes().len() + data@.len() <= MAX_MESSAGE_BYTES,
        ensures
            final(self).wf(),
            final(self).bytes() == old(self).bytes() + data@,
    {
        self.engine.update(data);
    }

    /// Write the digest of everything fed into the first 32 bytes of `out`,
    /// consuming the instance.
    pub fn result(self, out: &mut Vec<u8>)
        requires
            self.wf(),
            old(out)@.len() >= 32,
        ensures
            final(out)@.len() == old(out)@.len(),
            final(out)@ == sha256_digest(self.bytes()) + old(out)@.skip(32),
    {
        let mut engine = self.engine;
        engine.finish(true);
        let st = engine.compressor();
        let mut ws: Vec<u32> = Vec::new();
        ws.push(st.s0);
        ws.push(st.s1);
        ws.push(st.s2);
        ws.push(st.s3);
        ws.push(st.s4);
        ws.push(st.s5);
        ws.push(st.s6);
        ws.push(st.s7);
        proof {
            assert(ws@ =~= st.words());
        }
        store_words32_be(&ws, 32, out);
    }
}

impl Default for Sha256 {
    /// A fresh SHA-256 instance with the standard initial state.
    fn default() -> (d: Self)
        ensures
            d.wf(),
            d.bytes() == Seq::<u8>::empty(),
    {
        let st = State32 {
            s0: 0x6a09e667,
            s1: 0xbb67ae85,
            s2: 0x3c6ef372,
            s3: 0xa54ff53a,
            s4: 0x510e527f,
            s5: 0x9b05688c,
            s6: 0x1f83d9ab,
            s7: 0x5be0cd19,
        };
        proof {
            assert(st.words() =~= sha256_init_words());
        }
        Sha256 { engine: Engine64::new(st) }
    }
}


// ---------------------------------------------------------------------------
// The 64-bit compression function
// ---------------------------------------------------------------------------

/// SHA-384/512 round constants.
pub const K64: [u64; 80] = [
    0x428a2f98d728ae22, 0x7137449123ef65cd, 0xb5c0fbcfec4d3b2f, 0xe9b5dba58189dbbc,
    0x3956c25bf348b538, 0x59f111f1b605d019, 0x923f82a4af194f9b, 0xab1c5ed5da6d8118,
    0xd807aa98a3030242, 0x12835b0145706fbe, 0x243185be4ee4b28c, 0x550c7dc3d5ffb4e2,
    0x72be5d74f27b896f, 0x80deb1fe3b1696b1, 0x9bdc06a725c71235, 0xc19bf174cf692694,
    0xe49b69c19ef14ad2, 0xefbe4786384f25e3, 0x0fc19dc68b8cd5b5, 0x240ca1cc77ac9c65,
    0x2de92c6f592b0275, 0x4a7484aa6ea6e483, 0x5cb0a9dcbd41fbd4, 0x76f988da831153b5,
    0x983e5152ee66dfab, 0xa831c66d2db43210, 0xb00327c898fb213f, 0xbf597fc7beef0ee4,
    0xc6e00bf33da88fc2, 0xd5a79147930aa725, 0x06ca6351e003826f, 0x142929670a0e6e70,
    0x27b70a8546d22ffc, 0x2e1b21385c26c926, 0x4d2c6dfc5ac42aed, 0x53380d139d95b3df,
    0x650a73548baf63de, 0x766a0abb3c77b2a8, 0x81c2c92e47edaee6, 0x92722c851482353b,
    0xa2bfe8a14cf10364, 0xa81a664bbc423001, 0xc24b8b70d0f89791, 0xc76c51a30654be30,
    0xd192e819d6ef5218, 0xd69906245565a910, 0xf40e35855771202a, 0x106aa07032bbd1b8,
    0x19a4c116b8d2d0c8, 0x1e376c085141ab53, 0x2748774cdf8eeb99, 0x34b0bcb5e19b48a8,
    0x391c0cb3c5c95a63, 0x4ed8aa4ae3418acb, 0x5b9cca4f7763e373, 0x682e6ff3d6b2b8a3,
    0x748f82ee5defb2fc, 0x78a5636f43172f60, 0x84c87814a1f0ab72, 0x8cc702081a6439ec,
    0x90befffa23631e28, 0xa4506cebde82bde9, 0xbef9a3f7b2c67915, 0xc67178f2e372532b,
    0xca273eceea26619c, 0xd186b8c721c0c207, 0xeada7dd6cde0eb1e, 0xf57d4f7fee6ed178,
    0x06f067aa72176fba, 0x0a637dc5a2c898a6, 0x113f9804bef90dae, 0x1b710b35131c471b,
    0x28db77f523047d84, 0x32caab7b40c72493, 0x3c9ebe0a15c9bebc, 0x431d67c49c100d4c,
    0x4cc5d4becb3e42b6, 0x597f299cfc657e2a, 0x5fcb6fab3ad6faec, 0x6c44198c4a475817,
];


/// SHA-384 initial chaining state.
pub open spec fn sha384_init_words() -> Seq<u64> {
    seq![
        0xcbbb9d5dc1059ed8u64,
        0x629a292a367cd507u64,
        0x9159015a3070dd17u64,
        0x152fecd8f70e5939u64,
        0x67332667ffc00b31u64,
        0x8eb44a8768581511u64,
        0xdb0c2e0d64f98fa7u64,
        0x47b5481dbefa4fa4u64,
    ]
}


/// SHA-512 initial chaining state.
pub open spec fn sha512_init_words() -> Seq<u64> {
    seq![
        0x6a09e667f3bcc908u64,
        0xbb67ae8584caa73bu64,
        0x3c6ef372fe94f82bu64,
        0xa54ff53a5f1d36f1u64,
        0x510e527fade682d1u64,
        0x9b05688c2b3e6c1fu64,
        0x1f83d9abfb41bd6bu64,
        0x5be0cd19137e2179u64,
    ]
}


/// SHA-512/224 initial chaining state.
pub open spec fn sha512_224_init_words() -> Seq<u64> {
    seq![
        0x8c3d37c819544da2u64,
        0x73e1996689dcd4d6u64,
        0x1dfab7ae32ff9c82u64,
        0x679dd514582f9fcfu64,
        0x0f6d2b697bd44da8u64,
        0x77e36f7304c48942u64,
        0x3f9d85a86a1d36c8u64,
        0x1112e6ad91d692a1u64,
    ]
}


/// SHA-512/256 initial chaining state.
pub open spec fn sha512_256_init_words() -> Seq<u64> {
    seq![
        0x22312194fc2bf72cu64,
        0x9f555fa3c84c64c2u64,
        0x2393b86b6f53b151u64,
        0x963877195940eabdu64,
        0x96283ee2a88effe3u64,
        0xbe5e1e2553863992u64,
        0x2b0199fc2c85b8aau64,
        0x0eb72ddc81c52ca2u64,
    ]
}


pub open spec fn ssig0_64(x: u64) -> u64 {
    rotr64(x, 1) ^ rotr64(x, 8) ^ (x >> 7)
}

pub open spec fn ssig1_64(x: u64) -> u64 {
    rotr64(x, 19) ^ rotr64(x, 61) ^ (x >> 6)
}

pub open spec fn bsig0_64(x: u64) -> u64 {
    rotr64(x, 28) ^ rotr64(x, 34) ^ rotr64(x, 39)
}

pub open spec fn bsig1_64(x: u64) -> u64 {
    rotr64(x, 14) ^ rotr64(x, 18) ^ rotr64(x, 41)
}

pub open spec fn ch64(e: u64, f: u64, g: u64) -> u64 {
    (e & f) ^ (!e & g)
}

pub open spec fn maj64(a: u64, b: u64, c: u64) -> u64 {
    (a & b) ^ (a & c) ^ (b & c)
}

/// Word `i` of the message schedule of `block`.
pub open spec fn sha512_w(block: Seq<u8>, i: int) -> u64
    recommends
        0 <= i < 80,
        block.len() == 128,
    decreases i,
{
    if i < 16 {
        be_u64_at(block, i)
    } else {
        sha512_w(block, i - 16).wrapping_add(ssig0_64(sha512_w(block, i - 15))).wrapping_add(
            sha512_w(block, i - 7),
        ).wrapping_add(ssig1_64(sha512_w(block, i - 2)))
    }
}

/// The 8-word working set after `i` rounds, starting from `st`.
pub open spec fn sha512_rounds(st: Seq<u64>, block: Seq<u8>, i: int) -> Seq<u64>
    recommends
        st.len() == 8,
        block.len() == 128,
        0 <= i <= 80,
    decreases i,
{
    if i <= 0 {
        st
    } else {
        let p = sha512_rounds(st, block, i - 1);
        let t1 = p[7].wrapping_add(bsig1_64(p[4])).wrapping_add(ch64(p[4], p[5], p[6])).wrapping_add(
            sha512_w(block, i - 1),
        ).wrapping_add(K64[i - 1]);
        let t2 = bsig0_64(p[0]).wrapping_add(maj64(p[0], p[1], p[2]));
        seq![
            t1.wrapping_add(t2),
            p[0],
            p[1],
            p[2],
            p[3].wrapping_add(t1),
            p[4],
            p[5],
            p[6],
        ]
    }
}

/// One application of the SHA-384/512 compression function.
pub open spec fn sha512_compress(st: Seq<u64>, block: Seq<u8>) -> Seq<u64>
    recommends
        st.len() == 8,
        block.len() == 128,
{
    let f = sha512_rounds(st, block, 80);
    seq![
        st[0].wrapping_add(f[0]),
        st[1].wrapping_add(f[1]),
        st[2].wrapping_add(f[2]),
        st[3].wrapping_add(f[3]),
        st[4].wrapping_add(f[4]),
        st[5].wrapping_add(f[5]),
        st[6].wrapping_add(f[6]),
        st[7].wrapping_add(f[7]),
    ]
}

fn ssig0_64x(x: u64) -> (r: u64)
    ensures
        r == ssig0_64(x),
{
    rotate_right64(x, 1) ^ rotate_right64(x, 8) ^ (x >> 7)
}

fn ssig1_64x(x: u64) -> (r: u64)
    ensures
        r == ssig1_64(x),
{
    rotate_right64(x, 19) ^ rotate_right64(x, 61) ^ (x >> 6)
}

fn bsig0_64x(x: u64) -> (r: u64)
    ensures
        r == bsig0_64(x),
{
    rotate_right64(x, 28) ^ rotate_right64(x, 34) ^ rotate_right64(x, 39)
}

fn bsig1_64x(x: u64) -> (r: u64)
    ensures
        r == bsig1_64(x),
{
    rotate_right64(x, 14) ^ rotate_right64(x, 18) ^ rotate_right64(x, 41)
}

/// The 8×64-bit chaining state of the SHA-384/512 core.
#[derive(Clone, Copy, Debug)]
pub struct State64 {
    pub s0: u64,
    pub s1: u64,
    pub s2: u64,
    pub s3: u64,
    pub s4: u64,
    pub s5: u64,
    pub s6: u64,
    pub s7: u64,
}

impl Core128 for State64 {
    open spec fn words(&self) -> Seq<u64> {
        seq![self.s0, self.s1, self.s2, self.s3, self.s4, self.s5, self.s6, self.s7]
    }

    open spec fn compress_spec(st: Seq<u64>, block: Seq<u8>) -> Seq<u64> {
        sha512_compress(st, block)
    }

    fn compress(&mut self, block: &Vec<u8>) {
        let ghost st0 = self.words();
        let mut w: Vec<u64> = Vec::new();
        let mut i: usize = 0;
        while i < 16
            invariant
                block@.len() == 128,
                i <= 16,
                w@.len() == i,
                forall|j: int| 0 <= j < i ==> w@[j] == sha512_w(block@, j),
            decreases 16 - i,
        {
            w.push(load_be_u64(block.as_slice(), i));
            i = i + 1;
        }
        while i < 80
            invariant
                block@.len() == 128,
                16 <= i <= 80,
                w@.len() == i,
                forall|j: int| 0 <= j < i ==> w@[j] == sha512_w(block@, j),
            decreases 80 - i,
        {
            let x = w[i - 16].wrapping_add(ssig0_64x(w[i - 15])).wrapping_add(
                w[i - 7],
            ).wrapping_add(ssig1_64x(w[i - 2]));
            w.push(x);
            i = i + 1;
        }
        let mut a = self.s0;
        let mut b = self.s1;
        let mut c = self.s2;
        let mut d = self.s3;
        let mut e = self.s4;
        let mut f = self.s5;
        let mut g = self.s6;
        let mut h = self.s7;
        let mut i: usize = 0;
        while i < 80
            invariant
                block@.len() == 128,
                i <= 80,
                w@.len() == 80,
                forall|j: int| 0 <= j < 80 ==> w@[j] == sha512_w(block@, j),
                seq![a, b, c, d, e, f, g, h] == sha512_rounds(st0, block@, i as int),
            decreases 80 - i,
        {
            let t1 = h.wrapping_add(bsig1_64x(e)).wrapping_add((e & f) ^ (!e & g)).wrapping_add(
                w[i],
            ).wrapping_add(K64[i]);
            let t2 = bsig0_64x(a).wrapping_add((a & b) ^ (a & c) ^ (b & c));
            h = g;
            g = f;
            f = e;
            e = d.wrapping_add(t1);
            d = c;
            c = b;
            b = a;
            a = t1.wrapping_add(t2);
            i = i + 1;
            proof {
                assert(seq![a, b, c, d, e, f, g, h] =~= sha512_rounds(st0, block@, i as int));
            }
        }
        self.s0 = self.s0.wrapping_add(a);
        self.s1 = self.s1.wrapping_add(b);
        self.s2 = self.s2.wrapping_add(c);
        self.s3 = self.s3.wrapping_add(d);
        self.s4 = self.s4.wrapping_add(e);
        self.s5 = self.s5.wrapping_add(f);
        self.s6 = self.s6.wrapping_add(g);
        self.s7 = self.s7.wrapping_add(h);
        proof {
            assert(self.words() =~= sha512_compress(st0, block@));
        }
    }
}


// ---------------------------------------------------------------------------
// SHA-384, SHA-512, SHA-512/224 and SHA-512/256 digests
// ---------------------------------------------------------------------------


/// The 48-byte SHA-384 digest of `msg`.
pub open spec fn sha384_digest(msg: Seq<u8>) -> Seq<u8> {
    words64_be_bytes(fold128::<State64>(sha384_init_words(), pad128(msg, true)), 48)
}

/// The SHA-384 digest is 48 bytes long whatever the message.
pub proof fn lemma_sha384_digest_len(msg: Seq<u8>)
    ensures
        sha384_digest(msg).len() == 48,
{
}

/// Streaming SHA-384.
#[derive(Clone)]
pub struct Sha384 {
    engine: Engine128<State64>,
}

impl Sha384 {
    pub closed spec fn wf(&self) -> bool {
        &&& self.engine.wf()
        &&& self.engine.init_words() == sha384_init_words()
    }

    /// Every byte fed so far, in order.
    pub closed spec fn bytes(&self) -> Seq<u8> {
        self.engine.bytes()
    }

    /// Feed more of the message. Only the concatenation of all bytes fed
    /// matters for the digest, never the chunking.
    pub fn update(&mut self, data: &[u8])
        requires
            old(self).wf(),
            old(self).bytes().len() + data@.len() <= MAX_MESSAGE_BYTES,
        ensures
            final(self).wf(),
            final(self).bytes() == old(self).bytes() + data@,
    {
        self.engine.update(data);
    }

    /// Write the digest of everything fed into the first 48 bytes of
    /// `out`, consuming the instance.
    pub fn result(self, out: &mut Vec<u8>)
        requires
            self.wf(),
            old(out)@.len() >= 48,
        ensures
            final(out)@.len() == old(out)@.len(),
            final(out)@ == sha384_digest(self.bytes()) + old(out)@.skip(48),
    {
        let mut engine = self.engine;
        engine.finish(true);
        let st = engine.compressor();
        let mut ws: Vec<u64> = Vec::new();
        ws.push(st.s0);
        ws.push(st.s1);
        ws.push(st.s2);
        ws.push(st.s3);
        ws.push(st.s4);
        ws.push(st.s5);
        ws.push(st.s6);
        ws.push(st.s7);
        proof {
            assert(ws@ =~= st.words());
        }
        store_words64_be(&ws, 48, out);
    }
}

impl Default for Sha384 {
    /// A fresh SHA-384 instance with the standard initial state.
    fn default() -> (d: Self)
        ensures
            d.wf(),
            d.bytes() == Seq::<u8>::empty(),
    {
        let st = State64 {
            s0: 0xcbbb9d5dc1059ed8,
            s1: 0x629a292a367cd507,
            s2: 0x9159015a3070dd17,
            s3: 0x152fecd8f70e5939,
            s4: 0x67332667ffc00b31,
            s5: 0x8eb44a8768581511,
            s6: 0xdb0c2e0d64f98fa7,
            s7: 0x47b5481dbefa4fa4,
        };
        proof {
            assert(st.words() =~= sha384_init_words());
        }
        Sha384 { engine: Engine128::new(st) }
    }
}


/// The 64-byte SHA-512 digest of `msg`.
pub open spec fn sha512_digest(msg: Seq<u8>) -> Seq<u8> {
    words64_be_bytes(fold128::<State64>(sha512_init_words(), pad128(msg, true)), 64)
}

/// The SHA-512 digest is 64 bytes long whatever the message.
pub proof fn lemma_sha512_digest_len(msg: Seq<u8>)
    ensures
        sha512_digest(msg).len() == 64,
{
}

/// Streaming SHA-512.
#[derive(Clone)]
pub struct Sha512 {
    engine: Engine128<State64>,
}

impl Sha512 {
    pub closed spec fn wf(&self) -> bool {
        &&& self.engine.wf()
        &&& self.engine.init_words() == sha512_init_words()
    }

    /// Every byte fed so far, in order.
    pub closed spec fn bytes(&self) -> Seq<u8> {
        self.engine.bytes()
    }

    /// Feed more of the message. Only the concatenation of all bytes fed
    /// matters for the digest, never the chunking.
    pub fn update(&mut self, data: &[u8])
        requires
            old(self).wf(),
            old(self).bytes().len() + data@.len() <= MAX_MESSAGE_BYTES,
        ensures
            final(self).wf(),
            final(self).bytes() == old(self).bytes() + data@,
    {
        self.engine.update(data);
    }

    /// Write the digest of everything fed into the first 64 bytes of
    /// `out`, consuming the instance.
    pub fn result(self, out: &mut Vec<u8>)
        requires
            self.wf(),
            old(out)@.len() >= 64,
        ensures
            final(out)@.len() == old(out)@.len(),
            final(out)@ == sha512_digest(self.bytes()) + old(out)@.skip(64),
    {
        let mut engine = self.engine;
        engine.finish(true);
        let st = engine.compressor();
        let mut ws: Vec<u64> = Vec::new();
        ws.push(st.s0);
        ws.push(st.s1);
        ws.push(st.s2);
        ws.push(st.s3);
        ws.push(st.s4);
        ws.push(st.s5);
        ws.push(st.s6);
        ws.push(st.s7);
        proof {
            assert(ws@ =~= st.words());
        }
        store_words64_be(&ws, 64, out);
    }
}

impl Default for Sha512 {
    /// A fresh SHA-512 instance with the standard initial state.
    fn default() -> (d: Self)
        ensures
            d.wf(),
            d.bytes() == Seq::<u8>::empty(),
    {
        let st = State64 {
            s0: 0x6a09e667f3bcc908,
            s1: 0xbb67ae8584caa73b,
            s2: 0x3c6ef372fe94f82b,
            s3: 0xa54ff53a5f1d36f1,
            s4: 0x510e527fade682d1,
            s5: 0x9b05688c2b3e6c1f,
            s6: 0x1f83d9abfb41bd6b,
            s7: 0x5be0cd19137e2179,
        };
        proof {
            assert(st.words() =~= sha512_init_words());
        }
        Sha512 { engine: Engine128::new(st) }
    }
}


/// The 28-byte SHA-512/224 digest of `msg`.
pub open spec fn sha512_224_digest(msg: Seq<u8>) -> Seq<u8> {
    words64_be_bytes(fold128::<State64>(sha512_224_init_words(), pad128(msg, true)), 28)
}

/// The SHA-512/224 digest is 28 bytes long whatever the message.
pub proof fn lemma_sha512_224_digest_len(msg: Seq<u8>)
    ensures
        sha512_224_digest(msg).len() == 28,
{
}

/// Streaming SHA-512/224.
#[derive(Clone)]
pub struct Sha512224 {
    engine: Engine128<State64>,
}

impl Sha512224 {
    pub closed spec fn wf(&self) -> bool {
        &&& self.engine.wf()
        &&& self.engine.init_words() == sha512_224_init_words()
    }

    /// Every byte fed so far, in order.
    pub closed spec fn bytes(&self) -> Seq<u8> {
        self.engine.bytes()
    }

    /// Feed more of the message. Only the concatenation of all bytes fed
    /// matters for the digest, never the chunking.
    pub fn update(&mut self, data: &[u8])
        requires
            old(self).wf(),
            old(self).bytes().len() + data@.len() <= MAX_MESSAGE_BYTES,
        ensures
            final(self).wf(),
            final(self).bytes() == old(self).bytes() + data@,
    {
        self.engine.update(data);
    }

    /// Write the digest of everything fed into the first 28 bytes of
    /// `out`, consuming the instance.
    pub fn result(self, out: &mut Vec<u8>)
        requires
            self.wf(),
            old(out)@.len() >= 28,
        ensures
            final(out)@.len() == old(out)@.len(),
            final(out)@ == sha512_224_digest(self.bytes()) + old(out)@.skip(28),
    {
        let mut engine = self.engine;
        engine.finish(true);
        let st = engine.compressor();
        let mut ws: Vec<u64> = Vec::new();
        ws.push(st.s0);
        ws.push(st.s1);
        ws.push(st.s2);
        ws.push(st.s3);
        ws.push(st.s4);
        ws.push(st.s5);
        ws.push(st.s6);
        ws.push(st.s7);
        proof {
            assert(ws@ =~= st.words());
        }
        store_words64_be(&ws, 28, out);
    }
}

impl Default for Sha512224 {
    /// A fresh SHA-512/224 instance with the standard initial state.
    fn default() -> (d: Self)
        ensures
            d.wf(),
            d.bytes() == Seq::<u8>::empty(),
    {
        let st = State64 {
            s0: 0x8c3d37c819544da2,
            s1: 0x73e1996689dcd4d6,
            s2: 0x1dfab7ae32ff9c82,
            s3: 0x679dd514582f9fcf,
            s4: 0x0f6d2b697bd44da8,
            s5: 0x77e36f7304c48942,
            s6: 0x3f9d85a86a1d36c8,
            s7: 0x1112e6ad91d692a1,
        };
        proof {
            assert(st.words() =~= sha512_224_init_words());
        }
        Sha512224 { engine: Engine128::new(st) }
    }
}


/// The 32-byte SHA-512/256 digest of `msg`.
pub open spec fn sha512_256_digest(msg: Seq<u8>) -> Seq<u8> {
    words64_be_bytes(fold128::<State64>(sha512_256_init_words(), pad128(msg, true)), 32)
}

/// The SHA-512/256 digest is 32 bytes long whatever the message.
pub proof fn lemma_sha512_256_digest_len(msg: Seq<u8>)
    ensures
        sha512_256_digest(msg).len() == 32,
{
}

/// Streaming SHA-512/256.
#[derive(Clone)]
pub struct Sha512256 {
    engine: Engine128<State64>,
}

impl Sha512256 {
    pub closed spec fn wf(&self) -> bool {
        &&& self.engine.wf()
        &&& self.engine.init_words() == sha512_256_init_words()
    }

    /// Every byte fed so far, in order.
    pub closed spec fn bytes(&self) -> Seq<u8> {
        self.engine.bytes()
    }

    /// Feed more of the message. Only the concatenation of all bytes fed
    /// matters for the digest, never the chunking.
    pub fn update(&mut self, data: &[u8])
        requires
            old(self).wf(),
            old(self).bytes().len() + data@.len() <= MAX_MESSAGE_BYTES,
        ensures
            final(self).wf(),
            final(self).bytes() == old(self).bytes() + data@,
    {
        self.engine.update(data);
    }

    /// Write the digest of everything fed into the first 32 bytes of
    /// `out`, consuming the instance.
    pub fn result(self, out: &mut Vec<u8>)
        requires
            self.wf(),
            old(out)@.len() >= 32,
        ensures
            final(out)@.len() == old(out)@.len(),
            final(out)@ == sha512_256_digest(self.bytes()) + old(out)@.skip(32),
    {
        let mut engine = self.engine;
        engine.finish(true);
        let st = engine.compressor();
        let mut ws: Vec<u64> = Vec::new();
        ws.push(st.s0);
        ws.push(st.s1);
        ws.push(st.s2);
        ws.push(st.s3);
        ws.push(st.s4);
        ws.push(st.s5);
        ws.push(st.s6);
        ws.push(st.s7);
        proof {
            assert(ws@ =~= st.words());
        }
        store_words64_be(&ws, 32, out);
    }
}

impl Default for Sha512256 {
    /// A fresh SHA-512/256 instance with the standard initial state.
    fn default() -> (d: Self)
        ensures
            d.wf(),
            d.bytes() == Seq::<u8>::empty(),
    {
        let st = State64 {
            s0: 0x22312194fc2bf72c,
            s1: 0x9f555fa3c84c64c2,
            s2: 0x2393b86b6f53b151,
            s3: 0x963877195940eabd,
            s4: 0x96283ee2a88effe3,
            s5: 0xbe5e1e2553863992,
            s6: 0x2b0199fc2c85b8aa,
            s7: 0x0eb72ddc81c52ca2,
        };
        proof {
            assert(st.words() =~= sha512_256_init_words());
        }
        Sha512256 { engine: Engine128::new(st) }
    }
}

} // verus!
