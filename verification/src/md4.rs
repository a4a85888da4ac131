//! MD4: a 4×32-bit-word state over 64-byte blocks. Three 16-operation rounds
//! walk the message words in a per-round pick order with per-round rotation
//! amounts, nonlinear functions and additive constants. All words are
//! little-endian.

use crate::engine::Core64;
use crate::engine::Engine64;
use crate::engine::MAX_MESSAGE_BYTES;
use crate::engine::fold64;
use crate::engine::pad64;
use crate::words::le_u32_at;
use crate::words::load_le_u32;
use crate::words::rotate_left32;
use crate::words::rotl32;
use crate::words::store_words32_le;
use crate::words::words32_le_bytes;
use vstd::prelude::*;

verus! {

// ---------------------------------------------------------------------------
// Round parameter tables
// ---------------------------------------------------------------------------

/// Message-word pick order: straight through, then by column, then in
/// bit-reversed order.
pub const MD4_PICK: [usize; 48] = [
    0, 1, 2, 3, 4, 5, 6, 7, 8, 9, 10, 11, 12, 13, 14, 15,
    0, 4, 8, 12, 1, 5, 9, 13, 2, 6, 10, 14, 3, 7, 11, 15,
    0, 8, 4, 12, 2, 10, 6, 14, 1, 9, 5, 13, 3, 11, 7, 15,
];

/// Rotation amounts, cycling within each 16-operation round.
pub const MD4_ROTATE: [u32; 48] = [
    3, 7, 11, 19, 3, 7, 11, 19, 3, 7, 11, 19, 3, 7, 11, 19,
    3, 5, 9, 13, 3, 5, 9, 13, 3, 5, 9, 13, 3, 5, 9, 13,
    3, 9, 11, 15, 3, 9, 11, 15, 3, 9, 11, 15, 3, 9, 11, 15,
];

/// MD4 initial chaining state.
pub open spec fn md4_init_words() -> Seq<u32> {
    seq![0x67452301u32, 0xefcdab89u32, 0x98badcfeu32, 0x10325476u32]
}

// ---------------------------------------------------------------------------
// The compression function
// ---------------------------------------------------------------------------

/// The additive constant of each 16-operation round.
pub open spec fn md4_k(j: int) -> u32
    recommends
        0 <= j < 3,
{
    if j == 0 {
        0
    } else if j == 1 {
        0x5a827999
    } else {
        0x6ed9eba1
    }
}

/// The nonlinear function of each 16-operation round.
pub open spec fn md4_f(j: int, x: u32, y: u32, z: u32) -> u32
    recommends
        0 <= j < 3,
{
    if j == 0 {
        (x & y) | (!x & z)
    } else if j == 1 {
        (x & y) | (x & z) | (y & z)
    } else {
        x ^ y ^ z
    }
}

/// The 4-word working set after `i` operations, starting from `st`.
pub open spec fn md4_rounds(st: Seq<u32>, block: Seq<u8>, i: int) -> Seq<u32>
    recommends
        st.len() == 4,
        block.len() == 64,
        0 <= i <= 48,
    decreases i,
{
    if i <= 0 {
        st
    } else {
        let p = md4_rounds(st, block, i - 1);
        let j = (i - 1) / 16;
        let t = rotl32(
            p[0].wrapping_add(md4_f(j, p[1], p[2], p[3])).wrapping_add(
                le_u32_at(block, MD4_PICK[i - 1] as int),
            ).wrapping_add(md4_k(j)),
            MD4_ROTATE[i - 1],
        );
        seq![p[3], t, p[1], p[2]]
    }
}

/// One application of the MD4 compression function.
pub open spec fn md4_compress(st: Seq<u32>, block: Seq<u8>) -> Seq<u32>
    recommends
        st.len() == 4,
        block.len() == 64,
{
    let f = md4_rounds(st, block, 48);
    seq![
        st[0].wrapping_add(f[0]),
        st[1].wrapping_add(f[1]),
        st[2].wrapping_add(f[2]),
        st[3].wrapping_add(f[3]),
    ]
}

fn md4_fx(j: usize, x: u32, y: u32, z: u32) -> (r: u32)
    requires
        j < 3,
    ensures
        r == md4_f(j as int, x, y, z),
{
    if j == 0 {
        (x & y) | (!x & z)
    } else if j == 1 {
        (x & y) | (x & z) | (y & z)
    } else {
        x ^ y ^ z
    }
}

fn md4_kx(j: usize) -> (r: u32)
    requires
        j < 3,
    ensures
        r == md4_k(j as int),
{
    if j == 0 {
        0
    } else if j == 1 {
        0x5a827999
    } else {
        0x6ed9eba1
    }
}

/// The 4×32-bit chaining state of the MD4 core.
#[derive(Clone, Copy, Debug)]
pub struct State {
    pub s0: u32,
    pub s1: u32,
    pub s2: u32,
    pub s3: u32,
}

impl State {
    /// The standard MD4 initial state.
    pub fn new() -> (st: Self)
        ensures
            st.words() == md4_init_words(),
    {
        let st = State { s0: 0x67452301, s1: 0xefcdab89, s2: 0x98badcfe, s3: 0x10325476 };
        proof {
            assert(st.words() =~= md4_init_words());
        }
        st
    }
}

impl Core64 for State {
    open spec fn words(&self) -> Seq<u32> {
        seq![self.s0, self.s1, self.s2, self.s3]
    }

    open spec fn compress_spec(st: Seq<u32>, block: Seq<u8>) -> Seq<u32> {
        md4_compress(st, block)
    }

    fn compress(&mut self, block: &Vec<u8>) {
        let ghost st0 = self.words();
        let mut x: Vec<u32> = Vec::new();
        let mut i: usize = 0;
        while i < 16
            invariant
                block@.len() == 64,
                i <= 16,
                x@.len() == i,
                forall|j: int| 0 <= j < i ==> x@[j] == le_u32_at(block@, j),
            decreases 16 - i,
        {
            x.push(load_le_u32(block.as_slice(), i));
            i = i + 1;
        }
        let mut a = self.s0;
        let mut b = self.s1;
        let mut c = self.s2;
        let mut d = self.s3;
        let mut i: usize = 0;
        while i < 48
            invariant
                block@.len() == 64,
                i <= 48,
                x@.len() == 16,
                forall|j: int| 0 <= j < 16 ==> x@[j] == le_u32_at(block@, j),
                seq![a, b, c, d] == md4_rounds(st0, block@, i as int),
            decreases 48 - i,
        {
            let j = i / 16;
            let t = rotate_left32(
                a.wrapping_add(md4_fx(j, b, c, d)).wrapping_add(x[MD4_PICK[i]]).wrapping_add(
                    md4_kx(j),
                ),
                MD4_ROTATE[i],
            );
            a = d;
            d = c;
            c = b;
            b = t;
            i = i + 1;
            proof {
                assert(seq![a, b, c, d] =~= md4_rounds(st0, block@, i as int));
            }
        }
        self.s0 = self.s0.wrapping_add(a);
        self.s1 = self.s1.wrapping_add(b);
        self.s2 = self.s2.wrapping_add(c);
        self.s3 = self.s3.wrapping_add(d);
        proof {
            assert(self.words() =~= md4_compress(st0, block@));
        }
    }
}

// ---------------------------------------------------------------------------
// The MD4 digest
// ---------------------------------------------------------------------------

/// The 16-byte MD4 digest of `msg`.
pub open spec fn md4_digest(msg: Seq<u8>) -> Seq<u8> {
    words32_le_bytes(fold64::<State>(md4_init_words(), pad64(msg, false)), 16)
}

/// The MD4 digest is 16 bytes long whatever the message.
pub proof fn lemma_md4_digest_len(msg: Seq<u8>)
    ensures
        md4_digest(msg).len() == 16,
{
}

/// Streaming MD4.
#[derive(Clone)]
pub struct Md4 {
    engine: Engine64<State>,
}

impl Md4 {
    pub closed spec fn wf(&self) -> bool {
        &&& self.engine.wf()
        &&& self.engine.init_words() == md4_init_words()
    }

    /// Every byte fed so far, in order.
    pub closed spec fn bytes(&self) -> Seq<u8> {
        self.engine.bytes()
    }

    /// Feed more of the message. Only the concatenation of all bytes fed
    /// matters for the digest, never the chunking.
    pub fn update(&mut self, data: &[u8])
        requires
            old(self).wf(),
            old(self).bytes().len() + data@.len() <= MAX_MESSAGE_BYTES,
        ensures
            final(self).wf(),
            final(self).bytes() == old(self).bytes() + data@,
    {
        self.engine.update(data);
    }

    /// Write the digest of everything fed into the first 16 bytes of `out`,
    /// consuming the instance.
    pub fn result(self, out: &mut Vec<u8>)
        requires
            self.wf(),
            old(out)@.len() >= 16,
        ensures
            final(out)@.len() == old(out)@.len(),
            final(out)@ == md4_digest(self.bytes()) + old(out)@.skip(16),
    {
        let mut engine = self.engine;
        engine.finish(false);
        let st = engine.compressor();
        let mut ws: Vec<u32> = Vec::new();
        ws.push(st.s0);
        ws.push(st.s1);
        ws.push(st.s2);
        ws.push(st.s3);
        proof {
            assert(ws@ =~= st.words());
        }
        store_words32_le(&ws, 16, out);
    }
}

impl Default for Md4 {
    /// A fresh MD4 instance with the standard initial state.
    fn default() -> (d: Self)
        ensures
            d.wf(),
            d.bytes() == Seq::<u8>::empty(),
    {
        Md4 { engine: Engine64::new(State::new()) }
    }
}

} // verus!
