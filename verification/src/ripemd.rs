//! RIPEMD-160: a 5×32-bit-word state over 64-byte blocks, with the
//! distinguishing dual-pipeline compression function. Two independently
//! parameterized 80-round pipelines start from the same state and are
//! cross-combined with it at the end. All words are little-endian.

use crate::engine::Core64;
use crate::engine::Engine64;
use crate::engine::MAX_MESSAGE_BYTES;
use crate::engine::fold64;
use crate::engine::pad64;
use crate::words::le_u32_at;
use crate::words::load_le_u32;
use crate::words::rotate_left32;
use crate::words::rotl32;
use crate::words::store_words32_le;
use crate::words::words32_le_bytes;
use vstd::prelude::*;

verus! {

// ---------------------------------------------------------------------------
// Round parameter tables
// ---------------------------------------------------------------------------

/// Message-word pick order of the left pipeline.
pub const LEFT_PICK: [usize; 80] = [
    0, 1, 2, 3, 4, 5, 6, 7, 8, 9, 10, 11, 12, 13, 14, 15,
    7, 4, 13, 1, 10, 6, 15, 3, 12, 0, 9, 5, 2, 14, 11, 8,
    3, 10, 14, 4, 9, 15, 8, 1, 2, 7, 0, 6, 13, 11, 5, 12,
    1, 9, 11, 10, 0, 8, 12, 4, 13, 3, 7, 15, 14, 5, 6, 2,
    4, 0, 5, 9, 7, 12, 2, 10, 14, 1, 3, 8, 11, 6, 15, 13,
];

/// Message-word pick order of the right pipeline.
pub const RIGHT_PICK: [usize; 80] = [
    5, 14, 7, 0, 9, 2, 11, 4, 13, 6, 15, 8, 1, 10, 3, 12,
    6, 11, 3, 7, 0, 13, 5, 10, 14, 15, 8, 12, 4, 9, 1, 2,
    15, 5, 1, 3, 7, 14, 6, 9, 11, 8, 12, 2, 10, 0, 4, 13,
    8, 6, 4, 1, 3, 11, 15, 0, 5, 12, 2, 13, 9, 7, 10, 14,
    12, 15, 10, 4, 1, 5, 8, 7, 6, 2, 13, 14, 0, 3, 9, 11,
];

/// Rotation amounts of the left pipeline.
pub const LEFT_ROTATE: [u32; 80] = [
    11, 14, 15, 12, 5, 8, 7, 9, 11, 13, 14, 15, 6, 7, 9, 8,
    7, 6, 8, 13, 11, 9, 7, 15, 7, 12, 15, 9, 11, 7, 13, 12,
    11, 13, 6, 7, 14, 9, 13, 15, 14, 8, 13, 6, 5, 12, 7, 5,
    11, 12, 14, 15, 14, 15, 9, 8, 9, 14, 5, 6, 8, 6, 5, 12,
    9, 15, 5, 11, 6, 8, 13, 12, 5, 12, 13, 14, 11, 8, 5, 6,
];

/// Rotation amounts of the right pipeline.
pub const RIGHT_ROTATE: [u32; 80] = [
    8, 9, 9, 11, 13, 15, 15, 5, 7, 7, 8, 11, 14, 14, 12, 6,
    9, 13, 15, 7, 12, 8, 9, 11, 7, 7, 12, 7, 6, 15, 13, 11,
    9, 7, 15, 11, 8, 6, 6, 14, 12, 13, 5, 14, 13, 13, 7, 5,
    15, 5, 8, 11, 14, 14, 6, 14, 6, 9, 12, 9, 12, 5, 15, 8,
    8, 5, 12, 9, 12, 5, 14, 6, 8, 13, 6, 5, 15, 13, 11, 11,
];

/// Additive constants of the left pipeline, one per 16-round phase.
pub const LEFT_CONST: [u32; 5] = [0x00000000, 0x5a827999, 0x6ed9eba1, 0x8f1bbcdc, 0xa953fd4e];

/// Additive constants of the right pipeline, one per 16-round phase.
pub const RIGHT_CONST: [u32; 5] = [0x50a28be6, 0x5c4dd124, 0x6d703ef3, 0x7a6d76e9, 0x00000000];

/// RIPEMD-160 initial chaining state.
pub open spec fn ripemd_init_words() -> Seq<u32> {
    seq![0x67452301u32, 0xefcdab89u32, 0x98badcfeu32, 0x10325476u32, 0xc3d2e1f0u32]
}

// ---------------------------------------------------------------------------
// The compression function
// ---------------------------------------------------------------------------

/// The five nonlinear round functions, selected by phase: the left pipeline
/// walks them forward, the right pipeline backward.
pub open spec fn rmd_f(j: int, x: u32, y: u32, z: u32) -> u32
    recommends
        0 <= j < 5,
{
    if j == 0 {
        x ^ y ^ z
    } else if j == 1 {
        (x & y) | (!x & z)
    } else if j == 2 {
        (x | !y) ^ z
    } else if j == 3 {
        (x & z) | (y & !z)
    } else {
        x ^ (y | !z)
    }
}

/// One pipeline's 5-word working set after `i` rounds, starting from `st`.
pub open spec fn ripemd_side(st: Seq<u32>, block: Seq<u8>, left: bool, i: int) -> Seq<u32>
    recommends
        st.len() == 5,
        block.len() == 64,
        0 <= i <= 80,
    decreases i,
{
    if i <= 0 {
        st
    } else {
        let p = ripemd_side(st, block, left, i - 1);
        let j = (i - 1) / 16;
        let x = le_u32_at(
            block,
            (if left {
                LEFT_PICK[i - 1]
            } else {
                RIGHT_PICK[i - 1]
            }) as int,
        );
        let k = if left {
            LEFT_CONST[j]
        } else {
            RIGHT_CONST[j]
        };
        let rot = if left {
            LEFT_ROTATE[i - 1]
        } else {
            RIGHT_ROTATE[i - 1]
        };
        let func = if left {
            j
        } else {
            4 - j
        };
        let t = rotl32(
            p[0].wrapping_add(rmd_f(func, p[1], p[2], p[3])).wrapping_add(x).wrapping_add(k),
            rot,
        ).wrapping_add(p[4]);
        seq![p[4], t, p[1], rotl32(p[2], 10), p[3]]
    }
}

/// One application of the RIPEMD-160 compression function: run both
/// pipelines for 80 rounds, then cross-combine them with the prior state.
pub open spec fn ripemd_compress(st: Seq<u32>, block: Seq<u8>) -> Seq<u32>
    recommends
        st.len() == 5,
        block.len() == 64,
{
    let l = ripemd_side(st, block, true, 80);
    let r = ripemd_side(st, block, false, 80);
    seq![
        st[1].wrapping_add(l[2]).wrapping_add(r[3]),
        st[2].wrapping_add(l[3]).wrapping_add(r[4]),
        st[3].wrapping_add(l[4]).wrapping_add(r[0]),
        st[4].wrapping_add(l[0]).wrapping_add(r[1]),
        st[0].wrapping_add(l[1]).wrapping_add(r[2]),
    ]
}

fn rmd_fx(j: usize, x: u32, y: u32, z: u32) -> (r: u32)
    requires
        j < 5,
    ensures
        r == rmd_f(j as int, x, y, z),
{
    if j == 0 {
        x ^ y ^ z
    } else if j == 1 {
        (x & y) | (!x & z)
    } else if j == 2 {
        (x | !y) ^ z
    } else if j == 3 {
        (x & z) | (y & !z)
    } else {
        x ^ (y | !z)
    }
}

/// The 5×32-bit chaining state of the RIPEMD-160 core.
#[derive(Clone, Copy, Debug)]
pub struct State {
    pub s0: u32,
    pub s1: u32,
    pub s2: u32,
    pub s3: u32,
    pub s4: u32,
}

impl State {
    /// The standard RIPEMD-160 initial state.
    pub fn new() -> (st: Self)
        ensures
            st.words() == ripemd_init_words(),
    {
        let st = State {
            s0: 0x67452301,
            s1: 0xefcdab89,
            s2: 0x98badcfe,
            s3: 0x10325476,
            s4: 0xc3d2e1f0,
        };
        proof {
            assert(st.words() =~= ripemd_init_words());
        }
        st
    }
}

impl Core64 for State {
    open spec fn words(&self) -> Seq<u32> {
        seq![self.s0, self.s1, self.s2, self.s3, self.s4]
    }

    open spec fn compress_spec(st: Seq<u32>, block: Seq<u8>) -> Seq<u32> {
        ripemd_compress(st, block)
    }

    fn compress(&mut self, block: &Vec<u8>) {
        let ghost st0 = self.words();
        let mut x: Vec<u32> = Vec::new();
        let mut i: usize = 0;
        while i < 16
            invariant
                block@.len() == 64,
                i <= 16,
                x@.len() == i,
                forall|j: int| 0 <= j < i ==> x@[j] == le_u32_at(block@, j),
            decreases 16 - i,
        {
            x.push(load_le_u32(block.as_slice(), i));
            i = i + 1;
        }
        let mut la = self.s0;
        let mut lb = self.s1;
        let mut lc = self.s2;
        let mut ld = self.s3;
        let mut le = self.s4;
        let mut ra = self.s0;
        let mut rb = self.s1;
        let mut rc = self.s2;
        let mut rd = self.s3;
        let mut re = self.s4;
        let mut i: usize = 0;
        while i < 80
            invariant
                block@.len() == 64,
                i <= 80,
                x@.len() == 16,
                forall|j: int| 0 <= j < 16 ==> x@[j] == le_u32_at(block@, j),
                seq![la, lb, lc, ld, le] == ripemd_side(st0, block@, true, i as int),
                seq![ra, rb, rc, rd, re] == ripemd_side(st0, block@, false, i as int),
            decreases 80 - i,
        {
            let j = i / 16;
            let lt = rotate_left32(
                la.wrapping_add(rmd_fx(j, lb, lc, ld)).wrapping_add(
                    x[LEFT_PICK[i]],
                ).wrapping_add(LEFT_CONST[j]),
                LEFT_ROTATE[i],
            ).wrapping_add(le);
            la = le;
            le = ld;
            ld = rotate_left32(lc, 10);
            lc = lb;
            lb = lt;
            let rt = rotate_left32(
                ra.wrapping_add(rmd_fx(4 - j, rb, rc, rd)).wrapping_add(
                    x[RIGHT_PICK[i]],
                ).wrapping_add(RIGHT_CONST[j]),
                RIGHT_ROTATE[i],
            ).wrapping_add(re);
            ra = re;
            re = rd;
            rd = rotate_left32(rc, 10);
            rc = rb;
            rb = rt;
            i = i + 1;
            proof {
                assert(seq![la, lb, lc, ld, le] =~= ripemd_side(st0, block@, true, i as int));
                assert(seq![ra, rb, rc, rd, re] =~= ripemd_side(st0, block@, false, i as int));
            }
        }
        let n0 = self.s1.wrapping_add(lc).wrapping_add(rd);
        let n1 = self.s2.wrapping_add(ld).wrapping_add(re);
        let n2 = self.s3.wrapping_add(le).wrapping_add(ra);
        let n3 = self.s4.wrapping_add(la).wrapping_add(rb);
        let n4 = self.s0.wrapping_add(lb).wrapping_add(rc);
        self.s0 = n0;
        self.s1 = n1;
        self.s2 = n2;
        self.s3 = n3;
        self.s4 = n4;
        proof {
            assert(self.words() =~= ripemd_compress(st0, block@));
        }
    }
}

// ---------------------------------------------------------------------------
// The RIPEMD-160 digest
// ---------------------------------------------------------------------------

/// The 20-byte RIPEMD-160 digest of `msg`.
pub open spec fn ripemd160_digest(msg: Seq<u8>) -> Seq<u8> {
    words32_le_bytes(fold64::<State>(ripemd_init_words(), pad64(msg, false)), 20)
}

/// The RIPEMD-160 digest is 20 bytes long whatever the message.
pub proof fn lemma_ripemd160_digest_len(msg: Seq<u8>)
    ensures
        ripemd160_digest(msg).len() == 20,
{
}

/// Streaming RIPEMD-160.
#[derive(Clone)]
pub struct Ripemd160 {
    engine: Engine64<State>,
}

impl Ripemd160 {
    pub closed spec fn wf(&self) -> bool {
        &&& self.engine.wf()
        &&& self.engine.init_words() == ripemd_init_words()
    }

    /// Every byte fed so far, in order.
    pub closed spec fn bytes(&self) -> Seq<u8> {
        self.engine.bytes()
    }

    /// Feed more of the message. Only the concatenation of all bytes fed
    /// matters for the digest, never the chunking.
    pub fn update(&mut self, data: &[u8])
        requires
            old(self).wf(),
            old(self).bytes().len() + data@.len() <= MAX_MESSAGE_BYTES,
        ensures
            final(self).wf(),
            final(self).bytes() == old(self).bytes() + data@,
    {
        self.engine.update(data);
    }

    /// Write the digest of everything fed into the first 20 bytes of `out`,
    /// consuming the instance.
    pub fn result(self, out: &mut Vec<u8>)
        requires
            self.wf(),
            old(out)@.len() >= 20,
        ensures
            final(out)@.len() == old(out)@.len(),
            final(out)@ == ripemd160_digest(self.bytes()) + old(out)@.skip(20),
    {
        let mut engine = self.engine;
        engine.finish(false);
        let st = engine.compressor();
        let mut ws: Vec<u32> = Vec::new();
        ws.push(st.s0);
        ws.push(st.s1);
        ws.push(st.s2);
        ws.push(st.s3);
        ws.push(st.s4);
        proof {
            assert(ws@ =~= st.words());
        }
        store_words32_le(&ws, 20, out);
    }
}

impl Default for Ripemd160 {
    /// A fresh RIPEMD-160 instance with the standard initial state.
    fn default() -> (d: Self)
        ensures
            d.wf(),
            d.bytes() == Seq::<u8>::empty(),
    {
        Ripemd160 { engine: Engine64::new(State::new()) }
    }
}

} // verus!
