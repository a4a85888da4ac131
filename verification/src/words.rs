//! Word-level primitives shared by the hash cores: rotations, and
//! little/big-endian conversion between words and byte sequences.

use vstd::prelude::*;

verus! {

// ---------------------------------------------------------------------------
// Rotations
// ---------------------------------------------------------------------------

/// Left rotation of a 32-bit word.
pub open spec fn rotl32(x: u32, n: u32) -> u32
    recommends
        0 < n < 32,
{
    (x << n) | (x >> ((32 - n) as u32))
}

/// Right rotation of a 32-bit word.
pub open spec fn rotr32(x: u32, n: u32) -> u32
    recommends
        0 < n < 32,
{
    (x >> n) | (x << ((32 - n) as u32))
}

/// Right rotation of a 64-bit word.
pub open spec fn rotr64(x: u64, n: u64) -> u64
    recommends
        0 < n < 64,
{
    (x >> n) | (x << ((64 - n) as u64))
}

pub fn rotate_left32(x: u32, n: u32) -> (r: u32)
    requires
        0 < n < 32,
    ensures
        r == rotl32(x, n),
{
    (x << n) | (x >> (32 - n))
}

pub fn rotate_right32(x: u32, n: u32) -> (r: u32)
    requires
        0 < n < 32,
    ensures
        r == rotr32(x, n),
{
    (x >> n) | (x << (32 - n))
}

pub fn rotate_right64(x: u64, n: u64) -> (r: u64)
    requires
        0 < n < 64,
    ensures
        r == rotr64(x, n),
{
    (x >> n) | (x << (64 - n))
}

// ---------------------------------------------------------------------------
// Reading words out of byte sequences
// ---------------------------------------------------------------------------

/// The `i`-th little-endian 32-bit word of `b`.
pub open spec fn le_u32_at(b: Seq<u8>, i: int) -> u32
    recommends
        0 <= i,
        4 * i + 4 <= b.len(),
{
    (b[4 * i] as u32) | ((b[4 * i + 1] as u32) << 8) | ((b[4 * i + 2] as u32) << 16) | ((b[4 * i
        + 3] as u32) << 24)
}

/// The `i`-th big-endian 32-bit word of `b`.
pub open spec fn be_u32_at(b: Seq<u8>, i: int) -> u32
    recommends
        0 <= i,
        4 * i + 4 <= b.len(),
{
    ((b[4 * i] as u32) << 24) | ((b[4 * i + 1] as u32) << 16) | ((b[4 * i + 2] as u32) << 8) | (b[4
        * i + 3] as u32)
}

/// The `i`-th big-endian 64-bit word of `b`.
pub open spec fn be_u64_at(b: Seq<u8>, i: int) -> u64
    recommends
        0 <= i,
        8 * i + 8 <= b.len(),
{
    ((b[8 * i] as u64) << 56) | ((b[8 * i + 1] as u64) << 48) | ((b[8 * i + 2] as u64) << 40) | ((
    b[8 * i + 3] as u64) << 32) | ((b[8 * i + 4] as u64) << 24) | ((b[8 * i + 5] as u64) << 16) | ((
    b[8 * i + 6] as u64) << 8) | (b[8 * i + 7] as u64)
}

pub fn load_le_u32(b: &[u8], i: usize) -> (r: u32)
    requires
        4 * i + 4 <= b@.len(),
    ensures
        r == le_u32_at(b@, i as int),
{
    let _len = b.len();
    (b[4 * i] as u32) | ((b[4 * i + 1] as u32) << 8) | ((b[4 * i + 2] as u32) << 16) | ((b[4 * i
        + 3] as u32) << 24)
}

pub fn load_be_u32(b: &[u8], i: usize) -> (r: u32)
    requires
        4 * i + 4 <= b@.len(),
    ensures
        r == be_u32_at(b@, i as int),
{
    let _len = b.len();
    ((b[4 * i] as u32) << 24) | ((b[4 * i + 1] as u32) << 16) | ((b[4 * i + 2] as u32) << 8) | (b[4
        * i + 3] as u32)
}

pub fn load_be_u64(b: &[u8], i: usize) -> (r: u64)
    requires
        8 * i + 8 <= b@.len(),
    ensures
        r == be_u64_at(b@, i as int),
{
    let _len = b.len();
    ((b[8 * i] as u64) << 56) | ((b[8 * i + 1] as u64) << 48) | ((b[8 * i + 2] as u64) << 40) | ((
    b[8 * i + 3] as u64) << 32) | ((b[8 * i + 4] as u64) << 24) | ((b[8 * i + 5] as u64) << 16) | ((
    b[8 * i + 6] as u64) << 8) | (b[8 * i + 7] as u64)
}

// ---------------------------------------------------------------------------
// Breaking words into bytes
// ---------------------------------------------------------------------------

/// Byte `i` of `w` in little-endian order (byte 0 is the least significant).
pub open spec fn u32_le_byte(w: u32, i: int) -> u8
    recommends
        0 <= i < 4,
{
    if i == 0 {
        (w & 0xff) as u8
    } else if i == 1 {
        ((w >> 8) & 0xff) as u8
    } else if i == 2 {
        ((w >> 16) & 0xff) as u8
    } else {
        ((w >> 24) & 0xff) as u8
    }
}

/// Byte `i` of `w` in little-endian order (byte 0 is the least significant).
pub open spec fn u64_le_byte(w: u64, i: int) -> u8
    recommends
        0 <= i < 8,
{
    if i == 0 {
        (w & 0xff) as u8
    } else if i == 1 {
        ((w >> 8) & 0xff) as u8
    } else if i == 2 {
        ((w >> 16) & 0xff) as u8
    } else if i == 3 {
        ((w >> 24) & 0xff) as u8
    } else if i == 4 {
        ((w >> 32) & 0xff) as u8
    } else if i == 5 {
        ((w >> 40) & 0xff) as u8
    } else if i == 6 {
        ((w >> 48) & 0xff) as u8
    } else {
        ((w >> 56) & 0xff) as u8
    }
}

proof fn lemma_mask32(x: u32)
    ensures
        x & 0xff <= 0xff,
{
    assert(x & 0xff <= 0xff) by (bit_vector);
}

proof fn lemma_mask64(x: u64)
    ensures
        x & 0xff <= 0xff,
{
    assert(x & 0xff <= 0xff) by (bit_vector);
}

pub fn u32_le_byte_at(w: u32, i: usize) -> (r: u8)
    requires
        i < 4,
    ensures
        r == u32_le_byte(w, i as int),
{
    let shifted: u32 = if i == 0 {
        w
    } else if i == 1 {
        w >> 8
    } else if i == 2 {
        w >> 16
    } else {
        w >> 24
    };
    proof {
        lemma_mask32(shifted);
    }
    (shifted & 0xff) as u8
}

pub fn u64_le_byte_at(w: u64, i: usize) -> (r: u8)
    requires
        i < 8,
    ensures
        r == u64_le_byte(w, i as int),
{
    let shifted: u64 = if i == 0 {
        w
    } else if i == 1 {
        w >> 8
    } else if i == 2 {
        w >> 16
    } else if i == 3 {
        w >> 24
    } else if i == 4 {
        w >> 32
    } else if i == 5 {
        w >> 40
    } else if i == 6 {
        w >> 48
    } else {
        w >> 56
    };
    proof {
        lemma_mask64(shifted);
    }
    (shifted & 0xff) as u8
}

// ---------------------------------------------------------------------------
// Serializing whole states
// ---------------------------------------------------------------------------

/// The first `n` bytes of the little-endian serialization of `ws`.
pub open spec fn words32_le_bytes(ws: Seq<u32>, n: nat) -> Seq<u8>
    recommends
        n <= 4 * ws.len(),
{
    Seq::new(n, |i: int| u32_le_byte(ws[i / 4], i % 4))
}

/// The first `n` bytes of the big-endian serialization of `ws`.
pub open spec fn words32_be_bytes(ws: Seq<u32>, n: nat) -> Seq<u8>
    recommends
        n <= 4 * ws.len(),
{
    Seq::new(n, |i: int| u32_le_byte(ws[i / 4], 3 - i % 4))
}

/// The first `n` bytes of the big-endian serialization of `ws`.
pub open spec fn words64_be_bytes(ws: Seq<u64>, n: nat) -> Seq<u8>
    recommends
        n <= 8 * ws.len(),
{
    Seq::new(n, |i: int| u64_le_byte(ws[i / 8], 7 - i % 8))
}

/// Overwrite the first `n` bytes of `out` with the little-endian
/// serialization of `ws`, leaving the rest of `out` as it was.
pub fn store_words32_le(ws: &Vec<u32>, n: usize, out: &mut Vec<u8>)
    requires
        n <= 4 * ws@.len(),
        old(out)@.len() >= n,
    ensures
        final(out)@.len() == old(out)@.len(),
        final(out)@ == words32_le_bytes(ws@, n as nat) + old(out)@.skip(n as int),
{
    let ghost o0 = out@;
    let mut i: usize = 0;
    while i < n
        invariant
            i <= n,
            n <= 4 * ws@.len(),
            out@.len() == o0.len(),
            o0.len() >= n,
            forall|j: int| 0 <= j < i ==> out@[j] == words32_le_bytes(ws@, n as nat)[j],
            forall|j: int| i <= j < o0.len() ==> out@[j] == o0[j],
        decreases n - i,
    {
        let byte = u32_le_byte_at(ws[i / 4], i % 4);
        out[i] = byte;
        i = i + 1;
    }
    proof {
        assert(out@ =~= words32_le_bytes(ws@, n as nat) + o0.skip(n as int));
    }
}

/// Overwrite the first `n` bytes of `out` with the big-endian serialization
/// of `ws`, leaving the rest of `out` as it was.
pub fn store_words32_be(ws: &Vec<u32>, n: usize, out: &mut Vec<u8>)
    requires
        n <= 4 * ws@.len(),
        old(out)@.len() >= n,
    ensures
        final(out)@.len() == old(out)@.len(),
        final(out)@ == words32_be_bytes(ws@, n as nat) + old(out)@.skip(n as int),
{
    let ghost o0 = out@;
    let mut i: usize = 0;
    while i < n
        invariant
            i <= n,
            n <= 4 * ws@.len(),
            out@.len() == o0.len(),
            o0.len() >= n,
            forall|j: int| 0 <= j < i ==> out@[j] == words32_be_bytes(ws@, n as nat)[j],
            forall|j: int| i <= j < o0.len() ==> out@[j] == o0[j],
        decreases n - i,
    {
        let byte = u32_le_byte_at(ws[i / 4], 3 - (i % 4));
        out[i] = byte;
        i = i + 1;
    }
    proof {
        assert(out@ =~= words32_be_bytes(ws@, n as nat) + o0.skip(n as int));
    }
}

/// Overwrite the first `n` bytes of `out` with the big-endian serialization
/// of `ws`, leaving the rest of `out` as it was.
pub fn store_words64_be(ws: &Vec<u64>, n: usize, out: &mut Vec<u8>)
    requires
        n <= 8 * ws@.len(),
        old(out)@.len() >= n,
    ensures
        final(out)@.len() == old(out)@.len(),
        final(out)@ == words64_be_bytes(ws@, n as nat) + old(out)@.skip(n as int),
{
    let ghost o0 = out@;
    let mut i: usize = 0;
    while i < n
        invariant
            i <= n,
            n <= 8 * ws@.len(),
            out@.len() == o0.len(),
            o0.len() >= n,
            forall|j: int| 0 <= j < i ==> out@[j] == words64_be_bytes(ws@, n as nat)[j],
            forall|j: int| i <= j < o0.len() ==> out@[j] == o0[j],
        decreases n - i,
    {
        let byte = u64_le_byte_at(ws[i / 8], 7 - (i % 8));
        out[i] = byte;
        i = i + 1;
    }
    proof {
        assert(out@ =~= words64_be_bytes(ws@, n as nat) + o0.skip(n as int));
    }
}

} // verus!
