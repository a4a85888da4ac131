//! The Merkle–Damgård engine: accumulates an arbitrarily chunked byte stream
//! into fixed-size blocks, hands each completed block to a compression core,
//! and finishes with the standard padding (a 0x80 byte, a zero fill, and the
//! bit count of the message in a trailing length field).
//!
//! `Engine64` works on 64-byte blocks over a 32-bit-word core; `Engine128` on
//! 128-byte blocks over a 64-bit-word core. Each engine carries the whole
//! message fed so far as a ghost sequence; its invariant ties the chaining
//! state and the pending buffer to that sequence alone, so the digest is
//! insensitive to how the input was split across `update` calls.

use crate::words::u64_le_byte;
use crate::words::u64_le_byte_at;
use vstd::prelude::*;

verus! {

/// Longest message, in bytes, whose bit count still fits the 64-bit length
/// field of the padding.
pub const MAX_MESSAGE_BYTES: u64 = 0x1fff_ffff_ffff_ffff;

/// A compression core over 64-byte blocks and a state of 32-bit words.
pub trait Core64: Sized {
    /// The chaining state, as a sequence of 32-bit words.
    spec fn words(&self) -> Seq<u32>;

    /// What one application of the compression function does to the state.
    spec fn compress_spec(st: Seq<u32>, block: Seq<u8>) -> Seq<u32>;

    /// Fold one full block into the state.
    fn compress(&mut self, block: &Vec<u8>)
        requires
            block@.len() == 64,
        ensures
            final(self).words() == Self::compress_spec(old(self).words(), block@),
    ;
}

/// A compression core over 128-byte blocks and a state of 64-bit words.
pub trait Core128: Sized {
    /// The chaining state, as a sequence of 64-bit words.
    spec fn words(&self) -> Seq<u64>;

    /// What one application of the compression function does to the state.
    spec fn compress_spec(st: Seq<u64>, block: Seq<u8>) -> Seq<u64>;

    /// Fold one full block into the state.
    fn compress(&mut self, block: &Vec<u8>)
        requires
            block@.len() == 128,
        ensures
            final(self).words() == Self::compress_spec(old(self).words(), block@),
    ;
}

// ---------------------------------------------------------------------------
// Folding complete blocks of a byte sequence into a state
// ---------------------------------------------------------------------------

/// The state after folding every complete 64-byte block of `data` into
/// `init`, front to back; a trailing partial block is ignored.
pub open spec fn fold64<C: Core64>(init: Seq<u32>, data: Seq<u8>) -> Seq<u32>
    decreases data.len(),
{
    if data.len() < 64 {
        init
    } else {
        fold64::<C>(C::compress_spec(init, data.take(64)), data.skip(64))
    }
}

/// The state after folding every complete 128-byte block of `data` into
/// `init`, front to back; a trailing partial block is ignored.
pub open spec fn fold128<C: Core128>(init: Seq<u64>, data: Seq<u8>) -> Seq<u64>
    decreases data.len(),
{
    if data.len() < 128 {
        init
    } else {
        fold128::<C>(C::compress_spec(init, data.take(128)), data.skip(128))
    }
}

/// The trailing bytes of `data` that do not form a complete block.
pub open spec fn residue(data: Seq<u8>, block_len: int) -> Seq<u8>
    recommends
        0 < block_len,
{
    data.skip(data.len() as int - (data.len() as int % block_len))
}

/// Appending one byte extends the residue while it stays short of a block.
proof fn lemma_residue64_push(data: Seq<u8>, b: u8)
    ensures
        data.len() % 64 < 63 ==> residue(data.push(b), 64) == residue(data, 64).push(b),
        data.len() % 64 == 63 ==> residue(data.push(b), 64) == Seq::<u8>::empty(),
{
    let d2 = data.push(b);
    let r = data.len() as int % 64;
    if r < 63 {
        assert((data.len() as int + 1) % 64 == r + 1);
        assert(residue(d2, 64) =~= residue(data, 64).push(b));
    } else {
        assert((data.len() as int + 1) % 64 == 0);
        assert(residue(d2, 64) =~= Seq::<u8>::empty());
    }
}

/// Dropping a whole leading block leaves the residue as it was.
proof fn lemma_residue64_skip(data: Seq<u8>)
    requires
        data.len() >= 64,
    ensures
        data.skip(64).len() % 64 == data.len() % 64,
        residue(data.skip(64), 64) == residue(data, 64),
{
    assert(residue(data.skip(64), 64) =~= residue(data, 64));
}

/// Counterpart of `lemma_residue64_push` for 128-byte blocks.
proof fn lemma_residue128_push(data: Seq<u8>, b: u8)
    ensures
        data.len() % 128 < 127 ==> residue(data.push(b), 128) == residue(data, 128).push(b),
        data.len() % 128 == 127 ==> residue(data.push(b), 128) == Seq::<u8>::empty(),
{
    let d2 = data.push(b);
    let r = data.len() as int % 128;
    if r < 127 {
        assert((data.len() as int + 1) % 128 == r + 1);
        assert(residue(d2, 128) =~= residue(data, 128).push(b));
    } else {
        assert((data.len() as int + 1) % 128 == 0);
        assert(residue(d2, 128) =~= Seq::<u8>::empty());
    }
}

/// Counterpart of `lemma_residue64_skip` for 128-byte blocks.
proof fn lemma_residue128_skip(data: Seq<u8>)
    requires
        data.len() >= 128,
    ensures
        data.skip(128).len() % 128 == data.len() % 128,
        residue(data.skip(128), 128) == residue(data, 128),
{
    assert(residue(data.skip(128), 128) =~= residue(data, 128));
}

/// Appending one byte leaves the fold alone until it completes a block, at
/// which point exactly that block is folded in.
#[verifier::rlimit(100)]
proof fn lemma_fold64_push<C: Core64>(init: Seq<u32>, data: Seq<u8>, b: u8)
    ensures
        data.len() % 64 < 63 ==> fold64::<C>(init, data.push(b)) == fold64::<C>(init, data),
        data.len() % 64 == 63 ==> fold64::<C>(init, data.push(b)) == C::compress_spec(
            fold64::<C>(init, data),
            residue(data, 64).push(b),
        ),
    decreases data.len(),
{
    let d2 = data.push(b);
    if data.len() < 63 {
    } else if data.len() == 63 {
        assert(d2.take(64) =~= d2);
        assert(d2.skip(64) =~= Seq::<u8>::empty());
        assert(residue(data, 64) =~= data);
        assert(fold64::<C>(C::compress_spec(init, d2), Seq::<u8>::empty()) == C::compress_spec(
            init,
            d2,
        ));
    } else {
        let tail = data.skip(64);
        assert(d2.take(64) =~= data.take(64));
        assert(d2.skip(64) =~= tail.push(b));
        lemma_fold64_push::<C>(C::compress_spec(init, data.take(64)), tail, b);
        lemma_residue64_skip(data);
        assert(fold64::<C>(init, d2) == fold64::<C>(
            C::compress_spec(init, data.take(64)),
            tail.push(b),
        ));
        assert(fold64::<C>(init, data) == fold64::<C>(C::compress_spec(init, data.take(64)), tail));
    }
}

/// Counterpart of `lemma_fold64_push` for 128-byte blocks.
#[verifier::rlimit(100)]
proof fn lemma_fold128_push<C: Core128>(init: Seq<u64>, data: Seq<u8>, b: u8)
    ensures
        data.len() % 128 < 127 ==> fold128::<C>(init, data.push(b)) == fold128::<C>(init, data),
        data.len() % 128 == 127 ==> fold128::<C>(init, data.push(b)) == C::compress_spec(
            fold128::<C>(init, data),
            residue(data, 128).push(b),
        ),
    decreases data.len(),
{
    let d2 = data.push(b);
    if data.len() < 127 {
    } else if data.len() == 127 {
        assert(d2.take(128) =~= d2);
        assert(d2.skip(128) =~= Seq::<u8>::empty());
        assert(residue(data, 128) =~= data);
        assert(fold128::<C>(C::compress_spec(init, d2), Seq::<u8>::empty()) == C::compress_spec(
            init,
            d2,
        ));
    } else {
        let tail = data.skip(128);
        assert(d2.take(128) =~= data.take(128));
        assert(d2.skip(128) =~= tail.push(b));
        lemma_fold128_push::<C>(C::compress_spec(init, data.take(128)), tail, b);
        lemma_residue128_skip(data);
        assert(fold128::<C>(init, d2) == fold128::<C>(
            C::compress_spec(init, data.take(128)),
            tail.push(b),
        ));
        assert(fold128::<C>(init, data) == fold128::<C>(
            C::compress_spec(init, data.take(128)),
            tail,
        ));
    }
}

/// Chunk insensitivity at the block level: the state after folding the
/// blocks of `m1 + m2` is the state after folding `m1`'s blocks and then,
/// starting from there, `m2`'s, whenever `m1` ends on a block boundary. An
/// engine may therefore fold input block by block as it arrives; the digest
/// of the padded message cannot depend on how the caller split it.
pub proof fn lemma_fold64_append<C: Core64>(init: Seq<u32>, m1: Seq<u8>, m2: Seq<u8>)
    requires
        m1.len() % 64 == 0,
    ensures
        fold64::<C>(init, m1 + m2) == fold64::<C>(fold64::<C>(init, m1), m2),
    decreases m1.len(),
{
    let m = m1 + m2;
    if m1.len() == 0 {
        assert(m =~= m2);
    } else {
        assert(m.take(64) =~= m1.take(64));
        assert(m.skip(64) =~= m1.skip(64) + m2);
        lemma_fold64_append::<C>(C::compress_spec(init, m1.take(64)), m1.skip(64), m2);
        assert(fold64::<C>(init, m) == fold64::<C>(C::compress_spec(init, m1.take(64)), m.skip(64)));
        assert(fold64::<C>(init, m1) == fold64::<C>(C::compress_spec(init, m1.take(64)), m1.skip(64)));
    }
}

/// Counterpart of `lemma_fold64_append` for 128-byte blocks.
pub proof fn lemma_fold128_append<C: Core128>(init: Seq<u64>, m1: Seq<u8>, m2: Seq<u8>)
    requires
        m1.len() % 128 == 0,
    ensures
        fold128::<C>(init, m1 + m2) == fold128::<C>(fold128::<C>(init, m1), m2),
    decreases m1.len(),
{
    let m = m1 + m2;
    if m1.len() == 0 {
        assert(m =~= m2);
    } else {
        assert(m.take(128) =~= m1.take(128));
        assert(m.skip(128) =~= m1.skip(128) + m2);
        lemma_fold128_append::<C>(C::compress_spec(init, m1.take(128)), m1.skip(128), m2);
        assert(fold128::<C>(init, m) == fold128::<C>(
            C::compress_spec(init, m1.take(128)),
            m.skip(128),
        ));
        assert(fold128::<C>(init, m1) == fold128::<C>(
            C::compress_spec(init, m1.take(128)),
            m1.skip(128),
        ));
    }
}

// ---------------------------------------------------------------------------
// The standard padding
// ---------------------------------------------------------------------------

/// `n` zero bytes.
pub open spec fn zero_bytes(n: nat) -> Seq<u8> {
    Seq::new(n, |i: int| 0u8)
}

/// The 8-byte length field holding `bit_count` in the given byte order.
pub open spec fn length_field(bit_count: u64, big_endian: bool) -> Seq<u8> {
    Seq::new(
        8,
        |i: int|
            if big_endian {
                u64_le_byte(bit_count, 7 - i)
            } else {
                u64_le_byte(bit_count, i)
            },
    )
}

/// How many zero bytes the padding inserts after the 0x80 byte so that the
/// 8-byte length field ends exactly on a 64-byte block boundary.
pub open spec fn pad_zeros64(len: int) -> int {
    if len % 64 < 56 {
        55 - len % 64
    } else {
        119 - len % 64
    }
}

/// How many zero bytes the padding inserts after the 0x80 byte for 128-byte
/// blocks. These algorithms reserve a 16-byte tail for the bit count; since
/// the count is held in 64 bits, its upper half is part of the zero fill and
/// the explicit length field stays 8 bytes.
pub open spec fn pad_zeros128(len: int) -> int {
    if len % 128 < 112 {
        119 - len % 128
    } else {
        247 - len % 128
    }
}

/// `msg` extended by the standard padding for 64-byte blocks: a 0x80 byte, a
/// zero fill, and the bit count of `msg` in an 8-byte length field.
pub open spec fn pad64(msg: Seq<u8>, big_endian: bool) -> Seq<u8> {
    msg + seq![0x80u8] + zero_bytes(pad_zeros64(msg.len() as int) as nat) + length_field(
        (msg.len() * 8) as u64,
        big_endian,
    )
}

/// `msg` extended by the standard padding for 128-byte blocks.
pub open spec fn pad128(msg: Seq<u8>, big_endian: bool) -> Seq<u8> {
    msg + seq![0x80u8] + zero_bytes(pad_zeros128(msg.len() as int) as nat) + length_field(
        (msg.len() * 8) as u64,
        big_endian,
    )
}

/// The padded message always ends on a block boundary, and a message that
/// already ends exactly on a block boundary gains one whole further block of
/// padding — never none, never a partial one — while its own bytes stay as
/// they are.
pub proof fn lemma_pad64_block_aligned(msg: Seq<u8>, big_endian: bool)
    requires
        msg.len() % 64 == 0,
    ensures
        pad64(msg, big_endian).len() == msg.len() + 64,
        pad64(msg, big_endian).take(msg.len() as int) == msg,
        pad64(msg, big_endian)[msg.len() as int] == 0x80,
{
    assert(pad64(msg, big_endian).take(msg.len() as int) =~= msg);
}

/// Counterpart of `lemma_pad64_block_aligned` for 128-byte blocks.
pub proof fn lemma_pad128_block_aligned(msg: Seq<u8>, big_endian: bool)
    requires
        msg.len() % 128 == 0,
    ensures
        pad128(msg, big_endian).len() == msg.len() + 128,
        pad128(msg, big_endian).take(msg.len() as int) == msg,
        pad128(msg, big_endian)[msg.len() as int] == 0x80,
{
    assert(pad128(msg, big_endian).take(msg.len() as int) =~= msg);
}

// ---------------------------------------------------------------------------
// The streaming engine, 64-byte blocks
// ---------------------------------------------------------------------------

/// Streaming buffer around a `Core64`.
#[derive(Clone)]
pub struct Engine64<C: Core64> {
    core: C,
    buf: Vec<u8>,
    length: u64,
    msg: Ghost<Seq<u8>>,
    init: Ghost<Seq<u32>>,
}

impl<C: Core64> Engine64<C> {
    /// Every byte fed to this engine so far, in order.
    pub closed spec fn bytes(&self) -> Seq<u8> {
        self.msg@
    }

    /// The state the core started from.
    pub closed spec fn init_words(&self) -> Seq<u32> {
        self.init@
    }

    /// The core's current chaining state.
    pub closed spec fn words(&self) -> Seq<u32> {
        self.core.words()
    }

    /// The state and the pending buffer agree with `cur` being the bytes
    /// absorbed so far.
    closed spec fn synced(&self, cur: Seq<u8>) -> bool {
        &&& self.buf@ == residue(cur, 64)
        &&& self.core.words() == fold64::<C>(self.init@, cur)
    }

    pub closed spec fn wf(&self) -> bool {
        &&& self.synced(self.msg@)
        &&& self.length == self.msg@.len()
        &&& self.msg@.len() <= MAX_MESSAGE_BYTES
    }

    pub fn new(core: C) -> (e: Self)
        ensures
            e.wf(),
            e.bytes() == Seq::<u8>::empty(),
            e.init_words() == core.words(),
    {
        let ghost iw = core.words();
        let e = Engine64 {
            core,
            buf: Vec::new(),
            length: 0,
            msg: Ghost(Seq::empty()),
            init: Ghost(iw),
        };
        proof {
            assert(e.buf@ =~= residue(Seq::<u8>::empty(), 64));
        }
        e
    }

    /// Read access to the compression core.
    pub fn compressor(&self) -> (c: &C)
        ensures
            c.words() == self.words(),
    {
        &self.core
    }

    /// Feed one byte, folding a block into the core when it completes one.
    fn absorb(&mut self, b: u8)
        requires
            old(self).synced(old(self).msg@),
        ensures
            final(self).msg@ == old(self).msg@.push(b),
            final(self).synced(final(self).msg@),
            final(self).length == old(self).length,
            final(self).init@ == old(self).init@,
    {
        proof {
            lemma_fold64_push::<C>(self.init@, self.msg@, b);
            lemma_residue64_push(self.msg@, b);
        }
        self.buf.push(b);
        self.msg = Ghost(self.msg@.push(b));
        if self.buf.len() == 64 {
            self.core.compress(&self.buf);
            self.buf.clear();
        }
    }

    /// Append `data` to the message. The digest that `finish` will later
    /// yield depends only on the concatenation of all bytes fed, never on
    /// how they were split across calls.
    pub fn update(&mut self, data: &[u8])
        requires
            old(self).wf(),
            old(self).bytes().len() + data@.len() <= MAX_MESSAGE_BYTES,
        ensures
            final(self).wf(),
            final(self).bytes() == old(self).bytes() + data@,
            final(self).init_words() == old(self).init_words(),
    {
        let ghost m0 = self.msg@;
        let ghost iw = self.init@;
        let ghost n0 = self.length;
        let mut i: usize = 0;
        while i < data.len()
            invariant
                i <= data@.len(),
                self.synced(self.msg@),
                self.msg@ == m0 + data@.take(i as int),
                self.length == n0,
                self.init@ == iw,
            decreases data@.len() - i,
        {
            let b = data[i];
            self.absorb(b);
            i = i + 1;
            proof {
                assert(data@.take(i as int) =~= data@.take(i - 1).push(b));
            }
        }
        proof {
            assert(m0 + data@.take(data@.len() as int) =~= m0 + data@);
        }
        self.length = self.length + data.len() as u64;
    }

    /// Absorb the standard padding and the length field, leaving the core at
    /// the state reached after every block of the padded message.
    pub fn finish(&mut self, big_endian: bool)
        requires
            old(self).wf(),
        ensures
            final(self).words() == fold64::<C>(
                old(self).init_words(),
                pad64(old(self).bytes(), big_endian),
            ),
    {
        let ghost m = self.msg@;
        let ghost iw = self.init@;
        let bit_count: u64 = self.length * 8;
        proof {
            assert(self.buf@.len() == m.len() % 64);
        }
        let r = self.buf.len();
        let zeros: usize = if r < 56 {
            55 - r
        } else {
            119 - r
        };
        self.absorb(0x80);
        let ghost m1 = m.push(0x80u8);
        let mut j: usize = 0;
        while j < zeros
            invariant
                j <= zeros,
                self.synced(self.msg@),
                self.msg@ == m1 + zero_bytes(j as nat),
                self.init@ == iw,
            decreases zeros - j,
        {
            self.absorb(0x00);
            j = j + 1;
            proof {
                assert(zero_bytes(j as nat) =~= zero_bytes((j - 1) as nat).push(0u8));
                assert(self.msg@ =~= m1 + zero_bytes(j as nat));
            }
        }
        let ghost m2 = m1 + zero_bytes(zeros as nat);
        let ghost field = length_field(bit_count, big_endian);
        let mut k: usize = 0;
        while k < 8
            invariant
                k <= 8,
                self.synced(self.msg@),
                self.msg@ == m2 + field.take(k as int),
                self.init@ == iw,
                bit_count == (m.len() * 8) as u64,
                field == length_field(bit_count, big_endian),
            decreases 8 - k,
        {
            let pos = if big_endian {
                7 - k
            } else {
                k
            };
            let byte = u64_le_byte_at(bit_count, pos);
            self.absorb(byte);
            k = k + 1;
            proof {
                assert(field.take(k as int) =~= field.take(k - 1).push(field[k - 1]));
                assert(self.msg@ =~= m2 + field.take(k as int));
            }
        }
        proof {
            assert(field.take(8) =~= field);
            assert(self.msg@ =~= pad64(m, big_endian));
        }
    }
}

// ---------------------------------------------------------------------------
// The streaming engine, 128-byte blocks
// ---------------------------------------------------------------------------

/// Streaming buffer around a `Core128`.
#[derive(Clone)]
pub struct Engine128<C: Core128> {
    core: C,
    buf: Vec<u8>,
    length: u64,
    msg: Ghost<Seq<u8>>,
    init: Ghost<Seq<u64>>,
}

impl<C: Core128> Engine128<C> {
    /// Every byte fed to this engine so far, in order.
    pub closed spec fn bytes(&self) -> Seq<u8> {
        self.msg@
    }

    /// The state the core started from.
    pub closed spec fn init_words(&self) -> Seq<u64> {
        self.init@
    }

    /// The core's current chaining state.
    pub closed spec fn words(&self) -> Seq<u64> {
        self.core.words()
    }

    /// The state and the pending buffer agree with `cur` being the bytes
    /// absorbed so far.
    closed spec fn synced(&self, cur: Seq<u8>) -> bool {
        &&& self.buf@ == residue(cur, 128)
        &&& self.core.words() == fold128::<C>(self.init@, cur)
    }

    pub closed spec fn wf(&self) -> bool {
        &&& self.synced(self.msg@)
        &&& self.length == self.msg@.len()
        &&& self.msg@.len() <= MAX_MESSAGE_BYTES
    }

    pub fn new(core: C) -> (e: Self)
        ensures
            e.wf(),
            e.bytes() == Seq::<u8>::empty(),
            e.init_words() == core.words(),
    {
        let ghost iw = core.words();
        let e = Engine128 {
            core,
            buf: Vec::new(),
            length: 0,
            msg: Ghost(Seq::empty()),
            init: Ghost(iw),
        };
        proof {
            assert(e.buf@ =~= residue(Seq::<u8>::empty(), 128));
        }
        e
    }

    /// Read access to the compression core.
    pub fn compressor(&self) -> (c: &C)
        ensures
            c.words() == self.words(),
    {
        &self.core
    }

    /// Feed one byte, folding a block into the core when it completes one.
    fn absorb(&mut self, b: u8)
        requires
            old(self).synced(old(self).msg@),
        ensures
            final(self).msg@ == old(self).msg@.push(b),
            final(self).synced(final(self).msg@),
            final(self).length == old(self).length,
            final(self).init@ == old(self).init@,
    {
        proof {
            lemma_fold128_push::<C>(self.init@, self.msg@, b);
            lemma_residue128_push(self.msg@, b);
        }
        self.buf.push(b);
        self.msg = Ghost(self.msg@.push(b));
        if self.buf.len() == 128 {
            self.core.compress(&self.buf);
            self.buf.clear();
        }
    }

    /// Append `data` to the message. The digest that `finish` will later
    /// yield depends only on the concatenation of all bytes fed, never on
    /// how they were split across calls.
    pub fn update(&mut self, data: &[u8])
        requires
            old(self).wf(),
            old(self).bytes().len() + data@.len() <= MAX_MESSAGE_BYTES,
        ensures
            final(self).wf(),
            final(self).bytes() == old(self).bytes() + data@,
            final(self).init_words() == old(self).init_words(),
    {
        let ghost m0 = self.msg@;
        let ghost iw = self.init@;
        let ghost n0 = self.length;
        let mut i: usize = 0;
        while i < data.len()
            invariant
                i <= data@.len(),
                self.synced(self.msg@),
                self.msg@ == m0 + data@.take(i as int),
                self.length == n0,
                self.init@ == iw,
            decreases data@.len() - i,
        {
            let b = data[i];
            self.absorb(b);
            i = i + 1;
            proof {
                assert(data@.take(i as int) =~= data@.take(i - 1).push(b));
            }
        }
        proof {
            assert(m0 + data@.take(data@.len() as int) =~= m0 + data@);
        }
        self.length = self.length + data.len() as u64;
    }

    /// Absorb the standard padding and the length field, leaving the core at
    /// the state reached after every block of the padded message.
    pub fn finish(&mut self, big_endian: bool)
        requires
            old(self).wf(),
        ensures
            final(self).words() == fold128::<C>(
                old(self).init_words(),
                pad128(old(self).bytes(), big_endian),
            ),
    {
        let ghost m = self.msg@;
        let ghost iw = self.init@;
        let bit_count: u64 = self.length * 8;
        proof {
            assert(self.buf@.len() == m.len() % 128);
        }
        let r = self.buf.len();
        let zeros: usize = if r < 112 {
            119 - r
        } else {
            247 - r
        };
        self.absorb(0x80);
        let ghost m1 = m.push(0x80u8);
        let mut j: usize = 0;
        while j < zeros
            invariant
                j <= zeros,
                self.synced(self.msg@),
                self.msg@ == m1 + zero_bytes(j as nat),
                self.init@ == iw,
            decreases zeros - j,
        {
            self.absorb(0x00);
            j = j + 1;
            proof {
                assert(zero_bytes(j as nat) =~= zero_bytes((j - 1) as nat).push(0u8));
                assert(self.msg@ =~= m1 + zero_bytes(j as nat));
            }
        }
        let ghost m2 = m1 + zero_bytes(zeros as nat);
        let ghost field = length_field(bit_count, big_endian);
        let mut k: usize = 0;
        while k < 8
            invariant
                k <= 8,
                self.synced(self.msg@),
                self.msg@ == m2 + field.take(k as int),
                self.init@ == iw,
                bit_count == (m.len() * 8) as u64,
                field == length_field(bit_count, big_endian),
            decreases 8 - k,
        {
            let pos = if big_endian {
                7 - k
            } else {
                k
            };
            let byte = u64_le_byte_at(bit_count, pos);
            self.absorb(byte);
            k = k + 1;
            proof {
                assert(field.take(k as int) =~= field.take(k - 1).push(field[k - 1]));
                assert(self.msg@ =~= m2 + field.take(k as int));
            }
        }
        proof {
            assert(field.take(8) =~= field);
            assert(self.msg@ =~= pad128(m, big_endian));
        }
    }
}

} // verus!
