//! A cursor over received bytes that reads big-endian integers.
use vstd::prelude::*;

verus! {

/// `256` raised to the power `n`.
pub open spec fn pow256(n: nat) -> nat
    decreases n,
{
    if n == 0 {
        1
    } else {
        256 * pow256((n - 1) as nat)
    }
}

/// The unsigned number whose big-endian encoding is `s` (most significant byte first).
pub open spec fn be_uint(s: Seq<u8>) -> nat
    decreases s.len(),
{
    if s.len() == 0 {
        0
    } else {
        be_uint(s.drop_last()) * 256 + s.last() as nat
    }
}

/// The two's-complement value of the two bytes `s`, read big-endian.
pub open spec fn be_i16(s: Seq<u8>) -> int {
    let u = be_uint(s);
    if u >= 0x8000 { u - 0x1_0000 } else { u as int }
}

/// The two's-complement value of the four bytes `s`, read big-endian.
pub open spec fn be_i32(s: Seq<u8>) -> int {
    let u = be_uint(s);
    if u >= 0x8000_0000 { u - 0x1_0000_0000 } else { u as int }
}

/// The two's-complement value of the eight bytes `s`, read big-endian.
pub open spec fn be_i64(s: Seq<u8>) -> int {
    let u = be_uint(s);
    if u >= 0x8000_0000_0000_0000 { u - 0x1_0000_0000_0000_0000 } else { u as int }
}

/// The big-endian value of `s` is below `256^|s|`.
pub proof fn lemma_be_uint_bound(s: Seq<u8>)
    ensures
        be_uint(s) < pow256(s.len()),
    decreases s.len(),
{
    if s.len() > 0 {
        lemma_be_uint_bound(s.drop_last());
        let a = be_uint(s.drop_last());
        let p = pow256((s.len() - 1) as nat);
        let b = s.last() as nat;
        assert(a * 256 + b < 256 * p) by (nonlinear_arith)
            requires
                a < p,
                b < 256,
        ;
    }
}

/// The values of `256^n` for the widths this reader uses.
pub proof fn lemma_pow256_values()
    ensures
        pow256(1) == 0x100,
        pow256(2) == 0x1_0000,
        pow256(4) == 0x1_0000_0000,
        pow256(8) == 0x1_0000_0000_0000_0000,
{
    reveal_with_fuel(pow256, 9);
}

/// A read position inside a byte buffer. Its view is the sequence of bytes
/// not yet read; every read consumes bytes from the front of it.
pub struct ByteReader {
    data: Vec<u8>,
    pos: usize,
}

impl View for ByteReader {
    type V = Seq<u8>;

    open spec fn view(&self) -> Seq<u8> {
        self.data().skip(self.pos() as int)
    }
}

impl ByteReader {
    /// The whole buffer this reader walks through, read bytes included.
    pub closed spec fn data(&self) -> Seq<u8> {
        self.data@
    }

    /// The number of bytes already read.
    pub closed spec fn pos(&self) -> nat {
        self.pos as nat
    }

    /// The read position never passes the end of the buffer.
    #[verifier::type_invariant]
    pub open spec fn inv(self) -> bool {
        self.pos() <= self.data().len()
    }

    /// A reader positioned at the first byte of `data`.
    pub fn new(data: Vec<u8>) -> (r: Self)
        ensures
            r@ == data@,
            r.data() == data@,
            r.pos() == 0,
    {
        let r = ByteReader { data, pos: 0 };
        assert(r.data@.skip(0) =~= r.data@);
        r
    }

    /// Gives back the whole buffer, read bytes included.
    pub fn into_inner(self) -> (v: Vec<u8>)
        ensures
            v@ == self.data(),
    {
        self.data
    }

    /// The number of bytes not yet read.
    pub fn remaining(&self) -> (n: usize)
        ensures
            n == self@.len(),
    {
        proof {
            use_type_invariant(self);
        }
        self.data.len() - self.pos
    }

    /// Reads one byte.
    pub fn get_u8(&mut self) -> (b: u8)
        requires
            old(self)@.len() >= 1,
        ensures
            b == old(self)@[0],
            final(self)@ == old(self)@.skip(1),
            final(self).data() == old(self).data(),
            final(self).pos() == old(self).pos() + 1,
    {
        proof {
            use_type_invariant(&*self);
        }
        assert(old(self)@.len() == self.data.len() - self.pos);
        let b = self.data[self.pos];
        self.pos = self.pos + 1;
        assert(self.data@.skip(self.pos as int) =~= old(self)@.skip(1));
        b
    }

    /// Reads `n` bytes as one big-endian unsigned number.
    fn read_be(&mut self, n: usize) -> (v: u64)
        requires
            1 <= n <= 8,
            old(self)@.len() >= n,
        ensures
            v == be_uint(old(self)@.take(n as int)),
            final(self)@ == old(self)@.skip(n as int),
            final(self).data() == old(self).data(),
            final(self).pos() == old(self).pos() + n,
    {
        proof {
            use_type_invariant(&*self);
        }
        let ghost s = old(self)@;
        let start = self.pos;
        let mut acc: u64 = 0;
        let mut i: usize = 0;
        while i < n
            invariant
                1 <= n <= 8,
                i <= n,
                start + n <= self.data.len(),
                self.pos == start,
                s == self.data@.skip(start as int),
                acc == be_uint(s.take(i as int)),
            decreases n - i,
        {
            proof {
                assert(s.take(i + 1).drop_last() =~= s.take(i as int));
                lemma_be_uint_bound(s.take(i as int));
                lemma_pow256_mono(i as nat, 7);
                lemma_pow256_values();
            }
            let b = self.data[start + i];
            assert(b == s.take(i + 1).last());
            acc = acc * 256 + b as u64;
            i = i + 1;
        }
        self.pos = start + n;
        assert(self.data@.skip(self.pos as int) =~= s.skip(n as int));
        acc
    }

    /// Reads a big-endian `u16`.
    pub fn get_u16(&mut self) -> (v: u16)
        requires
            old(self)@.len() >= 2,
        ensures
            v == be_uint(old(self)@.take(2)),
            final(self)@ == old(self)@.skip(2),
            final(self).data() == old(self).data(),
            final(self).pos() == old(self).pos() + 2,
    {
        let v = self.read_be(2);
        proof {
            lemma_be_uint_bound(old(self)@.take(2));
            lemma_pow256_values();
        }
        v as u16
    }

    /// Reads a big-endian `i16`.
    pub fn get_i16(&mut self) -> (v: i16)
        requires
            old(self)@.len() >= 2,
        ensures
            v == be_i16(old(self)@.take(2)),
            final(self)@ == old(self)@.skip(2),
            final(self).data() == old(self).data(),
            final(self).pos() == old(self).pos() + 2,
    {
        let u = self.get_u16();
        if u >= 0x8000 {
            ((u - 0x8000) as i16) - 0x4000 - 0x4000
        } else {
            u as i16
        }
    }

    /// Reads a big-endian `i32`.
    pub fn get_i32(&mut self) -> (v: i32)
        requires
            old(self)@.len() >= 4,
        ensures
            v == be_i32(old(self)@.take(4)),
            final(self)@ == old(self)@.skip(4),
            final(self).data() == old(self).data(),
            final(self).pos() == old(self).pos() + 4,
    {
        let u = self.read_be(4);
        proof {
            lemma_be_uint_bound(old(self)@.take(4));
            lemma_pow256_values();
        }
        if u >= 0x8000_0000 {
            ((u - 0x8000_0000) as i32) + i32::MIN
        } else {
            u as i32
        }
    }

    /// Reads a big-endian `u64`.
    pub fn get_u64(&mut self) -> (v: u64)
        requires
            old(self)@.len() >= 8,
        ensures
            v == be_uint(old(self)@.take(8)),
            final(self)@ == old(self)@.skip(8),
            final(self).data() == old(self).data(),
            final(self).pos() == old(self).pos() + 8,
    {
        self.read_be(8)
    }

    /// Reads a big-endian `i64`.
    pub fn get_i64(&mut self) -> (v: i64)
        requires
            old(self)@.len() >= 8,
        ensures
            v == be_i64(old(self)@.take(8)),
            final(self)@ == old(self)@.skip(8),
            final(self).data() == old(self).data(),
            final(self).pos() == old(self).pos() + 8,
    {
        let u = self.read_be(8);
        if u >= 0x8000_0000_0000_0000 {
            ((u - 0x8000_0000_0000_0000) as i64) + i64::MIN
        } else {
            u as i64
        }
    }

    /// Copies the next `len` bytes out of the buffer.
    pub fn copy_to_vec(&mut self, len: usize) -> (v: Vec<u8>)
        requires
            len <= old(self)@.len(),
        ensures
            v@ == old(self)@.take(len as int),
            final(self)@ == old(self)@.skip(len as int),
            final(self).data() == old(self).data(),
            final(self).pos() == old(self).pos() + len,
    {
        proof {
            use_type_invariant(&*self);
        }
        let ghost s = old(self)@;
        let start = self.pos;
        let mut out: Vec<u8> = Vec::new();
        let mut i: usize = 0;
        while i < len
            invariant
                i <= len,
                start + len <= self.data.len(),
                self.pos == start,
                s == self.data@.skip(start as int),
                out@ == s.take(i as int),
            decreases len - i,
        {
            out.push(self.data[start + i]);
            i = i + 1;
            assert(out@ =~= s.take(i as int));
        }
        self.pos = start + len;
        assert(self.data@.skip(self.pos as int) =~= s.skip(len as int));
        out
    }
}

/// `256^a <= 256^b` when `a <= b`.
pub proof fn lemma_pow256_mono(a: nat, b: nat)
    requires
        a <= b,
    ensures
        pow256(a) <= pow256(b),
    decreases b,
{
    if a < b {
        lemma_pow256_mono(a, (b - 1) as nat);
    }
}

} // verus!
