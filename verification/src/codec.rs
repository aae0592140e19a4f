use vstd::prelude::*;
use vstd::arithmetic::div_mod::lemma_fundamental_div_mod;
use crate::sketch::Sketch;
use crate::ReadDataError;

verus! {

/// The little-endian value of the eight bytes at `off`.
pub open spec fn le64_at(b: Seq<u8>, off: int) -> int {
    b[off] as int + 0x100 * (b[off + 1] as int) + 0x1_0000 * (b[off + 2] as int) + 0x100_0000 * (
    b[off + 3] as int) + 0x1_0000_0000 * (b[off + 4] as int) + 0x100_0000_0000 * (b[off + 5] as int)
        + 0x1_0000_0000_0000 * (b[off + 6] as int) + 0x100_0000_0000_0000 * (b[off + 7] as int)
}

/// What a serialized sketch means: a 24-byte header of window size, k-mer
/// size and bucket count, each little-endian, followed by exactly that many
/// little-endian bucket counts. Anything else is not a sketch.
pub open spec fn parse_sketch(b: Seq<u8>) -> Option<(u64, u64, Seq<u64>)> {
    if b.len() < 24 {
        None
    } else {
        let w = le64_at(b, 0);
        let k = le64_at(b, 8);
        let n = le64_at(b, 16);
        if b.len() == 24 + 8 * n {
            Some(
                ((w as u64), (k as u64), Seq::new(n as nat, |i: int| le64_at(b, 24 + 8 * i) as u64)),
            )
        } else {
            None
        }
    }
}

/// Whether a sketch value is the one that a byte string deserializes to.
pub open spec fn deserializes_to(b: Seq<u8>, s: Sketch) -> bool {
    parse_sketch(b) == Some((s.w, s.k, s.buckets@))
}

proof fn lemma_le64_prefix(big: Seq<u8>, off: int, m: int)
    requires
        0 <= off,
        off + 8 <= m <= big.len(),
    ensures
        le64_at(big.take(m), off) == le64_at(big, off),
{
}

fn read_u64_le(b: &Vec<u8>, off: usize) -> (v: u64)
    requires
        off + 8 <= b@.len(),
    ensures
        v as int == le64_at(b@, off as int),
{
    // Pins b@.len() to a usize, so the index arithmetic below stays in range.
    let _len: usize = b.len();
    let v: u64 = (b[off] as u64) + (b[off + 1] as u64) * 0x100 + (b[off + 2] as u64) * 0x1_0000 + (
    b[off + 3] as u64) * 0x100_0000 + (b[off + 4] as u64) * 0x1_0000_0000 + (b[off + 5] as u64)
        * 0x100_0000_0000 + (b[off + 6] as u64) * 0x1_0000_0000_0000 + (b[off + 7] as u64)
        * 0x100_0000_0000_0000;
    v
}

fn push_u64_le(out: &mut Vec<u8>, v: u64)
    ensures
        final(out)@.len() == old(out)@.len() + 8,
        final(out)@.take(old(out)@.len() as int) == old(out)@,
        le64_at(final(out)@, old(out)@.len() as int) == v as int,
{
    let b0: u8 = (v % 0x100) as u8;
    let v1: u64 = v / 0x100;
    let b1: u8 = (v1 % 0x100) as u8;
    let v2: u64 = v1 / 0x100;
    let b2: u8 = (v2 % 0x100) as u8;
    let v3: u64 = v2 / 0x100;
    let b3: u8 = (v3 % 0x100) as u8;
    let v4: u64 = v3 / 0x100;
    let b4: u8 = (v4 % 0x100) as u8;
    let v5: u64 = v4 / 0x100;
    let b5: u8 = (v5 % 0x100) as u8;
    let v6: u64 = v5 / 0x100;
    let b6: u8 = (v6 % 0x100) as u8;
    let v7: u64 = v6 / 0x100;
    let b7: u8 = (v7 % 0x100) as u8;
    proof {
        lemma_fundamental_div_mod(v as int, 0x100);
        lemma_fundamental_div_mod(v1 as int, 0x100);
        lemma_fundamental_div_mod(v2 as int, 0x100);
        lemma_fundamental_div_mod(v3 as int, 0x100);
        lemma_fundamental_div_mod(v4 as int, 0x100);
        lemma_fundamental_div_mod(v5 as int, 0x100);
        lemma_fundamental_div_mod(v6 as int, 0x100);
        assert(v7 < 0x100);
    }
    out.push(b0);
    out.push(b1);
    out.push(b2);
    out.push(b3);
    out.push(b4);
    out.push(b5);
    out.push(b6);
    out.push(b7);
    proof {
        assert(final(out)@.take(old(out)@.len() as int) =~= old(out)@);
    }
}

impl Sketch {
    /// Serialize this sketch into the byte form that `from_bytes` reads back.
    pub fn to_bytes(&self) -> (r: Vec<u8>)
        requires
            self.buckets@.len() < 0x2000_0000_0000_0000,
        ensures
            deserializes_to(r@, *self),
            r@.len() == 24 + 8 * self.buckets@.len(),
    {
        let mut out: Vec<u8> = Vec::new();
        push_u64_le(&mut out, self.w);
        push_u64_le(&mut out, self.k);
        push_u64_le(&mut out, self.buckets.len() as u64);
        let mut i: usize = 0;
        while i < self.buckets.len()
            invariant
                0 <= i <= self.buckets@.len(),
                self.buckets@.len() < 0x2000_0000_0000_0000,
                out@.len() == 24 + 8 * i,
                le64_at(out@, 0) == self.w as int,
                le64_at(out@, 8) == self.k as int,
                le64_at(out@, 16) == self.buckets@.len() as int,
                forall|j: int|
                    0 <= j < i ==> le64_at(out@, 24 + 8 * j) == self.buckets@[j] as int,
            decreases self.buckets@.len() - i,
        {
            let ghost prev = out@;
            push_u64_le(&mut out, self.buckets[i]);
            proof {
                assert(prev == out@.take(prev.len() as int));
                lemma_le64_prefix(out@, 0, prev.len() as int);
                lemma_le64_prefix(out@, 8, prev.len() as int);
                lemma_le64_prefix(out@, 16, prev.len() as int);
                assert forall|j: int| 0 <= j < i + 1 implies le64_at(out@, 24 + 8 * j)
                    == self.buckets@[j] as int by {
                    if j < i {
                        lemma_le64_prefix(out@, 24 + 8 * j, prev.len() as int);
                    }
                }
            }
            i = i + 1;
        }
        proof {
            let n = self.buckets@.len() as int;
            assert(parse_sketch(out@) matches Some(p) && p.2 =~= self.buckets@);
        }
        out
    }

    /// Deserialize a sketch from bytes; exactly the byte strings that
    /// `parse_sketch` accepts succeed, and everything else is a decode error.
    pub fn from_bytes(b: &Vec<u8>) -> (r: Result<Sketch, ReadDataError>)
        ensures
            match r {
                Ok(s) => deserializes_to(b@, s),
                Err(e) => e == ReadDataError::DecodeError && parse_sketch(b@) is None,
            },
    {
        if b.len() < 24 {
            return Err(ReadDataError::DecodeError);
        }
        let w = read_u64_le(b, 0);
        let k = read_u64_le(b, 8);
        let n = read_u64_le(b, 16);
        let body = b.len() - 24;
        if body % 8 != 0 || (body / 8) as u64 != n {
            proof {
                if b@.len() == 24 + 8 * le64_at(b@, 16) {
                    assert(body == 8 * (n as int));
                    assert(body % 8 == 0 && body / 8 == n as int);
                }
            }
            return Err(ReadDataError::DecodeError);
        }
        let count = body / 8;
        let mut buckets: Vec<u64> = Vec::new();
        let mut i: usize = 0;
        while i < count
            invariant
                0 <= i <= count,
                b@.len() == 24 + 8 * count,
                b@.len() <= usize::MAX,
                buckets@.len() == i,
                forall|j: int| 0 <= j < i ==> buckets@[j] as int == le64_at(b@, 24 + 8 * j),
            decreases count - i,
        {
            buckets.push(read_u64_le(b, 24 + 8 * i));
            i = i + 1;
        }
        let s = Sketch { w, k, buckets };
        proof {
            assert(parse_sketch(b@) matches Some(p) && p.2 =~= s.buckets@);
        }
        Ok(s)
    }
}

} // verus!
