use vstd::prelude::*;
use vstd::arithmetic::mul::lemma_mul_inequality;

verus! {

/// A compact summary of a sequence: a vector of bucket counts together with
/// the window and k-mer sizes it was built for. Internal tree nodes merge the
/// sketches of their children bucket-wise; comparison is a normalized
/// distance over the bucket vectors.
#[derive(Clone, Debug, PartialEq, Eq)]
pub struct Sketch {
    pub w: u64,
    pub k: u64,
    pub buckets: Vec<u64>,
}

/// A similarity score as an exact rational `num / den`, with `0 <= num <= den`
/// and `den >= 1`, so the score always lies in `[0, 1]`.
#[derive(Clone, Copy, Debug, PartialEq, Eq, Structural)]
pub struct Score {
    pub num: u128,
    pub den: u128,
}

/// The bucket at position `i`, with absent positions counting as empty.
pub open spec fn bucket_at(s: Seq<u64>, i: int) -> u64 {
    if 0 <= i < s.len() {
        s[i]
    } else {
        0u64
    }
}

/// Absolute difference of two bucket counts.
pub open spec fn abs_diff(x: u64, y: u64) -> int {
    if x >= y {
        x - y
    } else {
        y - x
    }
}

/// Larger of two bucket counts.
pub open spec fn max_bucket(x: u64, y: u64) -> int {
    if x >= y {
        x as int
    } else {
        y as int
    }
}

/// Sum over the first `n` positions of the absolute bucket differences.
pub open spec fn diff_sum(a: Seq<u64>, b: Seq<u64>, n: int) -> int
    decreases n,
{
    if n <= 0 {
        0
    } else {
        diff_sum(a, b, n - 1) + abs_diff(bucket_at(a, n - 1), bucket_at(b, n - 1))
    }
}

/// Sum over the first `n` positions of the larger bucket count.
pub open spec fn max_sum(a: Seq<u64>, b: Seq<u64>, n: int) -> int
    decreases n,
{
    if n <= 0 {
        0
    } else {
        max_sum(a, b, n - 1) + max_bucket(bucket_at(a, n - 1), bucket_at(b, n - 1))
    }
}

/// Number of positions compared between two bucket vectors.
pub open spec fn cmp_len(a: Seq<u64>, b: Seq<u64>) -> int {
    if a.len() >= b.len() {
        a.len() as int
    } else {
        b.len() as int
    }
}

/// Numerator of the similarity score of two sketches: total weight minus the
/// distance mass. Two sketches with no weight at all count as identical.
pub open spec fn sim_num(a: Sketch, b: Sketch) -> int {
    let n = cmp_len(a.buckets@, b.buckets@);
    if max_sum(a.buckets@, b.buckets@, n) == 0 {
        1
    } else {
        max_sum(a.buckets@, b.buckets@, n) - diff_sum(a.buckets@, b.buckets@, n)
    }
}

/// Denominator of the similarity score of two sketches.
pub open spec fn sim_den(a: Sketch, b: Sketch) -> int {
    let n = cmp_len(a.buckets@, b.buckets@);
    if max_sum(a.buckets@, b.buckets@, n) == 0 {
        1
    } else {
        max_sum(a.buckets@, b.buckets@, n)
    }
}

/// The bucket vector after merging `b` into `a`: position-wise saturating
/// addition, over the longer of the two vectors.
pub open spec fn merged_buckets(a: Seq<u64>, b: Seq<u64>) -> Seq<u64> {
    Seq::new(
        cmp_len(a, b) as nat,
        |i: int|
            if bucket_at(a, i) + bucket_at(b, i) <= u64::MAX {
                (bucket_at(a, i) + bucket_at(b, i)) as u64
            } else {
                u64::MAX
            },
    )
}

/// Whether `m` is the sketch obtained by merging `other` into `target`: the
/// target keeps its own parameters and gains the other's bucket weight.
pub open spec fn is_merge_of(m: Sketch, target: Sketch, other: Sketch) -> bool {
    m.w == target.w && m.k == target.k && m.buckets@ == merged_buckets(
        target.buckets@,
        other.buckets@,
    )
}

proof fn lemma_diff_le_max(a: Seq<u64>, b: Seq<u64>, n: int)
    ensures
        0 <= diff_sum(a, b, n) <= max_sum(a, b, n),
    decreases n,
{
    if n > 0 {
        lemma_diff_le_max(a, b, n - 1);
    }
}

proof fn lemma_max_sum_bound(a: Seq<u64>, b: Seq<u64>, n: int)
    requires
        n >= 0,
    ensures
        max_sum(a, b, n) <= n * (u64::MAX as int),
    decreases n,
{
    if n > 0 {
        lemma_max_sum_bound(a, b, n - 1);
        assert(n * (u64::MAX as int) == (n - 1) * (u64::MAX as int) + u64::MAX as int)
            by (nonlinear_arith);
    }
}

proof fn lemma_sums_symmetric(a: Seq<u64>, b: Seq<u64>, n: int)
    ensures
        diff_sum(a, b, n) == diff_sum(b, a, n),
        max_sum(a, b, n) == max_sum(b, a, n),
    decreases n,
{
    if n > 0 {
        lemma_sums_symmetric(a, b, n - 1);
    }
}

proof fn lemma_diff_sum_self_zero(a: Seq<u64>, n: int)
    ensures
        diff_sum(a, a, n) == 0,
    decreases n,
{
    if n > 0 {
        lemma_diff_sum_self_zero(a, n - 1);
    }
}

/// Similarity is symmetric: scoring `a` against `b` gives the same rational
/// as scoring `b` against `a`.
pub proof fn lemma_similarity_symmetric(a: Sketch, b: Sketch)
    ensures
        sim_num(a, b) == sim_num(b, a),
        sim_den(a, b) == sim_den(b, a),
{
    let n = cmp_len(a.buckets@, b.buckets@);
    lemma_sums_symmetric(a.buckets@, b.buckets@, n);
}

/// Similarity is reflexive: scoring any sketch against itself gives exactly
/// one, whether or not the sketch carries any weight.
pub proof fn lemma_similarity_reflexive(a: Sketch)
    ensures
        sim_num(a, a) == sim_den(a, a),
        sim_den(a, a) >= 1,
{
    let n = cmp_len(a.buckets@, a.buckets@);
    lemma_diff_sum_self_zero(a.buckets@, n);
    lemma_diff_le_max(a.buckets@, a.buckets@, n);
}

impl Sketch {
    /// A fresh, empty sketch for the given window and k-mer sizes.
    pub fn new(w: u64, k: u64) -> (s: Sketch)
        ensures
            s.w == w,
            s.k == k,
            s.buckets@ =~= Seq::<u64>::empty(),
    {
        Sketch { w, k, buckets: Vec::new() }
    }

    /// The bucket at position `i`, with positions past the end reading as empty.
    fn bucket(&self, i: usize) -> (r: u64)
        ensures
            r == bucket_at(self.buckets@, i as int),
    {
        if i < self.buckets.len() {
            self.buckets[i]
        } else {
            0
        }
    }

    /// The normalized distance between two sketches, as the exact rational
    /// `r.0 / r.1`: the total absolute bucket difference over the total
    /// bucket weight. Two sketches with no weight are at distance zero.
    pub fn distance(&self, other: &Sketch) -> (r: (u128, u128))
        ensures
            r.1 == sim_den(*self, *other),
            r.0 == sim_den(*self, *other) - sim_num(*self, *other),
            0 <= r.0 <= r.1,
            1 <= r.1,
    {
        let a = &self.buckets;
        let b = &other.buckets;
        let n: usize = if a.len() >= b.len() {
            a.len()
        } else {
            b.len()
        };
        let mut dsum: u128 = 0;
        let mut msum: u128 = 0;
        let mut i: usize = 0;
        proof {
            lemma_max_sum_bound(a@, b@, n as int);
        }
        while i < n
            invariant
                0 <= i <= n,
                n == cmp_len(a@, b@),
                a@ == self.buckets@,
                b@ == other.buckets@,
                dsum == diff_sum(a@, b@, i as int),
                msum == max_sum(a@, b@, i as int),
            decreases n - i,
        {
            let x = self.bucket(i);
            let y = other.bucket(i);
            let d: u64 = if x >= y {
                x - y
            } else {
                y - x
            };
            let m: u64 = if x >= y {
                x
            } else {
                y
            };
            proof {
                lemma_max_sum_bound(a@, b@, i as int + 1);
                lemma_diff_le_max(a@, b@, i as int + 1);
                lemma_mul_inequality(i as int + 1, n as int, u64::MAX as int);
                assert((n as int) * (u64::MAX as int) < u128::MAX as int) by (nonlinear_arith)
                    requires
                        n <= usize::MAX,
                ;
            }
            dsum = dsum + d as u128;
            msum = msum + m as u128;
            i = i + 1;
        }
        proof {
            lemma_diff_le_max(a@, b@, n as int);
        }
        if msum == 0 {
            (0, 1)
        } else {
            (dsum, msum)
        }
    }

    /// The similarity of two sketches: one minus their distance, as an exact
    /// rational score in `[0, 1]`.
    pub fn similarity(&self, other: &Sketch) -> (r: Score)
        ensures
            r.num == sim_num(*self, *other),
            r.den == sim_den(*self, *other),
            0 <= r.num <= r.den,
            1 <= r.den,
    {
        let (dnum, dden) = self.distance(other);
        Score { num: dden - dnum, den: dden }
    }

    /// Fold another sketch's weight into this one, bucket by bucket, with
    /// saturating addition; this sketch keeps its own parameters.
    pub fn merge(&mut self, other: &Sketch)
        ensures
            is_merge_of(*final(self), *old(self), *other),
    {
        let n: usize = if self.buckets.len() >= other.buckets.len() {
            self.buckets.len()
        } else {
            other.buckets.len()
        };
        let mut merged: Vec<u64> = Vec::new();
        let mut i: usize = 0;
        while i < n
            invariant
                0 <= i <= n,
                n == cmp_len(old(self).buckets@, other.buckets@),
                self == old(self),
                merged@ =~= merged_buckets(old(self).buckets@, other.buckets@).take(i as int),
            decreases n - i,
        {
            let x = self.bucket(i);
            let y = other.bucket(i);
            let s: u64 = if x <= u64::MAX - y {
                x + y
            } else {
                u64::MAX
            };
            merged.push(s);
            proof {
                assert(merged@ =~= merged_buckets(old(self).buckets@, other.buckets@).take(
                    i as int + 1,
                ));
            }
            i = i + 1;
        }
        proof {
            assert(merged@ =~= merged_buckets(old(self).buckets@, other.buckets@));
        }
        self.buckets = merged;
    }
}

} // verus!
