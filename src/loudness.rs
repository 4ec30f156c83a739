use vstd::prelude::*;

verus! {

/// Absolute value of one sample, as an integer.
pub open spec fn abs_of(x: i32) -> nat {
    if x < 0 {
        (-(x as int)) as nat
    } else {
        x as nat
    }
}

/// Sum of the absolute amplitudes of a batch.
pub open spec fn sum_abs(s: Seq<i32>) -> nat
    decreases s.len(),
{
    if s.len() == 0 {
        0
    } else {
        sum_abs(s.drop_last()) + abs_of(s.last())
    }
}

/// A mean `total / samples` over a non-empty batch is strictly above `level`.
pub open spec fn mean_above(total: int, samples: int, level: int) -> bool {
    samples > 0 && total > samples * level
}

/// The loudness of one batch: its mean absolute amplitude, kept exactly as
/// `total / samples` (millionths of full scale). In decibels relative to full
/// scale it is `20 * log10(total / (samples * FULL_SCALE))`.
///
/// Silence (a zero total, or an empty batch) stands for the floor of the
/// scale, minus infinity decibels: it exceeds no threshold.
pub struct Loudness {
    pub total: u128,
    pub samples: u64,
}

impl Loudness {
    /// The mean amplitude is strictly above `level`.
    pub open spec fn above(self, level: int) -> bool {
        mean_above(self.total as int, self.samples as int, level)
    }

    /// Whether the mean absolute amplitude is strictly above `level`.
    pub fn exceeds(&self, level: u64) -> (r: bool)
        ensures
            r == self.above(level as int),
    {
        if self.samples == 0 {
            return false;
        }
        proof {
            assert(self.samples * level <= u64::MAX * u64::MAX) by (nonlinear_arith)
                requires
                    self.samples <= u64::MAX,
                    level <= u64::MAX,
            ;
        }
        self.total > (self.samples as u128) * (level as u128)
    }
}

/// Estimates the loudness of a batch of samples (millionths of full scale).
pub fn estimate(batch: &[i32]) -> (r: Loudness)
    ensures
        r.total == sum_abs(batch@),
        r.samples == batch@.len(),
{
    let mut total: u128 = 0;
    let mut i: usize = 0;
    while i < batch.len()
        invariant
            i <= batch@.len(),
            total == sum_abs(batch@.subrange(0, i as int)),
            total <= i * 0x8000_0000,
        decreases batch@.len() - i,
    {
        let x = batch[i];
        let a: u32 = if x < 0 {
            (0 - (x as i64)) as u32
        } else {
            x as u32
        };
        proof {
            let s = batch@.subrange(0, i + 1);
            assert(s.drop_last() =~= batch@.subrange(0, i as int));
            assert(s.last() == x);
            assert(i < usize::MAX);
        }
        total = total + a as u128;
        i = i + 1;
    }
    proof {
        assert(batch@.subrange(0, batch@.len() as int) =~= batch@);
    }
    Loudness { total, samples: batch.len() as u64 }
}

/// A batch whose samples all equal `a` has mean absolute amplitude `|a|`:
/// its total is `len * |a|`, so it is above a level exactly when it is
/// non-empty and `|a|` is above that level. In particular the all-zero batch
/// sits at the floor and is above no level.
pub proof fn lemma_constant_batch(batch: Seq<i32>, a: i32, level: u64)
    requires
        forall|i: int| 0 <= i < batch.len() ==> batch[i] == a,
    ensures
        sum_abs(batch) == batch.len() * abs_of(a),
        mean_above(sum_abs(batch) as int, batch.len() as int, level as int) <==> (batch.len() > 0
            && abs_of(a) > level),
        a == 0 ==> !mean_above(sum_abs(batch) as int, batch.len() as int, level as int),
    decreases batch.len(),
{
    if batch.len() > 0 {
        let rest = batch.drop_last();
        lemma_constant_batch(rest, a, level);
        assert(sum_abs(batch) == rest.len() * abs_of(a) + abs_of(a));
        assert(sum_abs(batch) == batch.len() * abs_of(a)) by (nonlinear_arith)
            requires
                sum_abs(batch) == rest.len() * abs_of(a) + abs_of(a),
                batch.len() == rest.len() + 1,
        ;
        let n = batch.len() as int;
        let m = abs_of(a) as int;
        let l = level as int;
        assert(n * m > n * l <==> m > l) by (nonlinear_arith)
            requires
                n > 0,
        ;
    }
}

} // verus!
