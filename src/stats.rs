//! Reduction of a short list of noisy per-run rates to one robust figure.
use vstd::prelude::*;

verus! {

/// Sum of a sequence of rates.
pub open spec fn seq_sum(s: Seq<u64>) -> int
    decreases s.len(),
{
    if s.len() == 0 {
        0
    } else {
        seq_sum(s.drop_last()) + s.last()
    }
}

/// Smallest element of a non-empty sequence.
pub open spec fn seq_min(s: Seq<u64>) -> int
    decreases s.len(),
{
    if s.len() <= 1 {
        s[0] as int
    } else {
        let m = seq_min(s.drop_last());
        if s.last() < m {
            s.last() as int
        } else {
            m
        }
    }
}

/// Largest element of a non-empty sequence.
pub open spec fn seq_max(s: Seq<u64>) -> int
    decreases s.len(),
{
    if s.len() <= 1 {
        s[0] as int
    } else {
        let m = seq_max(s.drop_last());
        if s.last() > m {
            s.last() as int
        } else {
            m
        }
    }
}

/// The trimmed mean, rounded down: `0` for no values, the plain mean for one
/// or two values, and otherwise the mean of what is left once one smallest and
/// one largest value are dropped.
pub open spec fn trimmed_mean_of(s: Seq<u64>) -> int {
    if s.len() == 0 {
        0
    } else if s.len() < 3 {
        seq_sum(s) / (s.len() as int)
    } else {
        (seq_sum(s) - seq_min(s) - seq_max(s)) / (s.len() - 2)
    }
}

/// `s` without the two distinct positions `i` and `j`.
pub open spec fn without_two(s: Seq<u64>, i: int, j: int) -> Seq<u64> {
    if i < j {
        s.remove(j).remove(i)
    } else {
        s.remove(i).remove(j)
    }
}

proof fn lemma_sum_bounds(s: Seq<u64>)
    ensures
        0 <= seq_sum(s) <= s.len() * (u64::MAX as int),
    decreases s.len(),
{
    if s.len() > 0 {
        lemma_sum_bounds(s.drop_last());
        assert(s.len() * (u64::MAX as int) == (s.len() - 1) * (u64::MAX as int) + u64::MAX)
            by (nonlinear_arith);
    }
}

proof fn lemma_sum_remove(s: Seq<u64>, i: int)
    requires
        0 <= i < s.len(),
    ensures
        seq_sum(s.remove(i)) == seq_sum(s) - s[i],
    decreases s.len(),
{
    if i == s.len() - 1 {
        assert(s.remove(i) =~= s.drop_last());
    } else {
        lemma_sum_remove(s.drop_last(), i);
        assert(s.remove(i).drop_last() =~= s.drop_last().remove(i));
        assert(s.remove(i).last() == s.last());
    }
}

proof fn lemma_min_max(s: Seq<u64>)
    requires
        s.len() > 0,
    ensures
        forall|k: int| 0 <= k < s.len() ==> seq_min(s) <= #[trigger] s[k] <= seq_max(s),
        exists|k: int| 0 <= k < s.len() && s[k] == seq_min(s),
        exists|k: int| 0 <= k < s.len() && s[k] == seq_max(s),
    decreases s.len(),
{
    if s.len() > 1 {
        let t = s.drop_last();
        lemma_min_max(t);
        assert forall|k: int| 0 <= k < s.len() implies seq_min(s) <= #[trigger] s[k] <= seq_max(s) by {
            if k < s.len() - 1 {
                assert(s[k] == t[k]);
            }
        }
        if s.last() >= seq_min(t) {
            let k = choose|k: int| 0 <= k < t.len() && t[k] == seq_min(t);
            assert(s[k] == t[k]);
            assert(s[k] == seq_min(s));
        } else {
            assert(s[s.len() - 1] == seq_min(s));
        }
        if s.last() <= seq_max(t) {
            let k = choose|k: int| 0 <= k < t.len() && t[k] == seq_max(t);
            assert(s[k] == t[k]);
            assert(s[k] == seq_max(s));
        } else {
            assert(s[s.len() - 1] == seq_max(s));
        }
    } else {
        assert(s[0] == seq_min(s) && s[0] == seq_max(s));
    }
}

proof fn lemma_sum_without_two(s: Seq<u64>, i: int, j: int)
    requires
        0 <= i < s.len(),
        0 <= j < s.len(),
        i != j,
    ensures
        seq_sum(without_two(s, i, j)) == seq_sum(s) - s[i] - s[j],
        without_two(s, i, j).len() == s.len() - 2,
{
    if i < j {
        lemma_sum_remove(s, j);
        lemma_sum_remove(s.remove(j), i);
        assert(s.remove(j)[i] == s[i]);
    } else {
        lemma_sum_remove(s, i);
        lemma_sum_remove(s.remove(i), j);
        assert(s.remove(i)[j] == s[j]);
    }
}

/// In a sequence of two or more values, one smallest and one largest value sit
/// at two different positions.
proof fn lemma_distinct_extremes(s: Seq<u64>) -> (r: (int, int))
    requires
        s.len() >= 2,
    ensures
        0 <= r.0 < s.len(),
        0 <= r.1 < s.len(),
        r.0 != r.1,
        s[r.0] == seq_min(s),
        s[r.1] == seq_max(s),
{
    lemma_min_max(s);
    let i = choose|k: int| 0 <= k < s.len() && s[k] == seq_min(s);
    let j = choose|k: int| 0 <= k < s.len() && s[k] == seq_max(s);
    if i != j {
        (i, j)
    } else {
        let other = if i == 0 {
            1int
        } else {
            0int
        };
        assert(seq_min(s) <= s[other] <= seq_max(s));
        (i, other)
    }
}

/// Trimming drops exactly one smallest and one largest value: for a list of
/// three or more rates, whichever positions `i` (holding a minimum) and `j`
/// (holding a maximum, `j != i`) are taken, the trimmed mean is the mean of
/// the list with those two positions removed.
pub proof fn lemma_trimmed_mean_drops_extremes(s: Seq<u64>, i: int, j: int)
    requires
        s.len() >= 3,
        0 <= i < s.len(),
        0 <= j < s.len(),
        i != j,
        s[i] == seq_min(s),
        s[j] == seq_max(s),
    ensures
        trimmed_mean_of(s) == seq_sum(without_two(s, i, j)) / (without_two(s, i, j).len() as int),
        without_two(s, i, j).len() == s.len() - 2,
{
    lemma_sum_without_two(s, i, j);
}

/// Trimmed mean of a list of rates, rounded down to a whole rate.
pub fn trimmed_mean(values: &Vec<u64>) -> (r: u64)
    ensures
        r == trimmed_mean_of(values@),
{
    let n = values.len();
    if n == 0 {
        return 0;
    }
    let mut sum: u128 = 0;
    let mut lo: u64 = values[0];
    let mut hi: u64 = values[0];
    let mut i: usize = 0;
    while i < n
        invariant
            n == values@.len(),
            0 <= i <= n,
            n > 0,
            sum == seq_sum(values@.take(i as int)),
            sum <= i * (u64::MAX as int),
            i == 0 ==> lo == values@[0] && hi == values@[0],
            i > 0 ==> lo == seq_min(values@.take(i as int)) && hi == seq_max(values@.take(i as int)),
        decreases n - i,
    {
        let v = values[i];
        proof {
            assert(values@.take(i + 1).drop_last() =~= values@.take(i as int));
            assert(values@.take(i + 1).last() == v);
            assert((i + 1) * (u64::MAX as int) == i * (u64::MAX as int) + u64::MAX)
                by (nonlinear_arith);
            assert((i + 1) * (u64::MAX as int) <= u128::MAX) by (nonlinear_arith)
                requires
                    i + 1 <= u64::MAX,
            ;
        }
        sum = sum + v as u128;
        if i > 0 && v < lo {
            lo = v;
        }
        if i > 0 && v > hi {
            hi = v;
        }
        i = i + 1;
    }
    assert(values@.take(n as int) =~= values@);
    if n < 3 {
        proof {
            lemma_sum_bounds(values@);
            assert((sum as int) / (n as int) <= u64::MAX) by (nonlinear_arith)
                requires
                    0 <= sum <= n * (u64::MAX as int),
                    n > 0,
            ;
        }
        (sum / (n as u128)) as u64
    } else {
        let ghost s = values@;
        proof {
            let (a, b) = lemma_distinct_extremes(s);
            lemma_sum_without_two(s, a, b);
            lemma_sum_bounds(without_two(s, a, b));
        }
        let kept: u128 = sum - lo as u128 - hi as u128;
        let count: u128 = (n - 2) as u128;
        proof {
            assert((kept as int) / (count as int) <= u64::MAX) by (nonlinear_arith)
                requires
                    0 <= kept <= count * (u64::MAX as int),
                    count > 0,
            ;
        }
        (kept / count) as u64
    }
}

} // verus!
