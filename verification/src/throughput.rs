//! Which throughput samples make up the sustained rate.
//!
//! The sustained rate drops the TCP slow-start warmup window, keeps only
//! samples that moved data, then trims the slowest and fastest tenth of
//! what is left and averages the middle. The measurement itself (the rates
//! and their mean) is the caller's; this module decides which samples count
//! and which window of the sorted rates is averaged.

use vstd::prelude::*;

verus! {

/// What the selection needs to know about one `(elapsed, rate)` sample.
#[derive(Debug, Clone, Copy, PartialEq, Eq, Structural)]
pub struct SampleClass {
    /// The sample was taken at or after the end of the warmup window.
    pub after_warmup: bool,
    /// The sample's rate is above zero.
    pub positive: bool,
}

/// Whether a sample is kept; when `strict`, only steady-state samples count.
pub open spec fn kept(c: SampleClass, strict: bool) -> bool {
    c.positive && (!strict || c.after_warmup)
}

/// Indices, in order, of the kept samples among the first `n`.
pub open spec fn picks(c: Seq<SampleClass>, strict: bool, n: int) -> Seq<usize>
    decreases n,
{
    if n <= 0 {
        seq![]
    } else if kept(c[n - 1], strict) {
        picks(c, strict, n - 1).push((n - 1) as usize)
    } else {
        picks(c, strict, n - 1)
    }
}

/// The samples that make up the sustained rate: the steady-state ones with
/// data; when the whole test fell within the warmup window, every sample
/// with data.
pub open spec fn steady_picks(c: Seq<SampleClass>) -> Seq<usize> {
    if picks(c, true, c.len() as int).len() > 0 {
        picks(c, true, c.len() as int)
    } else {
        picks(c, false, c.len() as int)
    }
}

proof fn lemma_picks(c: Seq<SampleClass>, strict: bool, n: int)
    requires
        0 <= n <= c.len() <= usize::MAX,
    ensures
        forall|k: int| 0 <= k < picks(c, strict, n).len() ==> #[trigger] picks(c, strict, n)[k] < n
            && kept(c[picks(c, strict, n)[k] as int], strict),
        forall|k: int, l: int|
            0 <= k < l < picks(c, strict, n).len() ==> #[trigger] picks(c, strict, n)[k]
                < #[trigger] picks(c, strict, n)[l],
        forall|i: int| 0 <= i < n && kept(c[i], strict) ==> #[trigger] picks(c, strict, n).contains(i as usize),
        picks(c, strict, n).len() == 0 <==> forall|i: int| 0 <= i < n ==> !kept(#[trigger] c[i], strict),
    decreases n,
{
    if n > 0 {
        lemma_picks(c, strict, n - 1);
        let p = picks(c, strict, n - 1);
        if kept(c[n - 1], strict) {
            assert(picks(c, strict, n) == p.push((n - 1) as usize));
            assert(picks(c, strict, n)[p.len() as int] == (n - 1) as usize);
            let q = picks(c, strict, n);
            assert(q.len() == p.len() + 1);
            assert forall|k: int| 0 <= k < q.len() implies #[trigger] q[k] < n && kept(
                c[q[k] as int],
                strict,
            ) by {
                if k < p.len() {
                    assert(q[k] == p[k]);
                    assert(p[k] < n - 1 && kept(c[p[k] as int], strict));
                } else {
                    assert(q[k] == (n - 1) as usize);
                }
            }
            assert forall|k: int, l: int| 0 <= k < l < q.len() implies #[trigger] q[k]
                < #[trigger] q[l] by {
                assert(q[k] == p[k]);
                assert(p[k] < n - 1);
                if l < p.len() {
                    assert(q[l] == p[l]);
                    assert(p[k] < p[l]);
                } else {
                    assert(q[l] == (n - 1) as usize);
                }
            }
            assert forall|i: int| 0 <= i < n && kept(c[i], strict) implies #[trigger] picks(c, strict, n).contains(i as usize) by {
                if i < n - 1 {
                    assert(p.contains(i as usize));
                    let k = choose|k: int| 0 <= k < p.len() && p[k] == i as usize;
                    assert(picks(c, strict, n)[k] == i as usize);
                } else {
                    assert(picks(c, strict, n)[p.len() as int] == i as usize);
                }
            }
        } else {
            if picks(c, strict, n).len() == 0 {
                assert forall|i: int| 0 <= i < n implies !kept(#[trigger] c[i], strict) by {
                    if i < n - 1 {
                    }
                }
            }
        }
    }
}

/// The indices, in increasing order, of the samples that make up the
/// sustained rate: the steady-state samples (after warmup) that moved
/// data, or, when the test ended within the warmup window, every sample
/// that moved data. Empty exactly when no sample moved data.
pub fn steady_sample_indices(classes: &Vec<SampleClass>) -> (r: Vec<usize>)
    ensures
        r@ == steady_picks(classes@),
        forall|k: int| 0 <= k < r.len() ==> #[trigger] r@[k] < classes.len() && classes@[r@[k] as int].positive,
        forall|k: int, l: int| 0 <= k < l < r.len() ==> #[trigger] r@[k] < #[trigger] r@[l],
        (exists|i: int| 0 <= i < classes.len() && kept(#[trigger] classes@[i], true)) ==> forall|k: int|
            0 <= k < r.len() ==> #[trigger] classes@[r@[k] as int].after_warmup,
        r.len() == 0 <==> forall|i: int| 0 <= i < classes.len() ==> !(#[trigger] classes@[i]).positive,
        forall|i: int|
            0 <= i < classes.len() ==> (#[trigger] r@.contains(i as usize) <==> (if exists|j: int|
                0 <= j < classes.len() && kept(#[trigger] classes@[j], true) {
                classes@[i].after_warmup && classes@[i].positive
            } else {
                classes@[i].positive
            })),
{
    let strict = pick_indices(classes, true);
    proof {
        assert(classes@.len() == classes.len());
        lemma_picks(classes@, true, classes@.len() as int);
        lemma_picks(classes@, false, classes@.len() as int);
        steady_selection_is_exact(classes@);
    }
    if strict.len() > 0 {
        strict
    } else {
        let r = pick_indices(classes, false);
        proof {
            assert forall|i: int| 0 <= i < classes.len() ==> !kept(#[trigger] classes@[i], true) by {}
            if r.len() == 0 {
                assert forall|i: int| 0 <= i < classes.len() implies !(#[trigger] classes@[i]).positive by {
                    assert(!kept(classes@[i], false));
                }
            }
        }
        r
    }
}

fn pick_indices(classes: &Vec<SampleClass>, strict: bool) -> (r: Vec<usize>)
    ensures
        r@ == picks(classes@, strict, classes@.len() as int),
{
    let mut r: Vec<usize> = Vec::new();
    let mut i: usize = 0;
    while i < classes.len()
        invariant
            i <= classes.len(),
            r@ == picks(classes@, strict, i as int),
        decreases classes.len() - i,
    {
        let c = classes[i];
        if c.positive && (!strict || c.after_warmup) {
            r.push(i);
        }
        i = i + 1;
    }
    r
}

/// The window `lo..hi` of `n` sorted rates that is averaged: a tenth
/// (rounded down) is trimmed from each end; should that leave nothing,
/// all `n` are used.
pub open spec fn trimmed_window(n: int) -> (int, int) {
    let trim = n / 10;
    if n - 2 * trim == 0 {
        (0, n)
    } else {
        (trim, n - trim)
    }
}

/// The window of the sorted steady rates that is averaged.
pub fn trim_window(n: usize) -> (w: (usize, usize))
    ensures
        w.0 as int == trimmed_window(n as int).0,
        w.1 as int == trimmed_window(n as int).1,
        w.0 <= w.1 <= n,
        n > 0 ==> w.0 < w.1 && w.0 == n / 10 && w.1 == n - n / 10,
{
    let trim = n / 10;
    if n - 2 * trim == 0 {
        (0, n)
    } else {
        (trim, n - trim)
    }
}

/// The samples that make up the sustained rate are exactly the right ones:
/// when some sample was taken after the warmup window and moved data, every
/// such sample is used and no other; otherwise every sample that moved data
/// is used and no other. They come in the order they were taken.
pub proof fn steady_selection_is_exact(c: Seq<SampleClass>)
    requires
        c.len() <= usize::MAX,
    ensures
        forall|i: int|
            0 <= i < c.len() ==> (#[trigger] steady_picks(c).contains(i as usize) <==> (if exists|j: int|
                0 <= j < c.len() && (#[trigger] c[j]).after_warmup && c[j].positive {
                c[i].after_warmup && c[i].positive
            } else {
                c[i].positive
            })),
        forall|k: int| 0 <= k < steady_picks(c).len() ==> #[trigger] steady_picks(c)[k] < c.len(),
        forall|k: int, l: int|
            0 <= k < l < steady_picks(c).len() ==> #[trigger] steady_picks(c)[k]
                < #[trigger] steady_picks(c)[l],
{
    let n = c.len() as int;
    lemma_picks(c, true, n);
    lemma_picks(c, false, n);
    let strict = picks(c, true, n);
    let loose = picks(c, false, n);
    let any = exists|j: int| 0 <= j < c.len() && (#[trigger] c[j]).after_warmup && c[j].positive;
    if any {
        let j = choose|j: int| 0 <= j < c.len() && (#[trigger] c[j]).after_warmup && c[j].positive;
        assert(kept(c[j], true));
        assert(strict.contains(j as usize));
        assert(strict.len() > 0);
        assert forall|i: int| 0 <= i < c.len() implies (#[trigger] steady_picks(c).contains(i as usize)
            <==> (c[i].after_warmup && c[i].positive)) by {
            if strict.contains(i as usize) {
                let k = choose|k: int| 0 <= k < strict.len() && strict[k] == i as usize;
                assert(kept(c[strict[k] as int], true));
            }
            if c[i].after_warmup && c[i].positive {
                assert(kept(c[i], true));
            }
        }
    } else {
        assert forall|i: int| 0 <= i < n implies !kept(#[trigger] c[i], true) by {
            if kept(c[i], true) {
                assert(c[i].after_warmup && c[i].positive);
            }
        }
        assert(strict.len() == 0);
        assert forall|i: int| 0 <= i < c.len() implies (#[trigger] steady_picks(c).contains(i as usize)
            <==> c[i].positive) by {
            if loose.contains(i as usize) {
                let k = choose|k: int| 0 <= k < loose.len() && loose[k] == i as usize;
                assert(kept(c[loose[k] as int], false));
            }
            if c[i].positive {
                assert(kept(c[i], false));
            }
        }
    }
}

} // verus!
