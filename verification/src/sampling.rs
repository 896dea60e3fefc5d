//! Thinning of plotted point series so that the plotter gets a bounded number
//! of points.
use vstd::prelude::*;

verus! {

/// At most this many points of one series are handed to the plotter.
pub const MAX_RENDER_POINTS: usize = 2000;

/// The step of the thinning: the configured step (at least 1), raised so that a
/// series of `point_count` points keeps at most `MAX_RENDER_POINTS` of them
/// (the point count divided by `MAX_RENDER_POINTS`, rounded up).
pub open spec fn spec_skip_step(point_count: int, base_skip: int) -> int {
    let base = if base_skip >= 1 {
        base_skip
    } else {
        1
    };
    if point_count <= MAX_RENDER_POINTS {
        base
    } else {
        let by_count = (point_count + MAX_RENDER_POINTS - 1) / (MAX_RENDER_POINTS as int);
        if by_count >= base {
            by_count
        } else {
            base
        }
    }
}

/// How many points to skip so that at most `MAX_RENDER_POINTS` points are
/// drawn; never less than `base_skip` nor less than 1.
pub fn compute_skip_step(point_count: usize, base_skip: usize) -> (r: usize)
    ensures
        r == spec_skip_step(point_count as int, base_skip as int),
        r >= 1,
        r >= base_skip,
        (point_count + r - 1) / (r as int) <= MAX_RENDER_POINTS,
{
    let base = if base_skip >= 1 {
        base_skip
    } else {
        1
    };
    let r = if point_count <= MAX_RENDER_POINTS {
        base
    } else {
        let by_count = point_count / MAX_RENDER_POINTS + if point_count % MAX_RENDER_POINTS != 0 {
            1
        } else {
            0
        };
        proof {
            vstd::arithmetic::div_mod::lemma_fundamental_div_mod(
                point_count as int,
                MAX_RENDER_POINTS as int,
            );
            lemma_ceil_div(point_count as int, MAX_RENDER_POINTS as int);
        }
        if by_count >= base {
            by_count
        } else {
            base
        }
    };
    proof {
        lemma_step_keeps_budget(point_count as int, base_skip as int);
    }
    r
}

/// Rounding a quotient up: `(n + m - 1) / m` is `n / m`, plus one when `m`
/// does not divide `n`.
proof fn lemma_ceil_div(n: int, m: int)
    requires
        n >= 0,
        m > 0,
    ensures
        (n + m - 1) / m == n / m + (if n % m != 0 {
            1int
        } else {
            0int
        }),
{
    vstd::arithmetic::div_mod::lemma_fundamental_div_mod(n, m);
    let q = n / m;
    let r = n % m;
    assert(m * q == q * m && (q + 1) * m == q * m + m) by (nonlinear_arith);
    if r != 0 {
        vstd::arithmetic::div_mod::lemma_fundamental_div_mod_converse(n + m - 1, m, q + 1, r - 1);
    } else {
        vstd::arithmetic::div_mod::lemma_fundamental_div_mod_converse(n + m - 1, m, q, m - 1);
    }
}

/// With the step `spec_skip_step` picks, at most `MAX_RENDER_POINTS` points
/// are kept.
proof fn lemma_step_keeps_budget(n: int, base_skip: int)
    requires
        n >= 0,
    ensures
        spec_skip_step(n, base_skip) >= 1,
        (n + spec_skip_step(n, base_skip) - 1) / spec_skip_step(n, base_skip) <= MAX_RENDER_POINTS,
{
    let step = spec_skip_step(n, base_skip);
    let m = MAX_RENDER_POINTS as int;
    if n <= m {
        assert(n + step - 1 < step * (n + 1)) by (nonlinear_arith)
            requires
                step >= 1,
                n >= 0,
        ;
        lemma_quotient_bound(n + step - 1, step, n);
    } else {
        let c = (n + m - 1) / m;
        vstd::arithmetic::div_mod::lemma_fundamental_div_mod(n + m - 1, m);
        assert(step >= c);
        assert(n <= m * c);
        assert(n + step - 1 < step * (m + 1)) by (nonlinear_arith)
            requires
                step >= c,
                c >= 1,
                n <= m * c,
                m > 0,
        ;
        lemma_quotient_bound(n + step - 1, step, m);
    }
}

/// Every `step`-th element, starting with the first.
pub open spec fn every_nth<T>(s: Seq<T>, step: int) -> Seq<T> {
    Seq::new(((s.len() + step - 1) / step) as nat, |i: int| s[i * step])
}

pub(crate) proof fn lemma_count_steps(n: int, step: int, k: int)
    requires
        step >= 1,
        0 <= (k - 1) * step < n,
        n <= k * step,
    ensures
        k == (n + step - 1) / step,
{
    assert(k * step <= n + step - 1 < (k + 1) * step) by (nonlinear_arith)
        requires
            step >= 1,
            (k - 1) * step < n,
            n <= k * step,
    ;
    vstd::arithmetic::div_mod::lemma_fundamental_div_mod_converse(
        n + step - 1,
        step,
        k,
        n + step - 1 - k * step,
    );
}

/// Thins a series by keeping one out of every `step` entries, starting with the
/// first; a step of 0 or 1 keeps everything.
pub fn downsample<T: Copy>(points: Vec<T>, step: usize) -> (r: Vec<T>)
    ensures
        step <= 1 ==> r@ == points@,
        step > 1 ==> r@ == every_nth(points@, step as int),
{
    if step <= 1 {
        return points;
    }
    let n = points.len();
    let mut out: Vec<T> = Vec::new();
    let mut j: usize = 0;
    assert(0 * step == 0) by (nonlinear_arith);
    while j < n
        invariant
            n == points@.len(),
            j == 0 || j < n,
            step > 1,
            j == out@.len() * step,
            out@.len() == 0 || (out@.len() - 1) * step < n,
            forall|i: int| 0 <= i < out@.len() ==> #[trigger] out@[i] == points@[i * step],
        decreases n - j,
    {
        out.push(points[j]);
        proof {
            assert((out@.len() - 1) * step == j) by (nonlinear_arith)
                requires
                    j == (out@.len() - 1) * step,
            ;
            assert(out@.len() * step == j + step) by (nonlinear_arith)
                requires
                    j == (out@.len() - 1) * step,
            ;
        }
        if n - j <= step {
            proof {
                lemma_count_steps(n as int, step as int, out@.len() as int);
                assert(out@ =~= every_nth(points@, step as int));
            }
            return out;
        }
        j = j + step;
    }
    proof {
        assert(n == 0);
        vstd::arithmetic::div_mod::lemma_basic_div(step - 1, step as int);
        assert(out@ =~= every_nth(points@, step as int));
    }
    out
}

proof fn lemma_quotient_bound(x: int, step: int, bound: int)
    requires
        step >= 1,
        x >= 0,
        x < step * (bound + 1),
    ensures
        x / step <= bound,
{
    vstd::arithmetic::div_mod::lemma_fundamental_div_mod(x, step);
    let q = x / step;
    assert(step * q <= x);
    assert(q <= bound) by (nonlinear_arith)
        requires
            step >= 1,
            step * q <= x,
            x < step * (bound + 1),
    ;
}

/// A series thinned with the step that `compute_skip_step` picks for its length
/// keeps at most `MAX_RENDER_POINTS` points, whatever the configured step.
pub proof fn law_thinned_series_bounded<T>(s: Seq<T>, base_skip: nat)
    ensures
        every_nth(s, spec_skip_step(s.len() as int, base_skip as int)).len()
            <= MAX_RENDER_POINTS,
{
    lemma_step_keeps_budget(s.len() as int, base_skip as int);
}

} // verus!
