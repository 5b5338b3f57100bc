//! The step-size search: picks a table row for a requested burst window.
//!
//! With a burst of `b` ns and a host period of `p` ns the host asks for
//! `L = b / p` points of burst per tick. Row `e` holds `e.points / SCALE`
//! points, so `e` exceeds `k` multiples of the request exactly when
//! `e.points * p > SCALE * b * k`: all comparisons are on integers.
use vstd::prelude::*;
use vstd::arithmetic::div_mod::lemma_fundamental_div_mod;

use crate::table::{table_ordered, StepEntry, StepSizeTable, POINTS_SCALE};

verus! {

/// `k` multiples of the burst request, in the integer scale of [`exceeds`].
pub open spec fn request(burst_ns: int, k: int) -> int {
    POINTS_SCALE * burst_ns * k
}

/// Whether a row achieves more points than a scaled request.
pub open spec fn exceeds(e: StepEntry, period_ns: int, request: int) -> bool {
    e.points * period_ns > request
}

/// The search scans rows `i - 1` down to `0`, largest step first, and takes
/// the first whose points exceed the request.
pub open spec fn scan_down(t: Seq<StepEntry>, period_ns: int, request: int, i: int) -> Option<int>
    decreases i,
{
    if i <= 0 {
        None
    } else if exceeds(t[i - 1], period_ns, request) {
        Some(i - 1)
    } else {
        scan_down(t, period_ns, request, i - 1)
    }
}

/// The ratio of a row's points to the burst request,
/// `r = e.points * p / (SCALE * b)`, is near an integer when its fractional
/// part is at most a tenth of its integer part.
pub open spec fn near_integer(e: StepEntry, burst_ns: int, period_ns: int) -> bool {
    let num = e.points * period_ns;
    let den = POINTS_SCALE * burst_ns;
    10 * (num % den) <= (num / den) * den
}

/// The multiple of the request at which the search stops: the least `k >= 1`
/// with `k * L` at or above the smallest points of the table.
pub open spec fn stop_multiple(t: Seq<StepEntry>, burst_ns: int, period_ns: int) -> int {
    let bound = t.last().points * period_ns;
    let unit = request(burst_ns, 1);
    if bound <= unit {
        1
    } else {
        (bound + unit - 1) / unit
    }
}

/// The row the search selects, or `None` when it finds none.
///
/// The search tries the multiples `k = 1, 2, ...` of the request while the
/// previous one stayed below the smallest points of the table. While a
/// multiple stays below, the row found is the last one (the largest step); it
/// is accepted at once when its ratio is near an integer. Otherwise the search
/// ends at `stop_multiple`, where the row found (whether accepted or taken
/// unconditionally by the fallback) is selected; if no row exceeds that
/// multiple, the last row found before it stays selected. When the request
/// itself reaches the smallest points, no multiple is tried and the fallback
/// scan at the request alone decides.
pub open spec fn selected_entry(t: Seq<StepEntry>, burst_ns: int, period_ns: int) -> Option<int> {
    let n = t.len() as int;
    if request(burst_ns, 1) >= t.last().points * period_ns {
        scan_down(t, period_ns, request(burst_ns, 1), n)
    } else if near_integer(t.last(), burst_ns, period_ns) {
        Some(n - 1)
    } else {
        match scan_down(t, period_ns, request(burst_ns, stop_multiple(t, burst_ns, period_ns)), n) {
            Some(i) => Some(i),
            None => Some(n - 1),
        }
    }
}

/// A row index of the executable code, as a mathematical integer.
pub open spec fn as_index(r: Option<usize>) -> Option<int> {
    match r {
        Some(i) => Some(i as int),
        None => None,
    }
}

/// The row a scan finds exceeds the request, and no row with a larger step
/// among those scanned does.
proof fn lemma_scan_down(t: Seq<StepEntry>, period_ns: int, request: int, i: int)
    requires
        i <= t.len(),
    ensures
        scan_down(t, period_ns, request, i) matches Some(k) ==> 0 <= k < i && exceeds(
            t[k],
            period_ns,
            request,
        ) && forall|j: int| k < j < i ==> !exceeds(#[trigger] t[j], period_ns, request),
        scan_down(t, period_ns, request, i) is None ==> forall|j: int|
            0 <= j < i ==> !exceeds(#[trigger] t[j], period_ns, request),
    decreases i,
{
    if i > 0 {
        lemma_scan_down(t, period_ns, request, i - 1);
    }
}

proof fn lemma_stop_multiple(unit: int, bound: int, j: int)
    requires
        unit > 0,
        j >= 2,
        unit * (j - 1) < bound,
        bound <= unit * j,
    ensures
        (bound + unit - 1) / unit == j,
{
    let q = (bound + unit - 1) / unit;
    let r = (bound + unit - 1) % unit;
    lemma_fundamental_div_mod(bound + unit - 1, unit);
    assert(bound + unit - 1 == unit * q + r);
    assert(0 <= r < unit);
    assert(q == j) by (nonlinear_arith)
        requires
            bound + unit - 1 == unit * q + r,
            0 <= r < unit,
            unit * (j - 1) < bound,
            bound <= unit * j,
            unit > 0,
    ;
}

proof fn lemma_stop_multiple_bounds(unit: int, bound: int)
    requires
        0 < unit < bound,
    ensures
        (bound + unit - 1) / unit >= 2,
        unit * ((bound + unit - 1) / unit - 1) < bound,
        bound <= unit * ((bound + unit - 1) / unit),
{
    let q = (bound + unit - 1) / unit;
    let r = (bound + unit - 1) % unit;
    lemma_fundamental_div_mod(bound + unit - 1, unit);
    assert(q >= 2 && unit * (q - 1) < bound && bound <= unit * q) by (nonlinear_arith)
        requires
            bound + unit - 1 == unit * q + r,
            0 <= r < unit,
            0 < unit < bound,
    ;
}

/// Whenever the search selects a row, there is a multiple `k` of the burst
/// request among those it tried whose scaled value the row's points exceed,
/// and no row with a larger step exceeds it: the search never takes a row
/// whose points are at or below the request it scanned for, in the fallback
/// as well.
pub proof fn lemma_selection_exceeds_request(t: Seq<StepEntry>, burst_ns: int, period_ns: int)
    requires
        table_ordered(t),
        burst_ns > 0,
        period_ns > 0,
    ensures
        selected_entry(t, burst_ns, period_ns) matches Some(i) ==> exists|k: int|
            1 <= k <= stop_multiple(t, burst_ns, period_ns) && exceeds(
                t[i],
                period_ns,
                #[trigger] request(burst_ns, k),
            ) && forall|j: int| i < j < t.len() ==> !exceeds(t[j], period_ns, request(burst_ns, k)),
{
    let n = t.len() as int;
    let bound = t.last().points * period_ns;
    let unit = request(burst_ns, 1);
    assert(unit > 0) by (nonlinear_arith)
        requires
            unit == POINTS_SCALE * burst_ns * 1,
            burst_ns > 0,
    ;
    if unit >= bound {
        lemma_scan_down(t, period_ns, unit, n);
        if let Some(i) = selected_entry(t, burst_ns, period_ns) {
            assert(exceeds(t[i], period_ns, request(burst_ns, 1)));
        }
    } else {
        let k = stop_multiple(t, burst_ns, period_ns);
        lemma_stop_multiple_bounds(unit, bound);
        assert(request(burst_ns, k) == unit * k && request(burst_ns, k - 1) == unit * (k - 1))
            by (nonlinear_arith)
            requires
                unit == POINTS_SCALE * burst_ns * 1,
        ;
        lemma_scan_down(t, period_ns, request(burst_ns, k), n);
        if near_integer(t.last(), burst_ns, period_ns) {
            assert(exceeds(t[n - 1], period_ns, request(burst_ns, 1)));
        } else if let Some(i) = scan_down(t, period_ns, request(burst_ns, k), n) {
            assert(exceeds(t[i], period_ns, request(burst_ns, k)));
        } else {
            assert(exceeds(t[n - 1], period_ns, request(burst_ns, k - 1)));
        }
    }
}

/// `a * b` of two `u64` values, without overflow in `u128`.
pub(crate) fn wide_mul(a: u64, b: u64) -> (r: u128)
    ensures
        r == a * b,
{
    assert((a as int) * (b as int) <= u128::MAX) by (nonlinear_arith)
        requires
            a <= u64::MAX,
            b <= u64::MAX,
    ;
    (a as u128) * (b as u128)
}

/// Scans the table from the largest step down for the first row whose points
/// exceed the scaled request.
fn scan_from_largest(table: &StepSizeTable, period_ns: i64, request: u128) -> (r: Option<usize>)
    requires
        table.wf(),
        period_ns > 0,
    ensures
        as_index(r) == scan_down(table@, period_ns as int, request as int, table@.len() as int),
{
    let mut i = table.len();
    while i > 0
        invariant
            table.wf(),
            period_ns > 0,
            i <= table@.len(),
            scan_down(table@, period_ns as int, request as int, table@.len() as int) == scan_down(
                table@,
                period_ns as int,
                request as int,
                i as int,
            ),
        decreases i,
    {
        let e = table.entry(i - 1);
        if wide_mul(e.points, period_ns as u64) > request {
            return Some(i - 1);
        }
        i = i - 1;
    }
    None
}

/// Whether the ratio of a row's points to the burst request is near an
/// integer.
fn is_near_integer(e: StepEntry, burst_ns: i64, period_ns: i64) -> (r: bool)
    requires
        burst_ns > 0,
        period_ns > 0,
    ensures
        r == near_integer(e, burst_ns as int, period_ns as int),
{
    let num = wide_mul(e.points, period_ns as u64);
    let den = wide_mul(POINTS_SCALE, burst_ns as u64);
    let q = num / den;
    let rem = num % den;
    proof {
        lemma_fundamental_div_mod(num as int, den as int);
        assert(q * den <= num) by (nonlinear_arith)
            requires
                num == den * q + rem,
                0 <= rem,
        ;
        assert(rem < den);
        assert(den <= POINTS_SCALE * i64::MAX) by (nonlinear_arith)
            requires
                den == POINTS_SCALE * burst_ns,
                burst_ns <= i64::MAX,
        ;
    }
    10 * rem <= q * den
}

/// Selects a row of the table for a burst of `burst_ns` at a host period of
/// `period_ns`: the search of [`selected_entry`].
pub fn select_step(table: &StepSizeTable, burst_ns: i64, period_ns: i64) -> (r: Option<usize>)
    requires
        table.wf(),
        burst_ns > 0,
        period_ns > 0,
    ensures
        as_index(r) == selected_entry(table@, burst_ns as int, period_ns as int),
        r matches Some(i) ==> i < table@.len(),
{
    let ghost t = table@;
    let ghost n = t.len() as int;
    let last = table.entry(table.len() - 1);
    let bound = wide_mul(last.points, period_ns as u64);
    let unit = wide_mul(POINTS_SCALE, burst_ns as u64);
    proof {
        assert(unit <= POINTS_SCALE * i64::MAX) by (nonlinear_arith)
            requires
                unit == POINTS_SCALE * burst_ns,
                burst_ns <= i64::MAX,
        ;
        assert(unit > 0) by (nonlinear_arith)
            requires
                unit == POINTS_SCALE * burst_ns,
                burst_ns > 0,
        ;
        assert(bound <= u64::MAX * i64::MAX) by (nonlinear_arith)
            requires
                bound == last.points * period_ns,
                last.points <= u64::MAX,
                period_ns <= i64::MAX,
        ;
    }
    let mut aux: u128 = unit;
    let mut next: u128 = unit;
    let mut selected: Option<usize> = None;
    let mut accepted = false;
    let ghost mut j: int = 0;
    while !accepted && aux < bound
        invariant
            table.wf(),
            burst_ns > 0,
            period_ns > 0,
            t == table@,
            n == t.len(),
            last == t[n - 1],
            bound == last.points * period_ns,
            unit == request(burst_ns as int, 1),
            0 < unit <= POINTS_SCALE * i64::MAX,
            bound <= u64::MAX * i64::MAX,
            j >= 0,
            next == unit * (j + 1),
            aux == unit * (if j == 0 { 1 } else { j }),
            j >= 1 ==> unit < bound,
            j >= 2 ==> unit * (j - 1) < bound,
            j == 0 ==> selected is None && !accepted,
            selected matches Some(i) ==> i < n,
            accepted ==> as_index(selected) == selected_entry(t, burst_ns as int, period_ns as int),
            !accepted && j >= 1 ==> !near_integer(last, burst_ns as int, period_ns as int),
            !accepted && j >= 1 ==> as_index(selected) == match scan_down(
                t,
                period_ns as int,
                aux as int,
                n,
            ) {
                Some(i) => Some(i),
                None => Some(n - 1),
            },
        decreases bound + 2 * unit - next,
    {
        proof {
            assert(next <= aux + unit) by (nonlinear_arith)
                requires
                    next == unit * (j + 1),
                    aux == unit * (if j == 0 { 1 } else { j }),
                    j >= 0,
                    unit > 0,
            ;
            assert(unit * (j + 2) == unit * (j + 1) + unit) by (nonlinear_arith);
            assert(request(burst_ns as int, j + 1) == unit * (j + 1)) by (nonlinear_arith)
                requires
                    unit == request(burst_ns as int, 1),
            ;
            assert(unit * j <= unit * (j + 1)) by (nonlinear_arith)
                requires
                    unit > 0,
                    j >= 0,
            ;
        }
        aux = next;
        next = next + unit;
        proof {
            j = j + 1;
        }
        let found = scan_from_largest(table, period_ns, aux);
        proof {
            lemma_scan_down(t, period_ns as int, aux as int, n);
        }
        match found {
            Some(i) => {
                selected = Some(i);
                if is_near_integer(table.entry(i), burst_ns, period_ns) {
                    accepted = true;
                    proof {
                        if j >= 2 && aux >= bound {
                            lemma_stop_multiple(unit as int, bound as int, j);
                        }
                    }
                }
            },
            None => {},
        }
    }
    if !accepted {
        let found = scan_from_largest(table, period_ns, aux);
        proof {
            lemma_scan_down(t, period_ns as int, aux as int, n);
            if j >= 2 {
                lemma_stop_multiple(unit as int, bound as int, j);
            }
        }
        match found {
            Some(i) => {
                selected = Some(i);
            },
            None => {},
        }
    }
    selected
}

} // verus!
