//! Exhaustive search for CAN bit-timing parameters.
//!
//! A bit is divided into `1 + tseg1 + tseg2` time quanta, each quantum lasting
//! `brp` clock cycles, so the bitrate reached is `fclk / (brp * (1 + tseg1 + tseg2))`.
//! The search visits every `(brp, tseg1, tseg2)` of the given ranges in
//! lexicographic order and keeps the first one with the smallest error.

use vstd::prelude::*;

verus! {

/// Inclusive ranges of the three timing parameters.
#[derive(Debug, Clone, Copy)]
pub struct SearchRanges {
    pub brp_min: u32,
    pub brp_max: u32,
    pub tseg1_min: u32,
    pub tseg1_max: u32,
    pub tseg2_min: u32,
    pub tseg2_max: u32,
}

/// The bitrate reached by a candidate.
pub open spec fn rate(fclk: int, brp: int, tseg1: int, tseg2: int) -> int {
    fclk / (brp * (1 + tseg1 + tseg2))
}

/// Absolute difference between the bitrate reached and the bitrate asked for.
pub open spec fn rate_err(fclk: int, bitrate: int, brp: int, tseg1: int, tseg2: int) -> int {
    let a = rate(fclk, brp, tseg1, tseg2);
    if a >= bitrate {
        a - bitrate
    } else {
        bitrate - a
    }
}

/// `(b, t1, t2)` comes strictly before `(cb, ct1, ct2)` in lexicographic order.
pub open spec fn lex_lt(b: int, t1: int, t2: int, cb: int, ct1: int, ct2: int) -> bool {
    ||| b < cb
    ||| (b == cb && t1 < ct1)
    ||| (b == cb && t1 == ct1 && t2 < ct2)
}

impl SearchRanges {
    /// The candidate lies within all three ranges.
    pub open spec fn contains(self, b: int, t1: int, t2: int) -> bool {
        &&& self.brp_min <= b <= self.brp_max
        &&& self.tseg1_min <= t1 <= self.tseg1_max
        &&& self.tseg2_min <= t2 <= self.tseg2_max
    }

    /// At least one candidate exists.
    pub open spec fn nonempty(self) -> bool {
        &&& self.brp_min <= self.brp_max
        &&& self.tseg1_min <= self.tseg1_max
        &&& self.tseg2_min <= self.tseg2_max
    }

    /// Evaluating every candidate neither divides by zero nor overflows `u32`.
    pub open spec fn computable(self) -> bool {
        self.nonempty() ==> {
            &&& self.brp_min >= 1
            &&& self.brp_max * (1 + self.tseg1_max + self.tseg2_max) <= u32::MAX
        }
    }

    /// `(b, t1, t2)` is the first candidate, in lexicographic order, whose
    /// error is the smallest of all candidates.
    pub open spec fn is_best(self, fclk: int, bitrate: int, b: int, t1: int, t2: int) -> bool {
        self.is_best_by(false, fclk, bitrate, b, t1, t2)
    }

    /// `(b, t1, t2)` ranks first: no candidate has a smaller error, nor,
    /// when `prefer_quanta`, the same error with more time quanta; and every
    /// candidate before it in lexicographic order ranks strictly lower.
    pub open spec fn is_best_by(self, prefer_quanta: bool, fclk: int, bitrate: int, b: int, t1: int, t2: int) -> bool {
        let e = rate_err(fclk, bitrate, b, t1, t2);
        &&& self.contains(b, t1, t2)
        &&& forall|cb: int, ct1: int, ct2: int|
            #![trigger rate_err(fclk, bitrate, cb, ct1, ct2)]
            self.contains(cb, ct1, ct2) ==> ranks_no_higher(
                prefer_quanta,
                rate_err(fclk, bitrate, cb, ct1, ct2),
                ct1 + ct2,
                e,
                t1 + t2,
            )
        &&& forall|cb: int, ct1: int, ct2: int|
            #![trigger rate_err(fclk, bitrate, cb, ct1, ct2)]
            self.contains(cb, ct1, ct2) && lex_lt(cb, ct1, ct2, b, t1, t2) ==> ranks_lower(
                prefer_quanta,
                rate_err(fclk, bitrate, cb, ct1, ct2),
                ct1 + ct2,
                e,
                t1 + t2,
            )
    }

    /// Every candidate before `(b, t1, t2)` ranks no higher than one with
    /// error `best` and segment sum `sum`, and strictly lower when it also
    /// comes before `(bb, bt1, bt2)`.
    pub open spec fn seen_ok(
        self,
        prefer_quanta: bool,
        fclk: int,
        bitrate: int,
        b: int,
        t1: int,
        t2: int,
        best: int,
        sum: int,
        bb: int,
        bt1: int,
        bt2: int,
    ) -> bool {
        &&& forall|cb: int, ct1: int, ct2: int|
            #![trigger rate_err(fclk, bitrate, cb, ct1, ct2)]
            self.contains(cb, ct1, ct2) && lex_lt(cb, ct1, ct2, b, t1, t2) ==> ranks_no_higher(
                prefer_quanta,
                rate_err(fclk, bitrate, cb, ct1, ct2),
                ct1 + ct2,
                best,
                sum,
            )
        &&& forall|cb: int, ct1: int, ct2: int|
            #![trigger rate_err(fclk, bitrate, cb, ct1, ct2)]
            self.contains(cb, ct1, ct2) && lex_lt(cb, ct1, ct2, b, t1, t2) && lex_lt(
                cb,
                ct1,
                ct2,
                bb,
                bt1,
                bt2,
            ) ==> ranks_lower(prefer_quanta, rate_err(fclk, bitrate, cb, ct1, ct2), ct1 + ct2, best, sum)
    }
}

/// A candidate with error `ec` and segment sum `sc` ranks no higher than one
/// with error `e` and sum `s`: its error is larger, or equal with (when
/// more time quanta are preferred) no more quanta.
pub open spec fn ranks_no_higher(prefer_quanta: bool, ec: int, sc: int, e: int, s: int) -> bool {
    ec > e || (ec == e && (!prefer_quanta || sc <= s))
}

/// A candidate with error `ec` and segment sum `sc` ranks strictly lower
/// than one with error `e` and sum `s`: its error is larger, or equal with
/// fewer time quanta when more are preferred.
pub open spec fn ranks_lower(prefer_quanta: bool, ec: int, sc: int, e: int, s: int) -> bool {
    ec > e || (prefer_quanta && ec == e && sc < s)
}

/// At most one candidate is the best: the search result is determined by the
/// clock, the bitrate asked for and the ranges alone.
pub proof fn lemma_best_unique(
    r: SearchRanges,
    prefer_quanta: bool,
    fclk: int,
    bitrate: int,
    b: int,
    t1: int,
    t2: int,
    cb: int,
    ct1: int,
    ct2: int,
)
    requires
        r.is_best_by(prefer_quanta, fclk, bitrate, b, t1, t2),
        r.is_best_by(prefer_quanta, fclk, bitrate, cb, ct1, ct2),
    ensures
        b == cb && t1 == ct1 && t2 == ct2,
{
    let e1 = rate_err(fclk, bitrate, b, t1, t2);
    let e2 = rate_err(fclk, bitrate, cb, ct1, ct2);
    if lex_lt(b, t1, t2, cb, ct1, ct2) {
        assert(ranks_lower(prefer_quanta, e1, t1 + t2, e2, ct1 + ct2));
        assert(ranks_no_higher(prefer_quanta, e1, t1 + t2, e2, ct1 + ct2));
    } else if lex_lt(cb, ct1, ct2, b, t1, t2) {
        assert(ranks_lower(prefer_quanta, e2, ct1 + ct2, e1, t1 + t2));
        assert(ranks_no_higher(prefer_quanta, e2, ct1 + ct2, e1, t1 + t2));
    }
}

/// A candidate of a nonempty, computable range neither divides by zero nor overflows.
proof fn lemma_product_fits(r: SearchRanges, b: int, t1: int, t2: int)
    requires
        r.computable(),
        r.contains(b, t1, t2),
    ensures
        b >= 1,
        1 + t1 + t2 >= 1,
        b * (1 + t1 + t2) <= u32::MAX,
        b * (1 + t1 + t2) >= 1,
        1 + t1 + t2 <= u32::MAX,
{
    let m = 1 + r.tseg1_max + r.tseg2_max;
    assert(b * (1 + t1 + t2) <= r.brp_max * m) by (nonlinear_arith)
        requires
            1 <= b <= r.brp_max,
            1 <= 1 + t1 + t2 <= m,
    ;
    assert(b * (1 + t1 + t2) >= 1 + t1 + t2) by (nonlinear_arith)
        requires
            1 <= b,
            1 <= 1 + t1 + t2,
    ;
}

/// The bitrate error of one candidate.
fn candidate_err(fclk: u32, bitrate: u32, r: &SearchRanges, brp: u32, tseg1: u32, tseg2: u32) -> (e: u64)
    requires
        r.computable(),
        r.contains(brp as int, tseg1 as int, tseg2 as int),
    ensures
        e == rate_err(fclk as int, bitrate as int, brp as int, tseg1 as int, tseg2 as int),
{
    proof {
        lemma_product_fits(*r, brp as int, tseg1 as int, tseg2 as int);
    }
    let tq = 1 + tseg1 + tseg2;
    let actual = fclk / (brp * tq);
    if actual >= bitrate {
        (actual - bitrate) as u64
    } else {
        (bitrate - actual) as u64
    }
}

/// Find the first candidate with the smallest bitrate error, among equal
/// errors the one with most time quanta when `prefer_quanta`; `None` when
/// the ranges hold no candidate.
pub fn search(fclk: u32, bitrate: u32, r: &SearchRanges, prefer_quanta: bool) -> (res: Option<(u32, u32, u32)>)
    requires
        r.computable(),
    ensures
        res is None <==> !r.nonempty(),
        res matches Some((b, t1, t2)) ==> r.is_best_by(
            prefer_quanta,
            fclk as int,
            bitrate as int,
            b as int,
            t1 as int,
            t2 as int,
        ),
{
    let ghost fc = fclk as int;
    let ghost br = bitrate as int;
    let mut found = false;
    let mut best_err: u64 = 0;
    let mut best_brp: u32 = 0;
    let mut best_t1: u32 = 0;
    let mut best_t2: u32 = 0;
    if !(r.brp_min <= r.brp_max && r.tseg1_min <= r.tseg1_max && r.tseg2_min <= r.tseg2_max) {
        return None;
    }
    let mut brp: u64 = r.brp_min as u64;
    while brp <= r.brp_max as u64
        invariant
            r.computable(),
            r.nonempty(),
            fc == fclk as int,
            br == bitrate as int,
            r.brp_min <= brp <= r.brp_max as int + 1,
            found ==> r.contains(best_brp as int, best_t1 as int, best_t2 as int),
            found ==> best_err == rate_err(fc, br, best_brp as int, best_t1 as int, best_t2 as int),
            !found ==> brp == r.brp_min,
            found ==> lex_lt(best_brp as int, best_t1 as int, best_t2 as int, brp as int, 0, 0),
            found ==> r.seen_ok(prefer_quanta, fc, br, brp as int, 0, 0, best_err as int, best_t1 + best_t2, best_brp as int, best_t1 as int, best_t2 as int),
        decreases r.brp_max as int + 1 - brp,
    {
        let mut t1: u64 = r.tseg1_min as u64;
        while t1 <= r.tseg1_max as u64
            invariant
                r.computable(),
                r.nonempty(),
                fc == fclk as int,
                br == bitrate as int,
                r.brp_min <= brp <= r.brp_max,
                r.tseg1_min <= t1 <= r.tseg1_max as int + 1,
                found ==> r.contains(best_brp as int, best_t1 as int, best_t2 as int),
                found ==> best_err == rate_err(fc, br, best_brp as int, best_t1 as int, best_t2 as int),
                !found ==> brp == r.brp_min && t1 == r.tseg1_min,
                found ==> lex_lt(best_brp as int, best_t1 as int, best_t2 as int, brp as int, t1 as int, 0),
                found ==> r.seen_ok(prefer_quanta, fc, br, brp as int, t1 as int, 0, best_err as int, best_t1 + best_t2, best_brp as int, best_t1 as int, best_t2 as int),
            decreases r.tseg1_max as int + 1 - t1,
        {
            let mut t2: u64 = r.tseg2_min as u64;
            while t2 <= r.tseg2_max as u64
                invariant
                    r.computable(),
                    r.nonempty(),
                    fc == fclk as int,
                    br == bitrate as int,
                    r.brp_min <= brp <= r.brp_max,
                    r.tseg1_min <= t1 <= r.tseg1_max,
                    r.tseg2_min <= t2 <= r.tseg2_max as int + 1,
                    found ==> r.contains(best_brp as int, best_t1 as int, best_t2 as int),
                    found ==> best_err == rate_err(fc, br, best_brp as int, best_t1 as int, best_t2 as int),
                    !found ==> brp == r.brp_min && t1 == r.tseg1_min && t2 == r.tseg2_min,
                    found ==> lex_lt(best_brp as int, best_t1 as int, best_t2 as int, brp as int, t1 as int, t2 as int),
                    found ==> r.seen_ok(prefer_quanta, fc, br, brp as int, t1 as int, t2 as int, best_err as int, best_t1 + best_t2, best_brp as int, best_t1 as int, best_t2 as int),
                decreases r.tseg2_max as int + 1 - t2,
            {
                let e = candidate_err(fclk, bitrate, r, brp as u32, t1 as u32, t2 as u32);
                let ghost old_found = found;
                let ghost old_best = best_err as int;
                let ghost old_sum = best_t1 + best_t2;
                if !found || e < best_err || (prefer_quanta && e == best_err && t1 + t2 > best_t1 as u64
                    + best_t2 as u64) {
                    found = true;
                    best_err = e;
                    best_brp = brp as u32;
                    best_t1 = t1 as u32;
                    best_t2 = t2 as u32;
                }
                proof {
                    let (b0, t10, t20) = (brp as int, t1 as int, t2 as int);
                    assert forall|cb: int, ct1: int, ct2: int|
                        #![trigger rate_err(fc, br, cb, ct1, ct2)]
                        r.contains(cb, ct1, ct2) && lex_lt(cb, ct1, ct2, b0, t10, t20 + 1)
                        implies ranks_no_higher(prefer_quanta, rate_err(fc, br, cb, ct1, ct2), ct1 + ct2, best_err as int, best_t1 + best_t2)
                        && (lex_lt(cb, ct1, ct2, best_brp as int, best_t1 as int, best_t2 as int)
                            ==> ranks_lower(prefer_quanta, rate_err(fc, br, cb, ct1, ct2), ct1 + ct2, best_err as int, best_t1 + best_t2)) by {
                        if lex_lt(cb, ct1, ct2, b0, t10, t20) {
                            assert(old_found);
                            assert(ranks_no_higher(prefer_quanta, rate_err(fc, br, cb, ct1, ct2), ct1 + ct2, old_best, old_sum));
                        }
                    }
                }
                t2 = t2 + 1;
            }
            proof {
                let (b0, t10) = (brp as int, t1 as int);
                assert forall|cb: int, ct1: int, ct2: int|
                    #![trigger rate_err(fc, br, cb, ct1, ct2)]
                    r.contains(cb, ct1, ct2) && lex_lt(cb, ct1, ct2, b0, t10 + 1, 0)
                    implies lex_lt(cb, ct1, ct2, b0, t10, t2 as int) by {}
            }
            t1 = t1 + 1;
        }
        proof {
            let b0 = brp as int;
            assert forall|cb: int, ct1: int, ct2: int|
                #![trigger rate_err(fc, br, cb, ct1, ct2)]
                r.contains(cb, ct1, ct2) && lex_lt(cb, ct1, ct2, b0 + 1, 0, 0)
                implies lex_lt(cb, ct1, ct2, b0, t1 as int, 0) by {}
        }
        brp = brp + 1;
    }
    proof {
        assert forall|cb: int, ct1: int, ct2: int|
            #![trigger rate_err(fc, br, cb, ct1, ct2)]
            r.contains(cb, ct1, ct2) implies lex_lt(cb, ct1, ct2, brp as int, 0, 0) by {}
    }
    Some((best_brp, best_t1, best_t2))
}

} // verus!
