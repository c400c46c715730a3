//! Laws of the cross-line conversions.
//!
//! The central result is [`lemma_round_trip_stabilizes`]: converting a valid
//! 24-hour value to the metric base and back need not return the value
//! itself — the guarded decomposition truncates a count whose hour, minute or
//! second field comes out zero — but one round trip absorbs all the loss, and
//! every further round trip returns its input unchanged.
//!
//! The supporting fact is [`lemma_rescale_round_trip`]: at the level of raw
//! nanosecond counts the floored standard-to-metric rescale followed by the
//! ceiled metric-to-standard rescale is exact, so all loss comes from the
//! guarded decomposition, never from the rescale itself.

use vstd::arithmetic::div_mod::{
    lemma_div_is_ordered, lemma_fundamental_div_mod, lemma_fundamental_div_mod_converse,
    lemma_mod_bound,
};
use vstd::prelude::*;

use crate::constants::{NS_PER_DAY_METRIC, NS_PER_DAY_STANDARD};
use crate::conversion_utils::{
    metric_of_standard, spec_base10_to_base24, spec_base24_to_base10, spec_decompose,
    spec_ns_since_midnight, standard_of_metric,
};
use crate::time_lib::{components_in_bounds, TimeComponents, TimeKind};

verus! {

// The round trip stabilizes ----------------------------------------------------------- /

/// Converting valid 24-hour components to the metric base and back need not
/// return them unchanged — the guarded decomposition truncates a count whose
/// hour, minute or second field comes out zero — but the loss is absorbed
/// entirely by the first round trip: converting the result forward and back
/// again returns it exactly, and the result is itself valid for the 24-hour
/// base.
#[verifier::rlimit(100)]
pub proof fn lemma_round_trip_stabilizes(c: TimeComponents)
    requires
        components_in_bounds(c, TimeKind::Base24),
    ensures
        components_in_bounds(
            spec_base10_to_base24(spec_base24_to_base10(c)),
            TimeKind::Base24,
        ),
        spec_base10_to_base24(
            spec_base24_to_base10(spec_base10_to_base24(spec_base24_to_base10(c))),
        ) == spec_base10_to_base24(spec_base24_to_base10(c)),
{
    let x = spec_ns_since_midnight(c, TimeKind::Base24);
    assert(0 <= x <= 86_399_999_999_999);
    let y = metric_of_standard(x);
    lemma_fundamental_div_mod(x * 125, 108);
    lemma_mod_bound(x * 125, 108);
    lemma_div_is_ordered(x * 125, 86_399_999_999_999int * 125, 108);
    assert(0 <= y <= 99_999_999_999_998);
    let cm = spec_base24_to_base10(c);
    lemma_metric_truncation_form(y);
    let yt = metric_requantized(y);
    assert(spec_ns_since_midnight(cm, TimeKind::Base10) == yt);
    crate::conversion_utils::lemma_base24_to_base10_in_bounds(c);
    crate::conversion_utils::lemma_base10_to_base24_in_bounds(cm);
    let xp = standard_of_metric(yt);
    let cp = spec_base10_to_base24(cm);
    assert(cp == spec_decompose(xp, 3_600_000_000_000, 60_000_000_000));
    if yt % 100_000_000_000 == 0 {
        if yt == 0 {
            lemma_fundamental_div_mod_converse(124, 125, 0, 124);
            assert(xp == 0);
            lemma_round_trip_fixed_on_quantized(0);
        } else {
            // The first conversion kept a whole number of metric minutes.
            let k = yt / 100_000_000_000;
            lemma_fundamental_div_mod(yt, 100_000_000_000);
            assert(yt == k * 100_000_000_000);
            assert(yt >= 10_000_000_000_000);
            assert(100 <= k <= 999);
            lemma_rescale_exact_minutes(k);
            assert(xp == k * 86_400_000_000);
            lemma_stable_after_exact_minutes(k, y);
        }
    } else {
        // The first conversion kept the metric count exactly.
        assert(yt == y);
        lemma_rescale_round_trip(x);
        assert(xp == x);
        assert(y >= 10_000_000_000_000);
        lemma_stable_when_metric_kept(x, y);
    }
}

/// When the first conversion kept the whole metric count, the standard value
/// it maps back to is a fixed point of the round trip, wherever the standard
/// decomposition truncates it.
#[verifier::rlimit(100)]
proof fn lemma_stable_when_metric_kept(x: int, y: int)
    requires
        0 <= x <= 86_399_999_999_999,
        y == metric_of_standard(x),
        metric_requantized(y) == y,
        y >= 10_000_000_000_000,
    ensures
        ({
            let cp = spec_decompose(x, 3_600_000_000_000, 60_000_000_000);
            spec_base10_to_base24(spec_base24_to_base10(cp)) == cp
        }),
{
    lemma_fundamental_div_mod(x * 125, 108);
    lemma_mod_bound(x * 125, 108);
    assert(x >= 8_640_000_000_000);
    lemma_standard_truncation_form(x);
    let x2 = standard_requantized(x);
    if x2 == x {
        // No loss at all: the value is already a fixed point.
        lemma_round_trip_fixed_on_lossless(x, y);
    } else if x % 3_600_000_000_000 < 60_000_000_000 {
        // The sub-hour part was dropped.
        let h2 = x / 3_600_000_000_000;
        lemma_fundamental_div_mod(x, 3_600_000_000_000);
        lemma_mod_bound(x, 3_600_000_000_000);
        assert(h2 >= 3);
        assert(x2 == (60 * h2) * 60_000_000_000) by (nonlinear_arith)
            requires
                x2 == h2 * 3_600_000_000_000,
        ;
        lemma_whole_minutes_image(60 * h2);
        lemma_fundamental_div_mod_converse(60 * h2, 2, 30 * h2, 0);
        lemma_stable_after_whole_minutes(60 * h2, x);
    } else {
        // The sub-minute part was dropped.
        let n2 = x / 60_000_000_000;
        lemma_fundamental_div_mod(x, 60_000_000_000);
        lemma_mod_bound(x, 60_000_000_000);
        let e = x % 60_000_000_000;
        assert(x2 == n2 * 60_000_000_000);
        assert(0 < e < 1_000_000_000);
        assert(144 <= n2 <= 1439);
        lemma_whole_minutes_image(n2);
        let y2 = metric_of_standard(x2);
        if metric_requantized(y2) == y2 {
            lemma_stable_after_whole_minutes(n2, x);
        } else {
            // The lossy pattern cannot arise here: the original metric count
            // kept every field, so its sub-hour part cannot sit in the
            // dropped band just above the image of the kept minutes.
            lemma_kept_count_excludes_lossy_band(x, y, x2, e, y2);
        }
    }
}

/// The one lossy image pattern contradicts a fully kept metric count: the
/// count would then sit in the dropped band just above the image of its own
/// whole minutes, where its metric minute field is zero over a nonzero
/// remainder.
proof fn lemma_kept_count_excludes_lossy_band(x: int, y: int, x2: int, e: int, y2: int)
    requires
        0 <= x2,
        x == x2 + e,
        0 < e < 1_000_000_000,
        y == metric_of_standard(x),
        y2 == metric_of_standard(x2),
        y2 % 10_000_000_000_000 == 69_444_444_444,
        10_000_000_000_000 <= y2 < NS_PER_DAY_METRIC,
    ensures
        metric_requantized(y) < y,
{
    let bigq = y2 / 10_000_000_000_000;
    lemma_fundamental_div_mod(y2, 10_000_000_000_000);
    assert(y2 == bigq * 10_000_000_000_000 + 69_444_444_444);
    assert(1 <= bigq <= 9);
    lemma_metric_of_standard_growth(x2, e);
    lemma_div_is_ordered(e * 125, 999_999_999int * 125, 108);
    assert(y <= y2 + 1_157_407_407);
    let w = y - bigq * 10_000_000_000_000;
    assert(69_444_444_444 <= w <= 70_601_851_851);
    lemma_fundamental_div_mod_converse(y, 10_000_000_000_000, bigq, w);
    lemma_fundamental_div_mod_converse(w, 100_000_000_000, 0, w);
    assert(metric_requantized(y) == bigq * 10_000_000_000_000);
}

/// A quantized standard count — one the guarded standard decomposition keeps
/// unchanged, and whose metric image the guarded metric decomposition also
/// keeps unchanged — is a fixed point of the full round trip.
proof fn lemma_round_trip_fixed_on_quantized(x2: int)
    requires
        0 <= x2 < NS_PER_DAY_STANDARD,
        standard_requantized(x2) == x2,
        metric_requantized(metric_of_standard(x2)) == metric_of_standard(x2),
    ensures
        ({
            let cq = spec_decompose(x2, 3_600_000_000_000, 60_000_000_000);
            spec_base10_to_base24(spec_base24_to_base10(cq)) == cq
        }),
{
    let cq = spec_decompose(x2, 3_600_000_000_000, 60_000_000_000);
    assert(spec_ns_since_midnight(cq, TimeKind::Base24) == standard_requantized(x2));
    let y2 = metric_of_standard(x2);
    let m2 = spec_base24_to_base10(cq);
    assert(m2 == spec_decompose(y2, 10_000_000_000_000, 100_000_000_000));
    assert(spec_ns_since_midnight(m2, TimeKind::Base10) == metric_requantized(y2));
    lemma_rescale_round_trip(x2);
    assert(spec_base10_to_base24(m2) == spec_decompose(
        x2,
        3_600_000_000_000,
        60_000_000_000,
    ));
}

/// After an hour- or minute-level truncation the kept count is a whole number
/// of minutes whose metric image decomposes exactly, so the value the first
/// round trip produced is a fixed point of the next one.
proof fn lemma_stable_after_whole_minutes(n: int, x: int)
    requires
        144 <= n < 1440,
        0 <= x < NS_PER_DAY_STANDARD,
        standard_requantized(x) == n * 60_000_000_000,
        metric_requantized(metric_of_standard(n * 60_000_000_000)) == metric_of_standard(
            n * 60_000_000_000,
        ),
    ensures
        ({
            let cp = spec_decompose(x, 3_600_000_000_000, 60_000_000_000);
            spec_base10_to_base24(spec_base24_to_base10(cp)) == cp
        }),
{
    let x2 = n * 60_000_000_000;
    lemma_standard_truncation_form(x);
    lemma_requantize_whole_std_minutes(n, 3_600_000_000_000, 60_000_000_000);
    lemma_round_trip_fixed_on_quantized(x2);
}

/// A lossless first round trip — no truncation in either decomposition —
/// makes the value a fixed point of the next one.
proof fn lemma_round_trip_fixed_on_lossless(x: int, y: int)
    requires
        0 <= x < NS_PER_DAY_STANDARD,
        y == metric_of_standard(x),
        standard_requantized(x) == x,
        metric_requantized(y) == y,
    ensures
        ({
            let cp = spec_decompose(x, 3_600_000_000_000, 60_000_000_000);
            spec_base10_to_base24(spec_base24_to_base10(cp)) == cp
        }),
{
    lemma_round_trip_fixed_on_quantized(x);
}

/// After the first conversion kept a whole number of metric minutes, the
/// standard value it produces is a fixed point of the round trip.
proof fn lemma_stable_after_exact_minutes(k: int, y: int)
    requires
        100 <= k < 1000,
        0 <= y < NS_PER_DAY_METRIC,
        metric_requantized(y) == k * 100_000_000_000,
        metric_requantized(y) <= y,
        spec_decompose(metric_requantized(y), 10_000_000_000_000, 100_000_000_000)
            == spec_decompose(y, 10_000_000_000_000, 100_000_000_000),
    ensures
        ({
            let xp = k * 86_400_000_000;
            let cp = spec_decompose(xp, 3_600_000_000_000, 60_000_000_000);
            spec_base10_to_base24(spec_base24_to_base10(cp)) == cp
        }),
{
    let yt = k * 100_000_000_000;
    let xp = k * 86_400_000_000;
    lemma_rescale_exact_minutes(k);
    assert(0 <= xp < NS_PER_DAY_STANDARD);
    lemma_standard_truncation_form(xp);
    let x2 = standard_requantized(xp);
    let cp = spec_decompose(xp, 3_600_000_000_000, 60_000_000_000);
    assert(spec_ns_since_midnight(cp, TimeKind::Base24) == x2);
    if x2 == xp {
        // The standard reading of the kept minutes decomposes exactly, and
        // its metric image is the kept minutes themselves.
        lemma_requantize_whole_minutes(k, 10_000_000_000_000, 100_000_000_000);
        lemma_round_trip_fixed_on_quantized(xp);
    } else if xp % 3_600_000_000_000 < 60_000_000_000 {
        // The sub-hour part of the standard reading was dropped.
        let h2 = xp / 3_600_000_000_000;
        lemma_fundamental_div_mod(xp, 3_600_000_000_000);
        lemma_mod_bound(xp, 3_600_000_000_000);
        assert(xp >= 8_640_000_000_000);
        assert(h2 >= 3);
        assert(x2 == (60 * h2) * 60_000_000_000) by (nonlinear_arith)
            requires
                x2 == h2 * 3_600_000_000_000,
        ;
        lemma_whole_minutes_image(60 * h2);
        lemma_fundamental_div_mod_converse(60 * h2, 2, 30 * h2, 0);
        lemma_stable_after_whole_minutes(60 * h2, xp);
    } else {
        // A sub-minute truncation of the standard reading cannot happen: the
        // reading is a whole multiple of 2.4 seconds, so its sub-minute part
        // is never a nonzero count below one second.
        let w = 36 * k;
        assert(xp == 2_400_000_000 * w) by (nonlinear_arith)
            requires
                xp == k * 86_400_000_000,
                w == 36 * k,
        ;
        lemma_fundamental_div_mod(w, 25);
        lemma_mod_bound(w, 25);
        assert(xp == 60_000_000_000 * (w / 25) + 2_400_000_000 * (w % 25)) by (nonlinear_arith)
            requires
                xp == 2_400_000_000 * w,
                w == 25 * (w / 25) + (w % 25),
        ;
        lemma_fundamental_div_mod_converse(
            xp,
            60_000_000_000,
            w / 25,
            2_400_000_000 * (w % 25),
        );
        assert(xp % 60_000_000_000 == 2_400_000_000 * (w % 25));
        assert(false);
    }
}

// Abbreviations ----------------------------------------------------------------------- /

/// The nanosecond count a metric decomposition keeps of a metric count.
spec fn metric_requantized(y: int) -> int {
    spec_ns_since_midnight(
        spec_decompose(y, 10_000_000_000_000, 100_000_000_000),
        TimeKind::Base10,
    )
}

/// The nanosecond count a standard decomposition keeps of a standard count.
spec fn standard_requantized(x: int) -> int {
    spec_ns_since_midnight(
        spec_decompose(x, 3_600_000_000_000, 60_000_000_000),
        TimeKind::Base24,
    )
}

// Rescaling is exact on counts ------------------------------------------------------- /

/// Rescaling a standard nanosecond count to the metric line (floored) and
/// back to the standard line (ceiled) returns the count exactly, whatever it
/// is: the rescale itself loses nothing on a round trip.
pub proof fn lemma_rescale_round_trip(x: int)
    requires
        0 <= x,
    ensures
        standard_of_metric(metric_of_standard(x)) == x,
{
    let y = metric_of_standard(x);
    lemma_fundamental_div_mod(x * 125, 108);
    lemma_mod_bound(x * 125, 108);
    let u = (x * 125) % 108;
    assert(108 * y + u == x * 125);
    assert(108 * y + 124 == 125 * x + (124 - u));
    lemma_fundamental_div_mod_converse(y * 108 + 124, 125, x, 124 - u);
}

/// A metric count that is a whole number of metric minutes rescales exactly:
/// the ceiled move to the standard line is an exact product, and the floored
/// move back returns the count itself.
proof fn lemma_rescale_exact_minutes(k: int)
    requires
        0 <= k,
    ensures
        standard_of_metric(k * 100_000_000_000) == k * 86_400_000_000,
        metric_of_standard(k * 86_400_000_000) == k * 100_000_000_000,
{
    let y = k * 100_000_000_000;
    let x = k * 86_400_000_000;
    assert(y * 108 + 124 == 125 * x + 124) by (nonlinear_arith)
        requires
            y == k * 100_000_000_000,
            x == k * 86_400_000_000,
    ;
    lemma_fundamental_div_mod_converse(y * 108 + 124, 125, x, 124);
    assert(x * 125 == 108 * y) by (nonlinear_arith)
        requires
            y == k * 100_000_000_000,
            x == k * 86_400_000_000,
    ;
    lemma_fundamental_div_mod_converse(x * 125, 108, y, 0);
}

/// The floored rescale to the metric line is monotone, and an increase of the
/// input raises the output by at most the rescaled increase plus one.
proof fn lemma_metric_of_standard_growth(a: int, e: int)
    requires
        0 <= a,
        0 <= e,
    ensures
        metric_of_standard(a) <= metric_of_standard(a + e),
        metric_of_standard(a + e) <= metric_of_standard(a) + (e * 125) / 108 + 1,
{
    lemma_div_is_ordered(a * 125, (a + e) * 125, 108);
    lemma_fundamental_div_mod(a * 125, 108);
    lemma_mod_bound(a * 125, 108);
    lemma_fundamental_div_mod(e * 125, 108);
    lemma_mod_bound(e * 125, 108);
    lemma_fundamental_div_mod((a + e) * 125, 108);
    lemma_mod_bound((a + e) * 125, 108);
    let qa = (a * 125) / 108;
    let qe = (e * 125) / 108;
    let q = ((a + e) * 125) / 108;
    assert((a + e) * 125 == a * 125 + e * 125) by (nonlinear_arith);
    assert(108 * q <= 108 * (qa + qe) + 214);
    assert(q <= qa + qe + 1) by (nonlinear_arith)
        requires
            108 * q <= 108 * (qa + qe) + 214,
    ;
}

// Shape of the guarded decompositions ------------------------------------------------- /

/// What a metric decomposition keeps of a count below one metric day: either
/// the count itself, or — when the count's hour field is zero, or its
/// sub-hour part is a nonzero count below one metric minute, or its
/// sub-minute part is a nonzero count below one second — zero or a truncation
/// to a whole number of metric hours or metric minutes. The kept count
/// decomposes to the same components as the original count.
proof fn lemma_metric_truncation_form(y: int)
    requires
        0 <= y < NS_PER_DAY_METRIC,
    ensures
        metric_requantized(y) <= y,
        spec_decompose(metric_requantized(y), 10_000_000_000_000, 100_000_000_000)
            == spec_decompose(y, 10_000_000_000_000, 100_000_000_000),
        metric_requantized(y) == y || metric_requantized(y) % 100_000_000_000 == 0,
        y < 10_000_000_000_000 ==> metric_requantized(y) == 0,
        y >= 10_000_000_000_000 ==> metric_requantized(y) >= 10_000_000_000_000,
{
    let ph = 10_000_000_000_000int;
    let pm = 100_000_000_000int;
    let ns = 1_000_000_000int;
    lemma_fundamental_div_mod(y, ph);
    lemma_mod_bound(y, ph);
    let h = y / ph;
    if h > 0 {
        let rem1 = y - h * ph;
        lemma_fundamental_div_mod(rem1, pm);
        lemma_mod_bound(rem1, pm);
        let m = rem1 / pm;
        if m > 0 {
            let rem2 = rem1 - m * pm;
            lemma_fundamental_div_mod(rem2, ns);
            lemma_mod_bound(rem2, ns);
            let s = rem2 / ns;
            if s > 0 {
                // No truncation: every remainder is carried down exactly.
                assert(metric_requantized(y) == y);
            } else {
                // The sub-minute part is dropped; what is kept is a whole
                // number of metric minutes.
                let yt = h * ph + m * pm;
                assert(metric_requantized(y) == yt);
                lemma_requantize_whole_minutes(h * 100 + m, ph, pm);
            }
        } else {
            // The sub-hour part is dropped; what is kept is a whole number
            // of metric hours.
            let yt = h * ph;
            assert(metric_requantized(y) == yt);
            lemma_requantize_whole_minutes(h * 100, ph, pm);
        }
    } else {
        assert(metric_requantized(y) == 0);
    }
}

/// A whole number of metric minutes (below one metric day) decomposes into
/// its hour and minute fields and recomposes to itself.
proof fn lemma_requantize_whole_minutes(k: int, ph: int, pm: int)
    requires
        ph == 10_000_000_000_000,
        pm == 100_000_000_000,
        100 <= k < 1000,
    ensures
        spec_decompose(k * pm, ph, pm) == (TimeComponents {
            hours: (k / 100) as u8,
            minutes: (k % 100) as u8,
            seconds: 0,
            nanoseconds: 0,
        }),
        metric_requantized(k * pm) == k * pm,
        (k * pm) % pm == 0,
{
    let y = k * pm;
    let h = k / 100;
    let m = k % 100;
    lemma_fundamental_div_mod(k, 100);
    lemma_mod_bound(k, 100);
    assert(y == h * ph + m * pm) by (nonlinear_arith)
        requires
            y == k * pm,
            k == 100 * h + m,
            ph == 10_000_000_000_000,
            pm == 100_000_000_000,
    ;
    lemma_fundamental_div_mod_converse(y, ph, h, m * pm);
    lemma_fundamental_div_mod_converse(m * pm, pm, m, 0);
    lemma_fundamental_div_mod_converse(0, 1_000_000_000, 0, 0);
    lemma_fundamental_div_mod_converse(y, pm, k, 0);
}

/// What a standard decomposition keeps of a count below one standard day:
/// either the count itself; or zero, when the count is below one hour; or a
/// truncation to a whole number of hours, when the sub-hour part is a nonzero
/// count below one minute; or a truncation to a whole number of minutes, when
/// the sub-minute part is a nonzero count below one second. The kept count
/// decomposes to the same components as the original.
proof fn lemma_standard_truncation_form(x: int)
    requires
        0 <= x < NS_PER_DAY_STANDARD,
    ensures
        standard_requantized(x) <= x,
        spec_decompose(standard_requantized(x), 3_600_000_000_000, 60_000_000_000)
            == spec_decompose(x, 3_600_000_000_000, 60_000_000_000),
        standard_requantized(x) == x || (x < 3_600_000_000_000 && standard_requantized(x) == 0) || (
        standard_requantized(x) == (x / 3_600_000_000_000) * 3_600_000_000_000 && 0 < x
            % 3_600_000_000_000 < 60_000_000_000) || (standard_requantized(x) == (x
            / 60_000_000_000) * 60_000_000_000 && x % 3_600_000_000_000 >= 60_000_000_000 && 0 < x
            % 60_000_000_000 < 1_000_000_000),
{
    let ph = 3_600_000_000_000int;
    let pm = 60_000_000_000int;
    let ns = 1_000_000_000int;
    lemma_fundamental_div_mod(x, ph);
    lemma_mod_bound(x, ph);
    let h = x / ph;
    if h > 0 {
        let rem1 = x - h * ph;
        lemma_fundamental_div_mod(rem1, pm);
        lemma_mod_bound(rem1, pm);
        let m = rem1 / pm;
        if m > 0 {
            let rem2 = rem1 - m * pm;
            lemma_fundamental_div_mod(rem2, ns);
            lemma_mod_bound(rem2, ns);
            let s = rem2 / ns;
            if s > 0 {
                assert(standard_requantized(x) == x);
            } else if rem2 == 0 {
                assert(standard_requantized(x) == x);
            } else {
                // Sub-minute truncation to a whole number of minutes.
                let n = h * 60 + m;
                assert(x - rem2 == n * pm) by (nonlinear_arith)
                    requires
                        x == h * ph + rem1,
                        rem1 == m * pm + rem2,
                        n == h * 60 + m,
                        ph == 3_600_000_000_000,
                        pm == 60_000_000_000,
                ;
                lemma_requantize_whole_std_minutes(n, ph, pm);
                lemma_fundamental_div_mod_converse(x, pm, n, rem2);
            }
        } else if rem1 == 0 {
            assert(standard_requantized(x) == x);
        } else {
            // Sub-hour truncation to a whole number of hours.
            lemma_requantize_whole_std_minutes(h * 60, ph, pm);
            assert(h * ph == (h * 60) * pm) by (nonlinear_arith)
                requires
                    ph == 3_600_000_000_000,
                    pm == 60_000_000_000,
            ;
        }
    } else {
        assert(standard_requantized(x) == 0);
    }
}

/// A whole number of standard minutes (below one standard day) decomposes
/// into its hour and minute fields and recomposes to itself.
proof fn lemma_requantize_whole_std_minutes(n: int, ph: int, pm: int)
    requires
        ph == 3_600_000_000_000,
        pm == 60_000_000_000,
        60 <= n < 1440,
    ensures
        spec_decompose(n * pm, ph, pm) == (TimeComponents {
            hours: (n / 60) as u8,
            minutes: (n % 60) as u8,
            seconds: 0,
            nanoseconds: 0,
        }),
        standard_requantized(n * pm) == n * pm,
        (n * pm) % pm == 0,
{
    let x = n * pm;
    let h = n / 60;
    let m = n % 60;
    lemma_fundamental_div_mod(n, 60);
    lemma_mod_bound(n, 60);
    assert(x == h * ph + m * pm) by (nonlinear_arith)
        requires
            x == n * pm,
            n == 60 * h + m,
            ph == 3_600_000_000_000,
            pm == 60_000_000_000,
    ;
    lemma_fundamental_div_mod_converse(x, ph, h, m * pm);
    lemma_fundamental_div_mod_converse(m * pm, pm, m, 0);
    lemma_fundamental_div_mod_converse(0, 1_000_000_000, 0, 0);
    lemma_fundamental_div_mod_converse(x, pm, n, 0);
}

/// Decomposing the metric image of a whole number of standard minutes is
/// almost always exact. The image is `floor(625 n / 9)` thousand-millionths;
/// writing `625 n = 9 q + r`, the only way a nonzero remainder can hide below
/// a zero field of the decomposition is `q ≡ 69 (mod 10000)` with `r == 4`,
/// which forces `n ≡ 1 (mod 144)` — an odd count whose image carries exactly
/// `69444444444` below the hour.
proof fn lemma_whole_minutes_image(n: int)
    requires
        144 <= n < 1440,
    ensures
        metric_requantized(metric_of_standard(n * 60_000_000_000)) == metric_of_standard(
            n * 60_000_000_000,
        ) || (metric_of_standard(n * 60_000_000_000) % 10_000_000_000_000 == 69_444_444_444 && n
            % 2 == 1),
        metric_of_standard(n * 60_000_000_000) >= 10_000_000_000_000,
        metric_of_standard(n * 60_000_000_000) < NS_PER_DAY_METRIC,
{
    let x2 = n * 60_000_000_000;
    let v = x2 * 125;
    let u = 625 * n;
    assert(v == 12 * (u * 1_000_000_000)) by (nonlinear_arith)
        requires
            x2 == n * 60_000_000_000,
            v == x2 * 125,
            u == 625 * n,
    ;
    let y2 = metric_of_standard(x2);
    vstd::arithmetic::div_mod::lemma_div_denominator(v, 12, 9);
    vstd::arithmetic::div_mod::lemma_div_multiples_vanish(u * 1_000_000_000, 12);
    assert(y2 == (u * 1_000_000_000) / 9);
    lemma_fundamental_div_mod(u, 9);
    lemma_mod_bound(u, 9);
    let q = u / 9;
    let r = u % 9;
    lemma_fundamental_div_mod(r * 1_000_000_000, 9);
    lemma_mod_bound(r * 1_000_000_000, 9);
    let d = (r * 1_000_000_000) / 9;
    let rr = (r * 1_000_000_000) % 9;
    assert(u * 1_000_000_000 == 9 * (q * 1_000_000_000 + d) + rr);
    lemma_fundamental_div_mod_converse(u * 1_000_000_000, 9, q * 1_000_000_000 + d, rr);
    assert(y2 == q * 1_000_000_000 + d);
    assert(9 * d <= r * 1_000_000_000 <= 8_000_000_000);
    assert(d < 1_000_000_000);
    // Split the quotient at the hour boundary.
    lemma_fundamental_div_mod(q, 10_000);
    lemma_mod_bound(q, 10_000);
    let bigq = q / 10_000;
    let j = q % 10_000;
    assert(90_000 <= u <= 899_375);
    assert(10_000 <= q <= 99_930);
    assert(1 <= bigq <= 9);
    let rem1 = j * 1_000_000_000 + d;
    assert(y2 == bigq * 10_000_000_000_000 + rem1);
    assert(0 <= rem1 < 10_000_000_000_000);
    lemma_fundamental_div_mod_converse(y2, 10_000_000_000_000, bigq, rem1);
    assert(y2 >= 10_000_000_000_000);
    assert(y2 < NS_PER_DAY_METRIC);
    // The divisibility structure of the remainders.
    assert(9 * j + r == 625 * (n - 144 * bigq)) by (nonlinear_arith)
        requires
            u == 625 * n,
            u == 9 * q + r,
            q == 10_000 * bigq + j,
    ;
    let t = n - 144 * bigq;
    // Unfold the metric decomposition of y2.
    let m = rem1 / 100_000_000_000;
    lemma_fundamental_div_mod(rem1, 100_000_000_000);
    lemma_mod_bound(rem1, 100_000_000_000);
    if j >= 100 {
        // The minute field is nonzero; split the remainder at the second.
        lemma_fundamental_div_mod(j, 100);
        lemma_mod_bound(j, 100);
        let ja = j / 100;
        let jb = j % 100;
        assert(rem1 == ja * 100_000_000_000 + (jb * 1_000_000_000 + d));
        assert(0 <= jb * 1_000_000_000 + d < 100_000_000_000);
        lemma_fundamental_div_mod_converse(
            rem1,
            100_000_000_000,
            ja,
            jb * 1_000_000_000 + d,
        );
        assert(m == ja >= 1);
        let rem2 = jb * 1_000_000_000 + d;
        let s = rem2 / 1_000_000_000;
        lemma_fundamental_div_mod(rem2, 1_000_000_000);
        lemma_mod_bound(rem2, 1_000_000_000);
        if jb >= 1 {
            lemma_fundamental_div_mod_converse(rem2, 1_000_000_000, jb, d);
            assert(s == jb >= 1);
            assert(metric_requantized(y2) == y2);
        } else {
            // A zero second field: the remainder is d alone, and q is a
            // multiple of one hundred, which forces r to vanish.
            assert(rem2 == d);
            assert(s == 0) by {
                lemma_fundamental_div_mod_converse(rem2, 1_000_000_000, 0, d);
            }
            assert(q == 100 * (100 * bigq + ja)) by (nonlinear_arith)
                requires
                    q == 10_000 * bigq + j,
                    j == 100 * ja + jb,
                    jb == 0,
            ;
            let w = 100 * bigq + ja;
            assert(r == 25 * (25 * n - 36 * w)) by (nonlinear_arith)
                requires
                    u == 625 * n,
                    u == 9 * q + r,
                    q == 100 * w,
            ;
            assert(r == 0);
            assert(d == 0) by {
                lemma_fundamental_div_mod_converse(0, 9, 0, 0);
            }
            assert(metric_requantized(y2) == y2);
        }
    } else {
        // A zero minute field: the remainder below the hour is dropped, so
        // the decomposition is exact only when that remainder is zero.
        assert(m == 0) by {
            lemma_fundamental_div_mod_converse(rem1, 100_000_000_000, 0, rem1);
        }
        assert(0 <= 9 * j + r <= 899);
        assert(0 <= 625 * t <= 899);
        assert(0 <= t <= 1) by (nonlinear_arith)
            requires
                0 <= 625 * t <= 899,
        ;
        if t == 0 {
            assert(j == 0 && r == 0);
            assert(d == 0) by {
                lemma_fundamental_div_mod_converse(0, 9, 0, 0);
            }
            assert(rem1 == 0);
            assert(metric_requantized(y2) == y2);
        } else {
            assert(9 * j + r == 625);
            assert(j == 69 && r == 4);
            assert(d == 444_444_444) by {
                lemma_fundamental_div_mod_converse(4_000_000_000, 9, 444_444_444, 4);
            }
            assert(y2 % 10_000_000_000_000 == 69_444_444_444);
            assert(n == 144 * bigq + 1);
            assert(n % 2 == 1) by {
                lemma_fundamental_div_mod_converse(n, 2, 72 * bigq, 1);
            }
        }
    }
}

} // verus!
