//! Fixed-point sine and cosine over angles in degrees, built from a
//! 91-entry quarter-wave table with linear interpolation between whole
//! degrees. The table folds in the degree-to-radian constant 3.1415/180
//! that the camera's rotations are specified with, so `sin_fx(d)`
//! approximates `sin(d * 3.1415 / 180)` for `d` in fixed-point degrees.

use vstd::prelude::*;
use vstd::arithmetic::div_mod::{
    lemma_fundamental_div_mod, lemma_fundamental_div_mod_converse, lemma_div_pos_is_pos,
};
use crate::fixed::{Fx, FX_ONE, div_trunc, div_trunc_i128};
use crate::vec3::lemma_div_le;

verus! {

/// One whole turn, 360 degrees, in Q31.32.
pub const FX_TURN: i64 = 0x168_0000_0000;

/// A quarter turn, 90 degrees, in Q31.32.
pub const FX_QUARTER: i64 = 0x5A_0000_0000;

/// The sine table: `sin(d * 3.1415 / 180) * 2^32` rounded, for whole
/// degrees `d` in `[0, 90]`.
pub open spec fn sin_table(d: int) -> int {
    if d <= 0 {
        0
    } else if d == 1 {
        74955304
    } else if d == 2 {
        149887778
    } else if d == 3 {
        224774597
    } else if d == 4 {
        299592952
    } else if d == 5 {
        374320053
    } else if d == 6 {
        448933139
    } else if d == 7 {
        523409484
    } else if d == 8 {
        597726403
    } else if d == 9 {
        671861259
    } else if d == 10 {
        745791472
    } else if d == 11 {
        819494523
    } else if d == 12 {
        892947963
    } else if d == 13 {
        966129418
    } else if d == 14 {
        1039016598
    } else if d == 15 {
        1111587302
    } else if d == 16 {
        1183819426
    } else if d == 17 {
        1255690969
    } else if d == 18 {
        1327180038
    } else if d == 19 {
        1398264859
    } else if d == 20 {
        1468923781
    } else if d == 21 {
        1539135280
    } else if d == 22 {
        1608877971
    } else if d == 23 {
        1678130612
    } else if d == 24 {
        1746872108
    } else if d == 25 {
        1815081521
    } else if d == 26 {
        1882738075
    } else if d == 27 {
        1949821163
    } else if d == 28 {
        2016310352
    } else if d == 29 {
        2082185389
    } else if d == 30 {
        2147426209
    } else if d == 31 {
        2212012942
    } else if d == 32 {
        2275925913
    } else if d == 33 {
        2339145657
    } else if d == 34 {
        2401652916
    } else if d == 35 {
        2463428651
    } else if d == 36 {
        2524454047
    } else if d == 37 {
        2584710514
    } else if d == 38 {
        2644179700
    } else if d == 39 {
        2702843491
    } else if d == 40 {
        2760684018
    } else if d == 41 {
        2817683664
    } else if d == 42 {
        2873825067
    } else if d == 43 {
        2929091126
    } else if d == 44 {
        2983465008
    } else if d == 45 {
        3036930152
    } else if d == 46 {
        3089470272
    } else if d == 47 {
        3141069365
    } else if d == 48 {
        3191711714
    } else if d == 49 {
        3241381894
    } else if d == 50 {
        3290064776
    } else if d == 51 {
        3337745531
    } else if d == 52 {
        3384409637
    } else if d == 53 {
        3430042880
    } else if d == 54 {
        3474631360
    } else if d == 55 {
        3518161496
    } else if d == 56 {
        3560620029
    } else if d == 57 {
        3601994027
    } else if d == 58 {
        3642270887
    } else if d == 59 {
        3681438342
    } else if d == 60 {
        3719484461
    } else if d == 61 {
        3756397656
    } else if d == 62 {
        3792166683
    } else if d == 63 {
        3826780648
    } else if d == 64 {
        3860229007
    } else if d == 65 {
        3892501572
    } else if d == 66 {
        3923588514
    } else if d == 67 {
        3953480363
    } else if d == 68 {
        3982168014
    } else if d == 69 {
        4009642730
    } else if d == 70 {
        4035896142
    } else if d == 71 {
        4060920254
    } else if d == 72 {
        4084707443
    } else if d == 73 {
        4107250464
    } else if d == 74 {
        4128542450
    } else if d == 75 {
        4148576916
    } else if d == 76 {
        4167347761
    } else if d == 77 {
        4184849265
    } else if d == 78 {
        4201076100
    } else if d == 79 {
        4216023321
    } else if d == 80 {
        4229686376
    } else if d == 81 {
        4242061104
    } else if d == 82 {
        4253143736
    } else if d == 83 {
        4262930895
    } else if d == 84 {
        4271419600
    } else if d == 85 {
        4278607267
    } else if d == 86 {
        4284491705
    } else if d == 87 {
        4289071122
    } else if d == 88 {
        4292344124
    } else if d == 89 {
        4294309713
    } else {
        4294967291
    }
}

/// Table lookup for a whole degree in `[0, 90]`.
fn sin_table_at(d: u64) -> (r: i64)
    requires
        d <= 90,
    ensures
        r == sin_table(d as int),
        0 <= r <= FX_ONE,
{
    match d {
        0 => 0,
        1 => 74955304,
        2 => 149887778,
        3 => 224774597,
        4 => 299592952,
        5 => 374320053,
        6 => 448933139,
        7 => 523409484,
        8 => 597726403,
        9 => 671861259,
        10 => 745791472,
        11 => 819494523,
        12 => 892947963,
        13 => 966129418,
        14 => 1039016598,
        15 => 1111587302,
        16 => 1183819426,
        17 => 1255690969,
        18 => 1327180038,
        19 => 1398264859,
        20 => 1468923781,
        21 => 1539135280,
        22 => 1608877971,
        23 => 1678130612,
        24 => 1746872108,
        25 => 1815081521,
        26 => 1882738075,
        27 => 1949821163,
        28 => 2016310352,
        29 => 2082185389,
        30 => 2147426209,
        31 => 2212012942,
        32 => 2275925913,
        33 => 2339145657,
        34 => 2401652916,
        35 => 2463428651,
        36 => 2524454047,
        37 => 2584710514,
        38 => 2644179700,
        39 => 2702843491,
        40 => 2760684018,
        41 => 2817683664,
        42 => 2873825067,
        43 => 2929091126,
        44 => 2983465008,
        45 => 3036930152,
        46 => 3089470272,
        47 => 3141069365,
        48 => 3191711714,
        49 => 3241381894,
        50 => 3290064776,
        51 => 3337745531,
        52 => 3384409637,
        53 => 3430042880,
        54 => 3474631360,
        55 => 3518161496,
        56 => 3560620029,
        57 => 3601994027,
        58 => 3642270887,
        59 => 3681438342,
        60 => 3719484461,
        61 => 3756397656,
        62 => 3792166683,
        63 => 3826780648,
        64 => 3860229007,
        65 => 3892501572,
        66 => 3923588514,
        67 => 3953480363,
        68 => 3982168014,
        69 => 4009642730,
        70 => 4035896142,
        71 => 4060920254,
        72 => 4084707443,
        73 => 4107250464,
        74 => 4128542450,
        75 => 4148576916,
        76 => 4167347761,
        77 => 4184849265,
        78 => 4201076100,
        79 => 4216023321,
        80 => 4229686376,
        81 => 4242061104,
        82 => 4253143736,
        83 => 4262930895,
        84 => 4271419600,
        85 => 4278607267,
        86 => 4284491705,
        87 => 4289071122,
        88 => 4292344124,
        89 => 4294309713,
        90 => 4294967291,
        _ => 0,
    }
}

/// Quarter-wave sine for `u` in `[0, 90]` degrees (raw): table value at
/// the whole degree, plus the linear interpolation toward the next entry.
pub open spec fn qsin(u: int) -> int {
    let d = u / (FX_ONE as int);
    let f = u % (FX_ONE as int);
    if d >= 90 {
        sin_table(90)
    } else {
        sin_table(d) + div_trunc(f * (sin_table(d + 1) - sin_table(d)), FX_ONE as int)
    }
}

/// Sine of an angle already reduced into `[0, 360)` degrees, by quadrant
/// folding of the quarter-wave table.
pub open spec fn reduced_sin(m: int) -> int {
    let q = m / (FX_QUARTER as int);
    let u = m % (FX_QUARTER as int);
    if q == 0 {
        qsin(u)
    } else if q == 1 {
        qsin((FX_QUARTER as int) - u)
    } else if q == 2 {
        -qsin(u)
    } else {
        -qsin((FX_QUARTER as int) - u)
    }
}

/// The value `sin_fx` returns for a raw fixed-point degree angle.
pub open spec fn spec_sin_fx(x: int) -> int {
    reduced_sin(x % (FX_TURN as int))
}

/// The value `cos_fx` returns: the sine a quarter turn ahead.
pub open spec fn spec_cos_fx(x: int) -> int {
    reduced_sin((x + (FX_QUARTER as int)) % (FX_TURN as int))
}

/// Euclidean remainder of a raw angle by a positive modulus, computed on
/// the magnitude.
fn rem_euclid_i64(a: i64, m: i64) -> (r: i64)
    requires
        m >= 1,
        a > i64::MIN,
    ensures
        r == (a as int) % (m as int),
        0 <= r < m,
{
    if a >= 0 {
        let rr: u64 = (a as u64) % (m as u64);
        rr as i64
    } else {
        let mm: u64 = ((-a) as u64) % (m as u64);
        proof {
            let q = (-a) as int / (m as int);
            lemma_fundamental_div_mod((-a) as int, m as int);
            assert((-q) * (m as int) == -((m as int) * q)) by (nonlinear_arith);
            assert((-q - 1) * (m as int) == -((m as int) * q) - (m as int)) by (nonlinear_arith);
            if mm == 0 {
                lemma_fundamental_div_mod_converse(a as int, m as int, -q, 0);
            } else {
                lemma_fundamental_div_mod_converse(
                    a as int,
                    m as int,
                    -q - 1,
                    (m as int) - (mm as int),
                );
            }
        }
        if mm == 0 {
            0
        } else {
            m - (mm as i64)
        }
    }
}

/// Interpolation between two table entries in `[0, 2^32]` stays in
/// `[0, 2^32]`.
proof fn lemma_lerp_bounds(t0: int, t1: int, f: int)
    requires
        0 <= t0 <= FX_ONE as int,
        0 <= t1 <= FX_ONE as int,
        0 <= f < FX_ONE as int,
    ensures
        0 <= t0 + div_trunc(f * (t1 - t0), FX_ONE as int) <= FX_ONE as int,
        -(FX_ONE as int) <= div_trunc(f * (t1 - t0), FX_ONE as int) <= FX_ONE as int,
{
    let one = FX_ONE as int;
    let p = f * (t1 - t0);
    if t1 >= t0 {
        assert(0 <= p <= one * (t1 - t0)) by (nonlinear_arith)
            requires
                0 <= f < one,
                t1 >= t0,
                p == f * (t1 - t0),
        ;
        lemma_div_pos_is_pos(p, one);
        lemma_div_le(p, one, t1 - t0);
    } else {
        assert(0 <= -p <= one * (t0 - t1)) by (nonlinear_arith)
            requires
                0 <= f < one,
                t1 < t0,
                p == f * (t1 - t0),
        ;
        lemma_div_pos_is_pos(-p, one);
        lemma_div_le(-p, one, t0 - t1);
    }
}

/// Quarter-wave sine, exactly `qsin`.
fn qsin_exec(u: u64) -> (r: i64)
    requires
        u <= FX_QUARTER as u64,
    ensures
        r == qsin(u as int),
        0 <= r <= FX_ONE,
{
    let d: u64 = u / (FX_ONE as u64);
    let f: u64 = u % (FX_ONE as u64);
    if d >= 90 {
        sin_table_at(90)
    } else {
        let t0: i64 = sin_table_at(d);
        let t1: i64 = sin_table_at(d + 1);
        proof {
            lemma_lerp_bounds(t0 as int, t1 as int, f as int);
        }
        let p: i128 = (f as i128) * ((t1 - t0) as i128);
        let q: i128 = div_trunc_i128(p, FX_ONE as i128);
        t0 + (q as i64)
    }
}

/// The quotient of a value below `c * d` is below `c`.
proof fn lemma_div_lt(a: int, d: int, c: int)
    requires
        0 <= a,
        1 <= d,
        a < c * d,
    ensures
        a / d < c,
{
    lemma_fundamental_div_mod(a, d);
    lemma_div_pos_is_pos(a, d);
    assert(a / d < c) by (nonlinear_arith)
        requires
            d * (a / d) + a % d == a,
            0 <= a % d < d,
            a < c * d,
            a / d >= 0,
            d >= 1,
    ;
}

/// Sine of an angle already reduced into `[0, 360)` degrees.
fn sin_reduced(m: u64) -> (r: i64)
    requires
        m < FX_TURN as u64,
    ensures
        r == reduced_sin(m as int),
        -FX_ONE <= r <= FX_ONE,
{
    proof {
        lemma_div_lt(m as int, FX_QUARTER as int, 4);
        lemma_div_pos_is_pos(m as int, FX_QUARTER as int);
        vstd::arithmetic::div_mod::lemma_mod_bound(m as int, FX_QUARTER as int);
    }
    let q: u64 = m / (FX_QUARTER as u64);
    let u: u64 = m % (FX_QUARTER as u64);
    if q == 0 {
        qsin_exec(u)
    } else if q == 1 {
        qsin_exec((FX_QUARTER as u64) - u)
    } else if q == 2 {
        -qsin_exec(u)
    } else {
        -qsin_exec((FX_QUARTER as u64) - u)
    }
}

/// Sine of a fixed-point angle in degrees, via the folded quarter-wave
/// table; always within `[-1, 1]`.
pub fn sin_fx(a: Fx) -> (r: Fx)
    requires
        a.raw > i64::MIN,
    ensures
        r.raw == spec_sin_fx(a.raw as int),
        -FX_ONE <= r.raw <= FX_ONE,
{
    let m: i64 = rem_euclid_i64(a.raw, FX_TURN);
    let s: i64 = sin_reduced(m as u64);
    Fx { raw: s }
}

/// Cosine of a fixed-point angle in degrees: the sine a quarter turn
/// ahead; always within `[-1, 1]`.
pub fn cos_fx(a: Fx) -> (r: Fx)
    requires
        a.raw > i64::MIN,
    ensures
        r.raw == spec_cos_fx(a.raw as int),
        -FX_ONE <= r.raw <= FX_ONE,
{
    let m: i64 = rem_euclid_i64(a.raw, FX_TURN);
    let m2: i64 = m + FX_QUARTER;
    let m3: i64 = if m2 >= FX_TURN {
        m2 - FX_TURN
    } else {
        m2
    };
    proof {
        let t = FX_TURN as int;
        let qt = FX_QUARTER as int;
        let x = a.raw as int;
        vstd::arithmetic::div_mod::lemma_add_mod_noop(x, qt, t);
        if m2 >= FX_TURN {
            lemma_fundamental_div_mod_converse((m as int) + qt, t, 1, (m as int) + qt - t);
        } else {
            vstd::arithmetic::div_mod::lemma_small_mod(((m as int) + qt) as nat, t as nat);
        }
    }
    let s: i64 = sin_reduced(m3 as u64);
    Fx { raw: s }
}

} // verus!
