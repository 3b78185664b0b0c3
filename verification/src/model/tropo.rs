//! Tropospheric delay.
//!
//! Angles are counted in millionths of a degree and lengths in millimetres.

use vstd::prelude::*;
use vstd::arithmetic::div_mod::lemma_div_is_ordered_by_denominator;

verus! {

/// Delay that the troposphere adds to a signal that arrives from the zenith,
/// split into its two components, in millimetres.
#[derive(Copy, Clone, Debug, PartialEq, Eq, Structural)]
pub struct TropoComponents {
    /// Zenith wet delay: the share of water vapour
    pub zwd: i32,
    /// Zenith dry delay: the hydrostatic share
    pub zdd: i32,
}

/// Half a degree.
pub const HALF_DEGREE: i64 = 500_000;

/// A quarter of a turn: the elevation of the zenith.
pub const RIGHT_ANGLE: i64 = 90_000_000;

/// Half a turn.
pub const STRAIGHT_ANGLE: i64 = 180_000_000;

/// The number that stands for 1 in [`SINES`] and in [`sine`].
pub const UNIT: u64 = 1_000_000_000;

/// The part of the squared mapping denominator that does not depend on the elevation:
/// 0.002001, in units of `UNIT` squared.
pub const HORIZON_TERM: u64 = 2_001_000_000_000_000;

/// The numerator of the mapping function: 1.001, in units of `UNIT`.
pub const ZENITH_TERM: i64 = 1_001_000_000;

/// Sines of the angles from 0 to 90 degrees in steps of half a degree, in units of `UNIT`,
/// rounded to the nearest integer.
pub const SINES: [u32; 181] = [
    0, 8_726_535, 17_452_406, 26_176_948, 34_899_497, 43_619_387,
    52_335_956, 61_048_540, 69_756_474, 78_459_096, 87_155_743, 95_845_753,
    104_528_463, 113_203_214, 121_869_343, 130_526_192, 139_173_101, 147_809_411,
    156_434_465, 165_047_606, 173_648_178, 182_235_525, 190_808_995, 199_367_934,
    207_911_691, 216_439_614, 224_951_054, 233_445_364, 241_921_896, 250_380_004,
    258_819_045, 267_238_376, 275_637_356, 284_015_345, 292_371_705, 300_705_800,
    309_016_994, 317_304_656, 325_568_154, 333_806_859, 342_020_143, 350_207_381,
    358_367_950, 366_501_227, 374_606_593, 382_683_432, 390_731_128, 398_749_069,
    406_736_643, 414_693_243, 422_618_262, 430_511_097, 438_371_147, 446_197_813,
    453_990_500, 461_748_613, 469_471_563, 477_158_760, 484_809_620, 492_423_560,
    500_000_000, 507_538_363, 515_038_075, 522_498_565, 529_919_264, 537_299_608,
    544_639_035, 551_936_985, 559_192_903, 566_406_237, 573_576_436, 580_702_956,
    587_785_252, 594_822_787, 601_815_023, 608_761_429, 615_661_475, 622_514_637,
    629_320_391, 636_078_220, 642_787_610, 649_448_048, 656_059_029, 662_620_048,
    669_130_606, 675_590_208, 681_998_360, 688_354_576, 694_658_370, 700_909_264,
    707_106_781, 713_250_449, 719_339_800, 725_374_371, 731_353_702, 737_277_337,
    743_144_825, 748_955_721, 754_709_580, 760_405_966, 766_044_443, 771_624_583,
    777_145_961, 782_608_157, 788_010_754, 793_353_340, 798_635_510, 803_856_861,
    809_016_994, 814_115_518, 819_152_044, 824_126_189, 829_037_573, 833_885_822,
    838_670_568, 843_391_446, 848_048_096, 852_640_164, 857_167_301, 861_629_160,
    866_025_404, 870_355_696, 874_619_707, 878_817_113, 882_947_593, 887_010_833,
    891_006_524, 894_934_362, 898_794_046, 902_585_284, 906_307_787, 909_961_271,
    913_545_458, 917_060_074, 920_504_853, 923_879_533, 927_183_855, 930_417_568,
    933_580_426, 936_672_189, 939_692_621, 942_641_491, 945_518_576, 948_323_655,
    951_056_516, 953_716_951, 956_304_756, 958_819_735, 961_261_696, 963_630_453,
    965_925_826, 968_147_640, 970_295_726, 972_369_920, 974_370_065, 976_296_007,
    978_147_601, 979_924_705, 981_627_183, 983_254_908, 984_807_753, 986_285_602,
    987_688_341, 989_015_863, 990_268_069, 991_444_861, 992_546_152, 993_571_856,
    994_521_895, 995_396_198, 996_194_698, 996_917_334, 997_564_050, 998_134_798,
    998_629_535, 999_048_222, 999_390_827, 999_657_325, 999_847_695, 999_961_923,
    1_000_000_000,
];

/// Sine of `angle`, an angle between 0 and 90 degrees, in units of `UNIT`: the entries of
/// [`SINES`], and a straight line between two neighbours.
#[verifier::opaque]
pub open spec fn sine(angle: int) -> int
    recommends
        0 <= angle <= RIGHT_ANGLE,
{
    let k = angle / (HALF_DEGREE as int);
    let rest = angle % (HALF_DEGREE as int);
    if 0 <= k < 180 {
        SINES[k] + ((SINES[k + 1] - SINES[k]) * rest) / (HALF_DEGREE as int)
    } else {
        UNIT as int
    }
}

/// The angle between 0 and 90 degrees whose sine has the same square as that of `elevation`.
pub open spec fn folded(elevation: int) -> int {
    let turned = elevation % (STRAIGHT_ANGLE as int);
    if turned > RIGHT_ANGLE {
        STRAIGHT_ANGLE - turned
    } else {
        turned
    }
}

/// Whether `root` is the square root of `n`, rounded down.
pub open spec fn is_integer_sqrt(n: int, root: int) -> bool {
    0 <= root && root * root <= n < (root + 1) * (root + 1)
}

/// The square root of `n`, rounded down.
pub open spec fn integer_sqrt(n: int) -> int {
    choose|root: int| is_integer_sqrt(n, root)
}

/// The denominator of the mapping function for a satellite at `elevation`: the square root
/// of 0.002001 plus the squared sine of the elevation, in units of `UNIT`.
pub open spec fn mapping_denominator(elevation: int) -> int {
    integer_sqrt(HORIZON_TERM + sine(folded(elevation)) * sine(folded(elevation)))
}

/// Delay along the line of sight to a satellite at `elevation`, in millimetres, rounded
/// down: the sum of the zenith delays `zwd` and `zdd`, times 1.001, divided by the square
/// root of 0.002001 plus the squared sine of the elevation.
pub open spec fn slant_delay(elevation: int, zwd: int, zdd: int) -> int {
    ((zwd + zdd) * ZENITH_TERM) / mapping_denominator(elevation)
}

/// Each entry of [`SINES`] is at most its successor, and none exceeds `UNIT`.
pub proof fn lemma_sines_rise(k: int)
    requires
        0 <= k < 180,
    ensures
        0 <= SINES[k] <= SINES[k + 1] <= UNIT,
{
}

/// The entries of [`SINES`] are in ascending order.
pub proof fn lemma_sines_are_ordered(i: int, j: int)
    requires
        0 <= i <= j <= 180,
    ensures
        SINES[i] <= SINES[j],
    decreases j - i,
{
    if i < j {
        lemma_sines_are_ordered(i, j - 1);
        lemma_sines_rise(j - 1);
    }
}

/// Between two entries of [`SINES`], [`sine`] stays between them.
pub proof fn lemma_sine_stays_between_entries(angle: int)
    requires
        0 <= angle < RIGHT_ANGLE,
    ensures
        SINES[angle / (HALF_DEGREE as int)] <= sine(angle) <= SINES[angle / (HALF_DEGREE as int)
            + 1],
{
    reveal(sine);
    let k = angle / (HALF_DEGREE as int);
    let rest = angle % (HALF_DEGREE as int);
    let rise = SINES[k + 1] - SINES[k];
    lemma_sines_rise(k);
    assert(0 <= rise * rest <= rise * HALF_DEGREE) by (nonlinear_arith)
        requires
            0 <= rise,
            0 <= rest <= HALF_DEGREE,
    ;
}

/// Sine of `angle`, an angle between 0 and 90 degrees, in units of `UNIT`.
fn sine_of(angle: i64) -> (s: u64)
    requires
        0 <= angle <= RIGHT_ANGLE,
    ensures
        s == sine(angle as int),
        s <= UNIT,
{
    let k: usize = (angle / HALF_DEGREE) as usize;
    if k < 180 {
        let rest: u64 = (angle % HALF_DEGREE) as u64;
        let low: u64 = SINES[k] as u64;
        let high: u64 = SINES[k + 1] as u64;
        proof {
            reveal(sine);
            lemma_sines_rise(k as int);
            lemma_sine_stays_between_entries(angle as int);
            assert(0 <= (high - low) * rest <= (high - low) * HALF_DEGREE) by (nonlinear_arith)
                requires
                    0 <= high - low,
                    0 <= rest <= HALF_DEGREE,
            ;
        }
        low + ((high - low) * rest) / (HALF_DEGREE as u64)
    } else {
        proof {
            reveal(sine);
        }
        UNIT
    }
}

/// Between 0 and 90 degrees, a larger angle has no smaller sine.
pub proof fn lemma_sine_is_monotonic(smaller: int, larger: int)
    requires
        0 <= smaller <= larger <= RIGHT_ANGLE,
    ensures
        0 <= sine(smaller) <= sine(larger) <= UNIT,
{
    reveal(sine);
    let i = smaller / (HALF_DEGREE as int);
    let j = larger / (HALF_DEGREE as int);
    if smaller < RIGHT_ANGLE {
        lemma_sine_stays_between_entries(smaller);
        lemma_sines_rise(i);
    }
    if larger < RIGHT_ANGLE {
        lemma_sine_stays_between_entries(larger);
        lemma_sines_rise(j);
        if i < j {
            lemma_sines_are_ordered(i + 1, j);
        } else {
            let rise = SINES[i + 1] - SINES[i];
            let first = smaller % (HALF_DEGREE as int);
            let second = larger % (HALF_DEGREE as int);
            assert(rise * first <= rise * second) by (nonlinear_arith)
                requires
                    0 <= rise,
                    first <= second,
            ;
        }
    } else if smaller < RIGHT_ANGLE {
        lemma_sines_are_ordered(i + 1, 180);
    }
}

/// No more than one number is the square root of `n`, rounded down.
pub proof fn lemma_integer_sqrt_is_unique(n: int, root: int)
    requires
        is_integer_sqrt(n, root),
    ensures
        integer_sqrt(n) == root,
{
    let other = integer_sqrt(n);
    assert(is_integer_sqrt(n, other));
    if other < root {
        assert((other + 1) * (other + 1) <= root * root) by (nonlinear_arith)
            requires
                0 <= other + 1 <= root,
        ;
    }
    if root < other {
        assert((root + 1) * (root + 1) <= other * other) by (nonlinear_arith)
            requires
                0 <= root + 1 <= other,
        ;
    }
}

/// Every number from 0 on has a square root rounded down.
pub proof fn lemma_integer_sqrt_exists(n: int)
    requires
        0 <= n,
    ensures
        is_integer_sqrt(n, integer_sqrt(n)),
    decreases n,
{
    if n == 0 {
        assert(is_integer_sqrt(0, 0));
    } else {
        lemma_integer_sqrt_exists(n - 1);
        let before = integer_sqrt(n - 1);
        if (before + 1) * (before + 1) <= n {
            assert((before + 1) * (before + 1) == n);
            assert(n < (before + 2) * (before + 2)) by (nonlinear_arith)
                requires
                    (before + 1) * (before + 1) == n,
                    0 <= before,
            ;
            assert(is_integer_sqrt(n, before + 1));
        } else {
            assert(is_integer_sqrt(n, before));
        }
    }
}

/// A larger number has no smaller square root.
pub proof fn lemma_integer_sqrt_is_monotonic(smaller: int, larger: int)
    requires
        0 <= smaller <= larger,
    ensures
        integer_sqrt(smaller) <= integer_sqrt(larger),
{
    lemma_integer_sqrt_exists(smaller);
    lemma_integer_sqrt_exists(larger);
    let low = integer_sqrt(smaller);
    let high = integer_sqrt(larger);
    if high < low {
        assert((high + 1) * (high + 1) <= low * low) by (nonlinear_arith)
            requires
                0 <= high + 1 <= low,
        ;
    }
}

/// Square root of `n`, rounded down.
pub fn integer_sqrt_of(n: u64) -> (root: u64)
    ensures
        root == integer_sqrt(n as int),
        is_integer_sqrt(n as int, root as int),
{
    let mut low: u64 = 0;
    let mut high: u64 = 4_294_967_296;
    assert(low * low <= n < high * high) by (nonlinear_arith)
        requires
            low == 0,
            high == 4_294_967_296,
            n <= u64::MAX,
    ;
    while high - low > 1
        invariant
            low < high <= 4_294_967_296,
            low * low <= n < high * high,
        decreases high - low,
    {
        let middle: u64 = low + (high - low) / 2;
        assert(middle * middle < 18_446_744_073_709_551_616) by (nonlinear_arith)
            requires
                0 <= middle < 4_294_967_296,
        ;
        if middle * middle <= n {
            low = middle;
        } else {
            high = middle;
        }
    }
    proof {
        lemma_integer_sqrt_is_unique(n as int, low as int);
    }
    low
}

/// The angle between 0 and 90 degrees whose sine has the same square as that of `elevation`.
pub fn fold(elevation: i64) -> (angle: i64)
    ensures
        angle == folded(elevation as int),
        0 <= angle <= RIGHT_ANGLE,
{
    let turned: i64 = if elevation >= 0 {
        elevation % STRAIGHT_ANGLE
    } else {
        STRAIGHT_ANGLE - 1 - (-(elevation + 1)) % STRAIGHT_ANGLE
    };
    if turned > RIGHT_ANGLE {
        STRAIGHT_ANGLE - turned
    } else {
        turned
    }
}

/// The denominator of the mapping function lies between its value at the horizon and its
/// value at the zenith, which is 1.001.
pub proof fn lemma_mapping_denominator_bounds(elevation: int)
    ensures
        44_732_538 <= mapping_denominator(elevation) <= ZENITH_TERM,
{
    let angle = folded(elevation);
    lemma_sine_is_monotonic(angle, angle);
    let s = sine(angle);
    assert(0 <= s * s <= UNIT * UNIT) by (nonlinear_arith)
        requires
            0 <= s <= UNIT,
    ;
    assert(UNIT * UNIT == 1_000_000_000_000_000_000) by (nonlinear_arith);
    assert(is_integer_sqrt(HORIZON_TERM as int, 44_732_538)) by (nonlinear_arith);
    assert(is_integer_sqrt(1_002_001_000_000_000_000, 1_001_000_000)) by (nonlinear_arith);
    lemma_integer_sqrt_is_unique(HORIZON_TERM as int, 44_732_538);
    lemma_integer_sqrt_is_unique(1_002_001_000_000_000_000, 1_001_000_000);
    lemma_integer_sqrt_is_monotonic(HORIZON_TERM as int, HORIZON_TERM + s * s);
    lemma_integer_sqrt_is_monotonic(HORIZON_TERM + s * s, 1_002_001_000_000_000_000);
}

/// Delay along the line of sight to a satellite at `elev`, given the zenith wet delay `zwd`
/// and the zenith dry delay `zdd`.
pub fn tropo_delay(elev: i64, zwd: i32, zdd: i32) -> (delay: i64)
    ensures
        delay == slant_delay(elev as int, zwd as int, zdd as int),
{
    let s: u64 = sine_of(fold(elev));
    assert(s * s <= 1_000_000_000_000_000_000) by (nonlinear_arith)
        requires
            0 <= s <= 1_000_000_000,
    ;
    proof {
        lemma_mapping_denominator_bounds(elev as int);
    }
    let denominator: i64 = integer_sqrt_of(HORIZON_TERM + s * s) as i64;
    let zenith: i64 = zwd as i64 + zdd as i64;
    if zenith >= 0 {
        let scaled: i64 = zenith * ZENITH_TERM;
        proof {
            lemma_div_is_ordered_by_denominator(scaled as int, 1, denominator as int);
            vstd::arithmetic::div_mod::lemma_div_pos_is_pos(scaled as int, denominator as int);
        }
        scaled / denominator
    } else {
        let scaled: i64 = (-zenith) * ZENITH_TERM;
        let rounded_up: i64 = (scaled + (denominator - 1)) / denominator;
        proof {
            lemma_floor_of_negative(scaled as int, denominator as int);
        }
        -rounded_up
    }
}

/// Rounding down the quotient of a negative number is rounding up that of its opposite.
proof fn lemma_floor_of_negative(x: int, d: int)
    requires
        0 <= x,
        0 < d,
    ensures
        (-x) / d == -((x + (d - 1)) / d),
        0 <= (x + (d - 1)) / d <= x,
{
    let q = (x + (d - 1)) / d;
    let r = (x + (d - 1)) % d;
    vstd::arithmetic::div_mod::lemma_fundamental_div_mod(x + (d - 1), d);
    vstd::arithmetic::div_mod::lemma_mod_bound(x + (d - 1), d);
    assert(-x == (-q) * d + (d - 1 - r)) by (nonlinear_arith)
        requires
            x + (d - 1) == d * q + r,
    ;
    vstd::arithmetic::div_mod::lemma_fundamental_div_mod_converse_div(-x, d, -q, d - 1 - r);
    vstd::arithmetic::div_mod::lemma_div_pos_is_pos(x + (d - 1), d);
    assert(q <= x) by (nonlinear_arith)
        requires
            x + (d - 1) == d * q + r,
            0 <= r < d,
            0 <= q,
            0 <= x,
            1 <= d,
    ;
}

/// Straight above the receiver the delay is the sum of the zenith delays.
pub proof fn lemma_slant_delay_at_zenith(zwd: int, zdd: int)
    ensures
        slant_delay(RIGHT_ANGLE as int, zwd, zdd) == zwd + zdd,
{
    assert(sine(folded(RIGHT_ANGLE as int)) == UNIT) by {
        reveal(sine);
    }
    assert(is_integer_sqrt(1_002_001_000_000_000_000, 1_001_000_000)) by (nonlinear_arith);
    lemma_integer_sqrt_is_unique(1_002_001_000_000_000_000, 1_001_000_000);
    assert(HORIZON_TERM + UNIT * UNIT == 1_002_001_000_000_000_000) by (nonlinear_arith);
}

/// Between the horizon and the zenith, the denominator of the mapping function does not
/// fall as the elevation rises.
pub proof fn lemma_mapping_denominator_is_monotonic(lower: int, higher: int)
    requires
        0 <= lower <= higher <= RIGHT_ANGLE,
    ensures
        1 <= mapping_denominator(lower) <= mapping_denominator(higher),
{
    assert(folded(lower) == lower && folded(higher) == higher);
    lemma_sine_is_monotonic(lower, higher);
    let near = sine(lower);
    let far = sine(higher);
    assert(0 <= near * near <= far * far) by (nonlinear_arith)
        requires
            0 <= near <= far,
    ;
    lemma_integer_sqrt_is_monotonic(HORIZON_TERM + near * near, HORIZON_TERM + far * far);
    lemma_mapping_denominator_bounds(lower);
}

/// Between the horizon and the zenith, and for zenith delays whose sum is not negative,
/// a satellite that stands higher has no longer delay.
pub proof fn lemma_slant_delay_is_monotonic(lower: int, higher: int, zwd: int, zdd: int)
    requires
        0 <= lower <= higher <= RIGHT_ANGLE,
        0 <= zwd + zdd,
    ensures
        slant_delay(higher, zwd, zdd) <= slant_delay(lower, zwd, zdd),
{
    lemma_mapping_denominator_is_monotonic(lower, higher);
    let scaled = (zwd + zdd) * ZENITH_TERM;
    lemma_div_is_ordered_by_denominator(
        scaled,
        mapping_denominator(lower),
        mapping_denominator(higher),
    );
}

} // verus!
