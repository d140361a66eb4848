//! IEEE 754 numbers, held by their bit patterns.
//!
//! The crate carries measured quantities, tests whether they are finite,
//! compares them and changes their precision, and does no other arithmetic on
//! them: that is left to the code that turns them into matrices and shader
//! inputs. Bit patterns are enough for what is done here. [`Real64::scaled`] and [`Real32::scaled`] say which
//! number a pattern stands for.

use vstd::arithmetic::power2::{lemma_pow2_adds, lemma_pow2_pos, lemma_pow2_unfold, pow2};
use vstd::prelude::*;

verus! {

/// Sign bit of a double.
pub const SIGN64: u64 = 0x8000_0000_0000_0000;

/// Exponent bits of a double: the pattern of positive infinity.
pub const INFINITY64: u64 = 0x7ff0_0000_0000_0000;

/// Number of patterns per exponent of a double.
pub const STEP64: u64 = 0x0010_0000_0000_0000;

/// Sign bit of a single.
pub const SIGN32: u32 = 0x8000_0000;

/// Exponent bits of a single: the pattern of positive infinity.
pub const INFINITY32: u32 = 0x7f80_0000;

/// Number of patterns per exponent of a single.
pub const STEP32: u32 = 0x0080_0000;

/// The significand of a pattern times two to its exponent, in units of the
/// smallest positive number of the format. `step` is the number of patterns
/// per exponent.
pub open spec fn units(magnitude: nat, step: nat) -> nat
    recommends
        step > 0,
{
    let exponent = magnitude / step;
    let fraction = magnitude % step;
    if exponent == 0 {
        fraction
    } else {
        (step + fraction) * pow2((exponent - 1) as nat)
    }
}

/// A double-precision number.
#[derive(Clone, Copy, Debug, PartialEq, Eq, Hash, Structural)]
pub struct Real64 {
    /// Sign, exponent and fraction, as the format lays them out.
    pub bits: u64,
}

/// A single-precision number.
#[derive(Clone, Copy, Debug, PartialEq, Eq, Hash, Structural)]
pub struct Real32 {
    /// Sign, exponent and fraction, as the format lays them out.
    pub bits: u32,
}

proof fn lemma_units_same_exponent(e: nat, f: nat, g: nat, step: nat)
    requires
        f < g,
        0 < step,
    ensures
        (step + f) * pow2(e) < (step + g) * pow2(e),
{
    lemma_pow2_pos(e);
    let p = pow2(e);
    assert((step + f) * p < (step + g) * p) by (nonlinear_arith)
        requires
            f < g,
            0 < p,
    ;
}

/// Larger patterns stand for larger numbers.
proof fn lemma_units_increase(a: nat, b: nat, step: nat)
    requires
        0 < step,
        a < b,
    ensures
        units(a, step) < units(b, step),
{
    let ea = a / step;
    let eb = b / step;
    let fa = a % step;
    let fb = b % step;
    vstd::arithmetic::div_mod::lemma_fundamental_div_mod(a as int, step as int);
    vstd::arithmetic::div_mod::lemma_fundamental_div_mod(b as int, step as int);
    vstd::arithmetic::div_mod::lemma_mod_bound(a as int, step as int);
    vstd::arithmetic::div_mod::lemma_mod_bound(b as int, step as int);
    assert(ea <= eb) by (nonlinear_arith)
        requires
            a == step * ea + fa,
            b == step * eb + fb,
            a < b,
            0 <= fa < step,
            0 <= fb < step,
    ;
    if ea == eb {
        assert(fa < fb) by (nonlinear_arith)
            requires
                a == step * ea + fa,
                b == step * eb + fb,
                a < b,
                ea == eb,
        ;
        if ea > 0 {
            lemma_units_same_exponent((ea - 1) as nat, fa, fb, step);
        }
    } else {
        let pb = pow2((eb - 1) as nat);
        lemma_pow2_pos((eb - 1) as nat);
        assert(step * pb <= (step + fb) * pb) by (nonlinear_arith)
            requires
                0 <= fb,
                0 < pb,
        ;
        if ea == 0 {
            assert(step <= step * pb) by (nonlinear_arith)
                requires
                    1 <= pb,
                    0 < step,
            ;
        } else {
            let pa = pow2((ea - 1) as nat);
            lemma_pow2_pos((ea - 1) as nat);
            lemma_pow2_pos((eb - 1 - ea) as nat);
            lemma_pow2_adds((eb - 1 - ea) as nat, ea);
            lemma_pow2_unfold(ea);
            let rest = pow2((eb - 1 - ea) as nat);
            assert(pb == rest * pow2(ea));
            assert(pow2(ea) == 2 * pa);
            assert((step + fa) * pa < step * pb) by (nonlinear_arith)
                requires
                    0 <= fa < step,
                    0 < pa,
                    1 <= rest,
                    pb == rest * (2 * pa),
            ;
        }
    }
}

proof fn lemma_units_order(a: nat, b: nat, step: nat)
    requires
        0 < step,
    ensures
        units(a, step) < units(b, step) <==> a < b,
        units(a, step) == units(b, step) <==> a == b,
        units(0, step) == 0,
{
    assert(0nat / step == 0 && 0nat % step == 0) by (nonlinear_arith)
        requires
            0 < step,
    ;
    if a < b {
        lemma_units_increase(a, b, step);
    } else if b < a {
        lemma_units_increase(b, a, step);
    }
}

impl Real64 {
    /// Whether the sign bit is set.
    pub open spec fn negative(self) -> bool {
        self.bits >= SIGN64
    }

    /// The pattern without its sign.
    pub open spec fn magnitude(self) -> nat {
        if self.negative() {
            (self.bits - SIGN64) as nat
        } else {
            self.bits as nat
        }
    }

    /// Neither infinite nor a NaN.
    pub open spec fn finite(self) -> bool {
        self.magnitude() < INFINITY64
    }

    /// Not a number.
    pub open spec fn nan(self) -> bool {
        self.magnitude() > INFINITY64
    }

    /// Orders the patterns as the numbers they stand for; both zeros are 0.
    pub open spec fn key(self) -> int {
        if self.negative() {
            -self.magnitude()
        } else {
            self.magnitude() as int
        }
    }

    /// The number, times two to the 1074th power. Of a finite pattern.
    pub open spec fn scaled(self) -> int {
        if self.negative() {
            -units(self.magnitude(), STEP64 as nat)
        } else {
            units(self.magnitude(), STEP64 as nat) as int
        }
    }

    /// `self <= other`, false where either is a NaN.
    pub open spec fn at_most(self, other: Real64) -> bool {
        !self.nan() && !other.nan() && self.key() <= other.key()
    }

    /// Position among all patterns; NaNs fall outside the infinities.
    fn order_key(self) -> (key: i64)
        ensures
            key == self.key(),
    {
        if self.bits >= SIGN64 {
            let magnitude: u64 = self.bits - SIGN64;
            -(magnitude as i64)
        } else {
            self.bits as i64
        }
    }

    /// Whether the number is neither infinite nor a NaN.
    pub fn is_finite(self) -> (finite: bool)
        ensures
            finite == self.finite(),
    {
        let magnitude: u64 = if self.bits >= SIGN64 {
            self.bits - SIGN64
        } else {
            self.bits
        };
        magnitude < INFINITY64
    }

    /// Whether this is not a number.
    pub fn is_nan(self) -> (nan: bool)
        ensures
            nan == self.nan(),
    {
        let magnitude: u64 = if self.bits >= SIGN64 {
            self.bits - SIGN64
        } else {
            self.bits
        };
        magnitude > INFINITY64
    }

    /// `self <= other`, false where either is a NaN.
    pub fn le(self, other: Real64) -> (le: bool)
        ensures
            le == self.at_most(other),
    {
        !self.is_nan() && !other.is_nan() && self.order_key() <= other.order_key()
    }

    /// The number as text, where it is not finite.
    pub fn non_finite_text(self) -> (text: &'static str)
        requires
            !self.finite(),
        ensures
            text@ == self.non_finite_name(),
    {
        if self.is_nan() {
            "NaN"
        } else if self.bits >= SIGN64 {
            "-inf"
        } else {
            "inf"
        }
    }

    /// How an infinity or a NaN is written.
    pub open spec fn non_finite_name(self) -> Seq<char> {
        if self.nan() {
            "NaN"@
        } else if self.negative() {
            "-inf"@
        } else {
            "inf"@
        }
    }
}

impl Real32 {
    /// Whether the sign bit is set.
    pub open spec fn negative(self) -> bool {
        self.bits >= SIGN32
    }

    /// The pattern without its sign.
    pub open spec fn magnitude(self) -> nat {
        if self.negative() {
            (self.bits - SIGN32) as nat
        } else {
            self.bits as nat
        }
    }

    /// Neither infinite nor a NaN.
    pub open spec fn finite(self) -> bool {
        self.magnitude() < INFINITY32
    }

    /// Not a number.
    pub open spec fn nan(self) -> bool {
        self.magnitude() > INFINITY32
    }

    /// Orders the patterns as the numbers they stand for; both zeros are 0.
    pub open spec fn key(self) -> int {
        if self.negative() {
            -self.magnitude()
        } else {
            self.magnitude() as int
        }
    }

    /// The number, times two to the 149th power. Of a finite pattern.
    pub open spec fn scaled(self) -> int {
        if self.negative() {
            -units(self.magnitude(), STEP32 as nat)
        } else {
            units(self.magnitude(), STEP32 as nat) as int
        }
    }

    /// `self < other`, false where either is a NaN.
    pub open spec fn below(self, other: Real32) -> bool {
        !self.nan() && !other.nan() && self.key() < other.key()
    }

    /// The nearest number to `self` in `[low, high]`; a NaN stays one.
    pub open spec fn clamped(self, low: Real32, high: Real32) -> Real32 {
        if self.below(low) {
            low
        } else if high.below(self) {
            high
        } else {
            self
        }
    }

    /// Position among all patterns; NaNs fall outside the infinities.
    fn order_key(self) -> (key: i64)
        ensures
            key == self.key(),
    {
        if self.bits >= SIGN32 {
            let magnitude: u32 = self.bits - SIGN32;
            -(magnitude as i64)
        } else {
            self.bits as i64
        }
    }

    /// Whether the number is neither infinite nor a NaN.
    pub fn is_finite(self) -> (finite: bool)
        ensures
            finite == self.finite(),
    {
        let magnitude: u32 = if self.bits >= SIGN32 {
            self.bits - SIGN32
        } else {
            self.bits
        };
        magnitude < INFINITY32
    }

    /// Whether this is not a number.
    pub fn is_nan(self) -> (nan: bool)
        ensures
            nan == self.nan(),
    {
        let magnitude: u32 = if self.bits >= SIGN32 {
            self.bits - SIGN32
        } else {
            self.bits
        };
        magnitude > INFINITY32
    }

    /// `self < other`, false where either is a NaN.
    pub fn lt(self, other: Real32) -> (lt: bool)
        ensures
            lt == self.below(other),
    {
        !self.is_nan() && !other.is_nan() && self.order_key() < other.order_key()
    }

    /// The nearest number to `self` in `[low, high]`; a NaN stays one.
    pub fn clamp(self, low: Real32, high: Real32) -> (clamped: Real32)
        ensures
            clamped == self.clamped(low, high),
    {
        if self.lt(low) {
            low
        } else if high.lt(self) {
            high
        } else {
            self
        }
    }
}

proof fn lemma_units_of_normal(exponent: nat, fraction: nat, step: nat)
    requires
        0 < exponent,
        fraction < step,
    ensures
        units(exponent * step + fraction, step) == (step + fraction) * pow2((exponent - 1) as nat),
{
    let m = exponent * step + fraction;
    assert(m / step == exponent && m % step == fraction) by (nonlinear_arith)
        requires
            m == exponent * step + fraction,
            0 <= fraction < step,
            0 <= exponent,
    ;
}

/// A whole number below two to the 53rd power, times a power of two within
/// the exponent range, is a double.
pub proof fn lemma_dyadic_exists(significand: nat, exponent: nat) -> (number: Real64)
    requires
        0 < significand < 2 * STEP64,
        exponent <= 2000,
        significand < STEP64 ==> pow2(exponent) * significand >= STEP64,
    ensures
        number.finite(),
        !number.negative(),
        number.scaled() == significand * pow2(exponent),
    decreases exponent,
{
    if significand >= STEP64 {
        let fraction = (significand - STEP64) as nat;
        lemma_units_of_normal(exponent + 1, fraction, STEP64 as nat);
        Real64 { bits: ((exponent + 1) * STEP64 + fraction) as u64 }
    } else {
        vstd::arithmetic::power2::lemma2_to64();
        if exponent == 0 {
            assert(pow2(0) * significand == significand) by (nonlinear_arith)
                requires
                    pow2(0) == 1,
            ;
            assert(false);
        }
        lemma_pow2_unfold(exponent);
        let p = pow2((exponent - 1) as nat);
        assert((2 * p) * significand == p * (2 * significand)) by (nonlinear_arith);
        assert(significand * (2 * p) == (2 * significand) * p) by (nonlinear_arith);
        lemma_dyadic_exists(2 * significand, (exponent - 1) as nat)
    }
}

proof fn lemma_enough(significand: nat, exponent: nat)
    requires
        0 < significand,
        52 <= exponent,
    ensures
        pow2(exponent) * significand >= STEP64,
{
    vstd::arithmetic::power2::lemma2_to64_rest();
    lemma_pow2_adds(52, (exponent - 52) as nat);
    lemma_pow2_pos((exponent - 52) as nat);
    let p = pow2((exponent - 52) as nat);
    let q = pow2(52);
    assert((q * p) * significand >= q) by (nonlinear_arith)
        requires
            1 <= p,
            1 <= significand,
            0 <= q,
    ;
}

/// Every whole number of 32 bits is a double.
pub proof fn lemma_whole_exists(n: nat) -> (number: Real64)
    requires
        n <= u32::MAX,
    ensures
        number.finite(),
        !number.negative(),
        number.scaled() == n * pow2(1074),
{
    if n == 0 {
        lemma_zero();
        Real64 { bits: 0 }
    } else {
        lemma_enough(n, 1074);
        lemma_dyadic_exists(n, 1074)
    }
}

/// Every single has a double-precision pattern.
pub proof fn lemma_widened(x: Real32)
    ensures
        x.widens_to(x.widened()),
{
    let sign: u64 = if x.negative() {
        SIGN64
    } else {
        0
    };
    let m = x.magnitude();
    let witness: Real64 = if x.nan() {
        Real64 { bits: (sign + INFINITY64 + STEP64 / 2) as u64 }
    } else if !x.finite() {
        Real64 { bits: (sign + INFINITY64) as u64 }
    } else if m == 0 {
        lemma_units_order(0, 0, STEP32 as nat);
        lemma_zero();
        Real64 { bits: sign }
    } else {
        let exponent = m / STEP32 as nat;
        let fraction = m % STEP32 as nat;
        let rest = if exponent == 0 {
            0nat
        } else {
            (exponent - 1) as nat
        };
        let significand = if exponent == 0 {
            fraction
        } else {
            STEP32 as nat + fraction
        };
        lemma_pow2_adds(rest, 925);
        assert(significand * (pow2(rest) * pow2(925)) == (significand * pow2(rest)) * pow2(925))
            by (nonlinear_arith);
        vstd::arithmetic::power2::lemma2_to64();
        assert(exponent == 0 ==> significand * pow2(rest) == significand) by (nonlinear_arith)
            requires
                pow2(0) == 1,
                exponent == 0 ==> rest == 0,
        ;
        lemma_enough(significand, rest + 925);
        let positive = lemma_dyadic_exists(significand, rest + 925);
        let u = units(m, STEP32 as nat) as int;
        let p = pow2(925) as int;
        assert(-(u * p) == (-u) * p) by (nonlinear_arith);
        Real64 { bits: (sign + positive.bits) as u64 }
    };
    assert(x.widens_to(witness));
}

impl Real64 {
    /// `n` times two to the power `exponent`.
    fn dyadic(n: u32, exponent: i64) -> (number: Real64)
        requires
            -900 <= exponent <= 900,
        ensures
            number.finite(),
            !number.negative(),
            number.scaled() == n * pow2((1074 + exponent) as nat),
    {
        if n == 0 {
            proof {
                lemma_units_order(0, 0, STEP64 as nat);
            }
            return Real64 { bits: 0 };
        }
        let mut significand: u64 = n as u64;
        let mut up: i64 = 0;
        proof {
            vstd::arithmetic::power2::lemma2_to64();
            vstd::arithmetic::power2::lemma2_to64_rest();
            let one = pow2(0);
            assert(n * one == n) by (nonlinear_arith)
                requires
                    one == 1,
            ;
        }
        while significand < STEP64
            invariant
                0 <= up <= 52,
                0 < n,
                significand == n * pow2(up as nat),
                pow2(up as nat) <= significand,
                significand < 2 * STEP64,
                significand < STEP64 ==> up < 52,
                pow2(52) == STEP64,
            decreases 52 - up,
        {
            proof {
                lemma_pow2_unfold((up + 1) as nat);
                let p = pow2(up as nat);
                assert(2 * (n * p) == n * (2 * p)) by (nonlinear_arith);
                if up + 1 == 52 {
                    assert(2 * significand >= STEP64);
                } else if up + 1 > 52 {
                    assert(false);
                }
            }
            significand = significand * 2;
            up = up + 1;
        }
        let fraction: u64 = significand - STEP64;
        let field: u64 = (1075 - up + exponent) as u64;
        proof {
            lemma_units_of_normal(field as nat, fraction as nat, STEP64 as nat);
            let rest = (1074 - up + exponent) as nat;
            lemma_pow2_adds(up as nat, rest);
            assert((n * pow2(up as nat)) * pow2(rest) == n * (pow2(up as nat) * pow2(rest)))
                by (nonlinear_arith);
        }
        Real64 { bits: field * STEP64 + fraction }
    }

    /// The number `n`.
    pub fn from_u32(n: u32) -> (number: Real64)
        ensures
            number.finite(),
            !number.negative(),
            number.scaled() == n * pow2(1074),
    {
        Real64::dyadic(n, 0)
    }

    /// Half of the number `n`.
    pub fn half_of(n: u32) -> (number: Real64)
        ensures
            number.finite(),
            !number.negative(),
            2 * number.scaled() == n * pow2(1074),
    {
        proof {
            lemma_pow2_unfold(1074);
            let p = pow2(1073);
            assert(2 * (n * p) == n * (2 * p)) by (nonlinear_arith);
        }
        Real64::dyadic(n, -1)
    }
}

impl Real32 {
    /// `wide` is the same number in double precision.
    pub open spec fn widens_to(self, wide: Real64) -> bool {
        &&& wide.negative() == self.negative()
        &&& wide.finite() == self.finite()
        &&& self.nan() ==> wide.bits == (if self.negative() {
            SIGN64
        } else {
            0
        }) + INFINITY64 + STEP64 / 2
        &&& !self.finite() && !self.nan() ==> wide.magnitude() == INFINITY64
        &&& self.finite() ==> wide.scaled() == self.scaled() * pow2(925)
    }

    /// The same number in double precision. A NaN becomes the quiet one.
    pub open spec fn widened(self) -> Real64 {
        choose|wide: Real64| self.widens_to(wide)
    }

    /// The same number in double precision. A NaN becomes the quiet one.
    pub fn widen(self) -> (wide: Real64)
        ensures
            wide == self.widened(),
            self.widens_to(wide),
    {
        let wide = self.widen_pattern();
        proof {
            law_widening_is_unique(self, wide, self.widened());
        }
        wide
    }

    fn widen_pattern(self) -> (wide: Real64)
        ensures
            self.widens_to(wide),
    {
        let sign: u64 = if self.bits >= SIGN32 {
            SIGN64
        } else {
            0
        };
        let magnitude: u32 = if self.bits >= SIGN32 {
            self.bits - SIGN32
        } else {
            self.bits
        };
        if magnitude > INFINITY32 {
            return Real64 { bits: sign + INFINITY64 + STEP64 / 2 };
        }
        if magnitude == INFINITY32 {
            return Real64 { bits: sign + INFINITY64 };
        }
        let exponent: u32 = magnitude / STEP32;
        let fraction: u32 = magnitude % STEP32;
        let positive = if exponent == 0 {
            Real64::dyadic(fraction, -149)
        } else {
            Real64::dyadic(STEP32 + fraction, exponent as i64 - 150)
        };
        proof {
            let m = magnitude as nat;
            if exponent != 0 {
                let rest = (exponent - 1) as nat;
                lemma_pow2_adds(rest, 925);
                let n = STEP32 as nat + fraction as nat;
                assert(n * (pow2(rest) * pow2(925)) == (n * pow2(rest)) * pow2(925))
                    by (nonlinear_arith);
            }
            assert(positive.scaled() == units(m, STEP32 as nat) * pow2(925));
            let u = units(m, STEP32 as nat) as int;
            let p = pow2(925) as int;
            assert(-(u * p) == (-u) * p) by (nonlinear_arith);
        }
        Real64 { bits: sign + positive.bits }
    }
}

/// The number that a single's pattern without its sign stands for, times two to the
/// 1074th power. The pattern of infinity stands for what would come next.
pub open spec fn single_units(magnitude: nat) -> nat {
    units(magnitude, STEP32 as nat) * pow2(925)
}

/// Whether no single is nearer to a number than the given one. A number halfway
/// between two goes to the one with the even pattern, and one that is nearer to what
/// would follow the largest single goes to infinity.
pub open spec fn nearest_single(number: nat, magnitude: nat) -> bool {
    &&& magnitude <= INFINITY32
    &&& magnitude > 0 ==> {
        let twice = single_units((magnitude - 1) as nat) + single_units(magnitude);
        2 * number > twice || (2 * number == twice && magnitude % 2 == 0)
    }
    &&& magnitude < INFINITY32 ==> {
        let twice = single_units(magnitude) + single_units(magnitude + 1);
        2 * number < twice || (2 * number == twice && magnitude % 2 == 0)
    }
}

proof fn lemma_single_units_increase(a: nat, b: nat)
    requires
        a < b,
    ensures
        single_units(a) < single_units(b),
{
    lemma_units_increase(a, b, STEP32 as nat);
    lemma_pow2_pos(925);
    let (u, w, p) = (units(a, STEP32 as nat), units(b, STEP32 as nat), pow2(925));
    assert(u * p < w * p) by (nonlinear_arith)
        requires
            u < w,
            0 < p,
    ;
}

proof fn lemma_nearest_in_order(number: nat, a: nat, b: nat)
    requires
        nearest_single(number, a),
        nearest_single(number, b),
    ensures
        a >= b,
{
    if a < b {
        lemma_single_units_increase((b - 1) as nat, b);
        lemma_single_units_increase(a, a + 1);
        if a < b - 1 {
            lemma_single_units_increase(a, (b - 1) as nat);
            lemma_single_units_increase(a + 1, b);
        }
    }
}

/// Rounds between two neighbors: down if `up` is not set.
proof fn lemma_rounds(number: nat, base: nat, up: bool)
    requires
        base < INFINITY32,
        single_units(base) <= number < single_units(base + 1),
        up <==> (2 * number > single_units(base) + single_units(base + 1) || (2 * number
            == single_units(base) + single_units(base + 1) && base % 2 == 1)),
    ensures
        nearest_single(
            number,
            if up {
                base + 1
            } else {
                base
            },
        ),
{
    lemma_single_units_increase(base + 1, base + 2);
    if base > 0 {
        lemma_single_units_increase((base - 1) as nat, base);
    }
}

/// The singles next to a number with a significand of 24 bits or fewer.
proof fn lemma_neighbors(lift: nat, q: nat)
    requires
        q < 2 * STEP32,
        lift > 0 ==> q >= STEP32,
    ensures
        single_units(lift * STEP32 as nat + q) == q * pow2(lift + 925),
        single_units(lift * STEP32 as nat + q + 1) == (q + 1) * pow2(lift + 925),
{
    let step = STEP32 as nat;
    lemma_pow2_adds(lift, 925);
    vstd::arithmetic::power2::lemma2_to64();
    let p = pow2(lift);
    let w = pow2(925);
    assert(0 * step == 0) by (nonlinear_arith);
    if q < step {
        assert((lift * step + q) / step == 0 && (lift * step + q) % step == q) by (nonlinear_arith)
            requires
                lift == 0,
                0 <= q < step,
        ;
        assert(units(lift * step + q, step) == q * p) by (nonlinear_arith)
            requires
                units(lift * step + q, step) == q,
                p == 1,
        ;
    } else {
        assert(lift * step + q == (lift + 1) * step + (q - step)) by (nonlinear_arith);
        lemma_units_of_normal(lift + 1, (q - step) as nat, step);
    }
    if q + 1 < step {
        assert((lift * step + q + 1) / step == 0 && (lift * step + q + 1) % step == q + 1)
            by (nonlinear_arith)
            requires
                lift == 0,
                0 <= q + 1 < step,
        ;
        assert(units(lift * step + q + 1, step) == (q + 1) * p) by (nonlinear_arith)
            requires
                units(lift * step + q + 1, step) == q + 1,
                p == 1,
        ;
    } else if q + 1 < 2 * step {
        assert(lift * step + q + 1 == (lift + 1) * step + (q + 1 - step)) by (nonlinear_arith);
        lemma_units_of_normal(lift + 1, (q + 1 - step) as nat, step);
    } else {
        assert(lift * step + q + 1 == (lift + 2) * step + 0) by (nonlinear_arith)
            requires
                q + 1 == 2 * step,
        ;
        lemma_units_of_normal(lift + 2, 0, step);
        lemma_pow2_unfold(lift + 1);
        assert((step + 0) * pow2(lift + 1) == (q + 1) * p) by (nonlinear_arith)
            requires
                q + 1 == 2 * step,
                pow2(lift + 1) == 2 * p,
        ;
    }
    assert((q * p) * w == q * (p * w)) by (nonlinear_arith);
    assert(((q + 1) * p) * w == (q + 1) * (p * w)) by (nonlinear_arith);
}

/// Where a number stands between its neighbors is where the bits that are cut off
/// stand between nothing and one.
proof fn lemma_cut(s: nat, shift: nat, low: nat, q: nat, r: nat, number: nat)
    requires
        s == q * pow2(shift) + r,
        r < pow2(shift),
        number == s * pow2(low),
    ensures
        q * pow2(low + shift) <= number < (q + 1) * pow2(low + shift),
        2 * number > q * pow2(low + shift) + (q + 1) * pow2(low + shift) <==> 2 * r > pow2(shift),
        2 * number == q * pow2(low + shift) + (q + 1) * pow2(low + shift) <==> 2 * r == pow2(shift),
{
    lemma_pow2_adds(low, shift);
    lemma_pow2_pos(low);
    let (p, d) = (pow2(low), pow2(shift));
    let w = pow2(low + shift);
    assert(number == q * w + r * p) by (nonlinear_arith)
        requires
            number == (q * d + r) * p,
            w == p * d,
    ;
    assert((q + 1) * w == q * w + w) by (nonlinear_arith);
    assert(0 <= r * p < w) by (nonlinear_arith)
        requires
            w == p * d,
            0 <= r < d,
            0 < p,
    ;
    assert(2 * (r * p) > w <==> 2 * r > d) by (nonlinear_arith)
        requires
            w == p * d,
            0 < p,
    ;
    assert(2 * (r * p) == w <==> 2 * r == d) by (nonlinear_arith)
        requires
            w == p * d,
            0 < p,
    ;
}

impl Real64 {
    /// `narrow` is the single that this number is rounded to.
    pub open spec fn narrows_to(self, narrow: Real32) -> bool {
        &&& narrow.negative() == self.negative()
        &&& if self.nan() {
            narrow.magnitude() == INFINITY32 + STEP32 / 2
        } else if !self.finite() {
            narrow.magnitude() == INFINITY32
        } else {
            nearest_single(units(self.magnitude(), STEP64 as nat), narrow.magnitude())
        }
    }

    /// The number rounded to single precision. A NaN becomes the quiet one.
    pub open spec fn narrowed(self) -> Real32 {
        choose|narrow: Real32| self.narrows_to(narrow)
    }

    /// The number rounded to single precision. A NaN becomes the quiet one.
    pub fn narrow(self) -> (narrow: Real32)
        ensures
            narrow == self.narrowed(),
            self.narrows_to(narrow),
    {
        let sign: u32 = if self.bits >= SIGN64 {
            SIGN32
        } else {
            0
        };
        let magnitude: u64 = if self.bits >= SIGN64 {
            self.bits - SIGN64
        } else {
            self.bits
        };
        let narrow = if magnitude > INFINITY64 {
            Real32 { bits: sign + INFINITY32 + STEP32 / 2 }
        } else if magnitude == INFINITY64 {
            Real32 { bits: sign + INFINITY32 }
        } else {
            Real32 { bits: sign + narrow_magnitude(magnitude) }
        };
        proof {
            lemma_narrowed(self, narrow);
        }
        narrow
    }
}

fn narrow_magnitude(magnitude: u64) -> (narrow: u32)
    requires
        magnitude < INFINITY64,
    ensures
        nearest_single(units(magnitude as nat, STEP64 as nat), narrow as nat),
{
    let field: u64 = magnitude / STEP64;
    let fraction: u64 = magnitude % STEP64;
    let ghost number = units(magnitude as nat, STEP64 as nat);
    if field >= 1151 {
        proof {
            lemma_too_large(field as nat, fraction as nat, number);
        }
        return INFINITY32;
    }
    if field < 873 {
        proof {
            lemma_too_small(field as nat, fraction as nat, number);
        }
        return 0;
    }
    let s: u64 = STEP64 + fraction;
    let (lift, shift): (u32, u32) = if field >= 897 {
        ((field - 897) as u32, 29)
    } else {
        (0, (926 - field) as u32)
    };
    let one: u64 = power_of_two(shift);
    proof {
        lemma_pow2_pos(shift as nat);
    }
    let q: u64 = s / one;
    let r: u64 = s % one;
    let ghost low = (field - 1) as nat;
    proof {
        vstd::arithmetic::power2::lemma2_to64();
        vstd::arithmetic::power2::lemma2_to64_rest();
        vstd::arithmetic::div_mod::lemma_fundamental_div_mod(s as int, one as int);
        lemma_pow2_adds(29, (shift - 29) as nat);
        lemma_pow2_pos((shift - 29) as nat);
        let more = pow2((shift - 29) as nat);
        assert(one as int * q as int == q * one) by (nonlinear_arith);
        assert(q < 2 * STEP32) by (nonlinear_arith)
            requires
                one * q <= s,
                s < 2 * STEP64,
                one == pow2(29) * more,
                more >= 1,
                pow2(29) == 0x2000_0000,
        ;
        if field >= 897 {
            assert(q >= STEP32) by (nonlinear_arith)
                requires
                    s == one * q + r,
                    r < one,
                    s >= STEP64,
                    one == 0x2000_0000,
            ;
        }
        lemma_cut(s as nat, shift as nat, low, q as nat, r as nat, number);
        lemma_neighbors(lift as nat, q as nat);
        assert(lift + 925 == low + shift);
    }
    assert(lift * STEP32 <= 253 * STEP32) by (nonlinear_arith)
        requires
            lift <= 253,
    ;
    let base: u32 = lift * STEP32 + q as u32;
    let up: bool = r > one - r || (r == one - r && base % 2 == 1);
    proof {
        lemma_rounds(number, base as nat, up);
    }
    if up {
        base + 1
    } else {
        base
    }
}

fn power_of_two(n: u32) -> (power: u64)
    requires
        n < 64,
    ensures
        power == pow2(n as nat),
{
    let mut power: u64 = 1;
    let mut i: u32 = 0;
    proof {
        vstd::arithmetic::power2::lemma2_to64();
    }
    while i < n
        invariant
            i <= n < 64,
            power == pow2(i as nat),
        decreases n - i,
    {
        proof {
            lemma_pow2_unfold((i + 1) as nat);
            vstd::arithmetic::power2::lemma2_to64_rest();
            if i + 1 < 63 {
                vstd::arithmetic::power2::lemma_pow2_strictly_increases((i + 1) as nat, 63);
            }
        }
        power = power * 2;
        i = i + 1;
    }
    power
}

proof fn lemma_too_large(field: nat, fraction: nat, number: nat)
    requires
        field >= 1151,
        number == (STEP64 + fraction) * pow2((field - 1) as nat),
    ensures
        nearest_single(number, INFINITY32 as nat),
{
    let top = INFINITY32 as nat;
    lemma_neighbors(254, STEP32 as nat);
    lemma_single_units_increase((top - 1) as nat, top);
    lemma_pow2_adds(1150, (field - 1151) as nat);
    lemma_pow2_pos((field - 1151) as nat);
    lemma_pow2_adds(29, 1150);
    vstd::arithmetic::power2::lemma2_to64();
    let (p, more) = (pow2(1150), pow2((field - 1151) as nat));
    assert(number >= STEP32 * pow2(1179)) by (nonlinear_arith)
        requires
            number == (STEP64 + fraction) * (p * more),
            more >= 1,
            p >= 0,
            0 <= fraction,
            pow2(1179) == 0x2000_0000 * p,
            STEP64 == STEP32 * 0x2000_0000,
    ;
    assert(254 * STEP32 + STEP32 == INFINITY32);
}

proof fn lemma_too_small(field: nat, fraction: nat, number: nat)
    requires
        field < 873,
        fraction < STEP64,
        number == if field == 0 {
            fraction
        } else {
            (STEP64 as nat + fraction) * pow2((field - 1) as nat)
        },
    ensures
        nearest_single(number, 0),
{
    lemma_neighbors(0, 0);
    vstd::arithmetic::power2::lemma2_to64();
    vstd::arithmetic::power2::lemma2_to64_rest();
    lemma_pow2_adds(53, 871);
    lemma_pow2_unfold(925);
    lemma_pow2_pos(871);
    let p = pow2(871);
    let exponent: nat = if field == 0 {
        0
    } else {
        (field - 1) as nat
    };
    if exponent < 871 {
        vstd::arithmetic::power2::lemma_pow2_strictly_increases(exponent, 871);
    }
    let e = pow2(exponent);
    lemma_pow2_pos(exponent);
    assert(number <= (STEP64 + fraction) * e) by (nonlinear_arith)
        requires
            number == fraction || number == (STEP64 + fraction) * e,
            1 <= e,
            0 <= fraction,
    ;
    assert((STEP64 + fraction) * e < pow2(53) * p) by (nonlinear_arith)
        requires
            fraction < STEP64,
            pow2(53) == 2 * STEP64,
            0 < e <= p,
    ;
    assert(2 * number < pow2(925));
    assert(0 * pow2(925) == 0 && 1 * pow2(925) == pow2(925)) by (nonlinear_arith);
}

/// A number is rounded to one single.
pub proof fn law_narrowing_is_unique(x: Real64, a: Real32, b: Real32)
    requires
        x.narrows_to(a),
        x.narrows_to(b),
    ensures
        a == b,
{
    if x.finite() {
        let number = units(x.magnitude(), STEP64 as nat);
        lemma_nearest_in_order(number, a.magnitude(), b.magnitude());
        lemma_nearest_in_order(number, b.magnitude(), a.magnitude());
    }
}

/// What a double is rounded to.
pub proof fn lemma_narrowed(x: Real64, narrow: Real32)
    requires
        x.narrows_to(narrow),
    ensures
        x.narrowed() == narrow,
{
    law_narrowing_is_unique(x, narrow, x.narrowed());
}

/// Rounding gives a widened number back.
pub proof fn law_narrowing_undoes_widening(x: Real32)
    requires
        !x.nan(),
    ensures
        x.widened().narrowed() == x,
{
    lemma_widened(x);
    let wide = x.widened();
    let m = x.magnitude();
    if x.finite() {
        let u = units(m, STEP32 as nat) as int;
        let p = pow2(925) as int;
        assert(-(u * p) == (-u) * p) by (nonlinear_arith);
        assert(units(wide.magnitude(), STEP64 as nat) == single_units(m));
        lemma_single_units_increase(m, m + 1);
        if m > 0 {
            lemma_single_units_increase((m - 1) as nat, m);
        }
    }
    lemma_narrowed(wide, x);
}

/// Comparing patterns is comparing the numbers they stand for.
pub proof fn law_double_order_is_numeric(a: Real64, b: Real64)
    requires
        a.finite(),
        b.finite(),
    ensures
        a.at_most(b) <==> a.scaled() <= b.scaled(),
{
    lemma_units_order(a.magnitude(), b.magnitude(), STEP64 as nat);
    lemma_units_order(a.magnitude(), 0, STEP64 as nat);
    lemma_units_order(b.magnitude(), 0, STEP64 as nat);
}

/// Comparing patterns is comparing the numbers they stand for.
pub proof fn law_single_order_is_numeric(a: Real32, b: Real32)
    requires
        a.finite(),
        b.finite(),
    ensures
        a.below(b) <==> a.scaled() < b.scaled(),
{
    lemma_units_order(a.magnitude(), b.magnitude(), STEP32 as nat);
    lemma_units_order(a.magnitude(), 0, STEP32 as nat);
    lemma_units_order(b.magnitude(), 0, STEP32 as nat);
}

/// The pattern of zero stands for zero.
pub proof fn lemma_zero()
    ensures
        (Real64 { bits: 0 }).scaled() == 0,
        (Real64 { bits: 0 }).finite(),
{
    lemma_units_order(0, 0, STEP64 as nat);
}

/// Two doubles of one sign that stand for the same number are the same.
pub proof fn law_equal_numbers_have_one_pattern(a: Real64, b: Real64)
    requires
        a.finite(),
        b.finite(),
        a.negative() == b.negative(),
        a.scaled() == b.scaled(),
    ensures
        a == b,
{
    lemma_units_order(a.magnitude(), b.magnitude(), STEP64 as nat);
}

/// A number has one double-precision pattern.
pub proof fn law_widening_is_unique(x: Real32, a: Real64, b: Real64)
    requires
        x.widens_to(a),
        x.widens_to(b),
    ensures
        a == b,
{
    lemma_units_order(a.magnitude(), b.magnitude(), STEP64 as nat);
}

/// Clamping puts every number into the interval and leaves those that are in
/// it alone.
pub proof fn law_clamp(x: Real32, low: Real32, high: Real32)
    requires
        !x.nan(),
        !low.nan(),
        !high.nan(),
        !high.below(low),
    ensures
        !x.clamped(low, high).below(low),
        !high.below(x.clamped(low, high)),
        !x.below(low) && !high.below(x) ==> x.clamped(low, high) == x,
        x.clamped(low, high).clamped(low, high) == x.clamped(low, high),
{
}

proof fn lemma_nearest_exists(magnitude: nat) -> (narrow: nat)
    requires
        magnitude < INFINITY64,
    ensures
        nearest_single(units(magnitude, STEP64 as nat), narrow),
{
    let field = magnitude / STEP64 as nat;
    let fraction = magnitude % STEP64 as nat;
    let number = units(magnitude, STEP64 as nat);
    if field >= 1151 {
        lemma_too_large(field, fraction, number);
        INFINITY32 as nat
    } else if field < 873 {
        lemma_too_small(field, fraction, number);
        0
    } else {
        let s = STEP64 as nat + fraction;
        let lift: nat = if field >= 897 {
            (field - 897) as nat
        } else {
            0
        };
        let shift: nat = if field >= 897 {
            29
        } else {
            (926 - field) as nat
        };
        lemma_pow2_pos(shift);
        let one = pow2(shift);
        let q = s / one;
        let r = s % one;
        let low = (field - 1) as nat;
        vstd::arithmetic::power2::lemma2_to64();
        vstd::arithmetic::power2::lemma2_to64_rest();
        vstd::arithmetic::div_mod::lemma_fundamental_div_mod(s as int, one as int);
        vstd::arithmetic::div_mod::lemma_mod_bound(s as int, one as int);
        lemma_pow2_adds(29, (shift - 29) as nat);
        lemma_pow2_pos((shift - 29) as nat);
        let more = pow2((shift - 29) as nat);
        assert(one * q == q * one) by (nonlinear_arith);
        assert(q < 2 * STEP32) by (nonlinear_arith)
            requires
                one * q <= s,
                s < 2 * STEP64,
                one == pow2(29) * more,
                more >= 1,
                pow2(29) == 0x2000_0000,
        ;
        if field >= 897 {
            assert(q >= STEP32) by (nonlinear_arith)
                requires
                    s == one * q + r,
                    r < one,
                    s >= STEP64,
                    one == 0x2000_0000,
            ;
        }
        lemma_cut(s, shift, low, q, r, number);
        lemma_neighbors(lift, q);
        assert(lift + 925 == low + shift);
        assert(lift * STEP32 <= 253 * STEP32) by (nonlinear_arith)
            requires
                lift <= 253,
        ;
        let base = lift * STEP32 as nat + q;
        let up = 2 * r > one || (2 * r == one && base % 2 == 1);
        lemma_rounds(number, base, up);
        if up {
            base + 1
        } else {
            base
        }
    }
}

/// Every double is rounded to some single.
pub proof fn lemma_narrowing_exists(x: Real64)
    ensures
        x.narrows_to(x.narrowed()),
{
    let sign: u32 = if x.negative() {
        SIGN32
    } else {
        0
    };
    let magnitude: nat = if x.nan() {
        (INFINITY32 + STEP32 / 2) as nat
    } else if !x.finite() {
        INFINITY32 as nat
    } else {
        lemma_nearest_exists(x.magnitude())
    };
    let witness = Real32 { bits: (sign + magnitude) as u32 };
    assert(x.narrows_to(witness));
}

/// A single is no number exactly if its pattern without the sign is above that of infinity, and
/// finite exactly if it is below. Every finite number is between the infinities.
pub proof fn law_singles_are_told_by_their_pattern(x: Real32)
    ensures
        x.nan() <==> x.bits % 0x8000_0000 > 0x7f80_0000,
        x.finite() <==> x.bits % 0x8000_0000 < 0x7f80_0000,
        x.negative() <==> x.bits >= 0x8000_0000,
        x.finite() ==> x.below(Real32 { bits: 0x7f80_0000 }) && (Real32 {
            bits: 0xff80_0000,
        }).below(x),
        x.nan() ==> forall|y: Real32| !(#[trigger] x.below(y)) && !y.below(x),
{
}

/// The same of doubles.
pub proof fn law_doubles_are_told_by_their_pattern(x: Real64)
    ensures
        x.nan() <==> x.bits % 0x8000_0000_0000_0000 > 0x7ff0_0000_0000_0000,
        x.finite() <==> x.bits % 0x8000_0000_0000_0000 < 0x7ff0_0000_0000_0000,
        x.negative() <==> x.bits >= 0x8000_0000_0000_0000,
        x.finite() ==> x.at_most(Real64 { bits: 0x7ff0_0000_0000_0000 }) && (Real64 {
            bits: 0xfff0_0000_0000_0000,
        }).at_most(x),
        x.nan() ==> forall|y: Real64| !(#[trigger] x.at_most(y)) && !y.at_most(x),
{
}

/// The pattern of one stands for one, that of a half for a half, and doubling the exponent's
/// place doubles the number.
pub proof fn law_patterns_stand_for_their_numbers(magnitude: nat)
    ensures
        units(0, STEP32 as nat) == 0,
        (Real32 { bits: 0x3f80_0000 }).scaled() == pow2(149),
        (Real64 { bits: 0x3ff0_0000_0000_0000 }).scaled() == pow2(1074),
        magnitude >= STEP32 ==> units(magnitude + STEP32 as nat, STEP32 as nat) == 2 * units(
            magnitude,
            STEP32 as nat,
        ),
        magnitude < STEP32 ==> units(magnitude, STEP32 as nat) == magnitude,
{
    let step = STEP32 as nat;
    lemma_units_order(0, 0, step);
    vstd::arithmetic::power2::lemma2_to64();
    vstd::arithmetic::power2::lemma2_to64_rest();
    lemma_units_of_normal(127, 0, step);
    assert(0x3f80_0000 == 127 * 0x0080_0000) by (nonlinear_arith);
    lemma_pow2_adds(23, 126);
    assert((step + 0) * pow2(126) == pow2(149));
    lemma_units_of_normal(1023, 0, STEP64 as nat);
    assert(0x3ff0_0000_0000_0000 == 1023 * 0x0010_0000_0000_0000) by (nonlinear_arith);
    lemma_pow2_adds(52, 1022);
    assert((STEP64 as nat + 0) * pow2(1022) == pow2(1074));
    if magnitude >= step {
        let (e, f) = (magnitude / step, magnitude % step);
        assert(magnitude == e * step + f) by (nonlinear_arith)
            requires
                e == magnitude / step,
                f == magnitude % step,
                step > 0,
        ;
        lemma_units_of_normal(e, f, step);
        assert((e + 1) * step + f == magnitude + step) by (nonlinear_arith)
            requires
                magnitude == e * step + f,
        ;
        lemma_units_of_normal(e + 1, f, step);
        lemma_pow2_unfold(e);
        let p = pow2((e - 1) as nat);
        assert((step + f) * (2 * p) == 2 * ((step + f) * p)) by (nonlinear_arith);
    }
}

/// A single becomes a double that stands for the same number, with the same sign; an infinity
/// becomes an infinity and what is no number stays none.
pub proof fn law_widening_keeps_the_number(x: Real32)
    ensures
        x.widened().negative() == x.negative(),
        x.finite() ==> x.widened().finite() && x.widened().scaled() == x.scaled() * pow2(925),
        x.nan() ==> x.widened().nan(),
        !x.finite() && !x.nan() ==> !x.widened().finite() && !x.widened().nan(),
{
    lemma_widened(x);
}

/// A double is rounded to the nearest single: no other is nearer, and of two that are as near it
/// is the one with the even pattern. The sign stays; what is no number stays none.
pub proof fn law_narrowing_gives_the_nearest(x: Real64, m: nat)
    requires
        m < INFINITY32,
    ensures
        x.narrowed().negative() == x.negative(),
        x.nan() <==> x.narrowed().nan(),
        x.finite() && x.narrowed().finite() ==> ({
            let number = units(x.magnitude(), 0x0010_0000_0000_0000) as int;
            let here = units(x.narrowed().magnitude(), 0x0080_0000) * pow2(925);
            let other = units(m, 0x0080_0000) * pow2(925);
            let (near, far) = (number - here, number - other);
            &&& -(if far < 0 {
                -far
            } else {
                far
            }) <= near <= (if far < 0 {
                -far
            } else {
                far
            })
            &&& near == -far && near != 0 ==> x.narrowed().magnitude() % 2 == 0
        }),
{
    lemma_narrowing_exists(x);
    let n = x.narrowed().magnitude();
    if x.finite() && x.narrowed().finite() {
        lemma_single_units_increase(n, n + 1);
        if n > 0 {
            lemma_single_units_increase((n - 1) as nat, n);
        }
        if m < n {
            if m < n - 1 {
                lemma_single_units_increase(m, (n - 1) as nat);
            }
        } else if m > n {
            if m > n + 1 {
                lemma_single_units_increase(n + 1, m);
            }
        }
    }
}

/// A number below the interval becomes its low end, one above it its high end, and any other
/// stays.
pub proof fn law_clamping_goes_to_the_nearer_end(x: Real32, low: Real32, high: Real32)
    ensures
        x.below(low) ==> x.clamped(low, high) == low,
        !x.below(low) && high.below(x) ==> x.clamped(low, high) == high,
        !x.below(low) && !high.below(x) ==> x.clamped(low, high) == x,
{
}

} // verus!
