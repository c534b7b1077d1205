//! Amounts of money as they travel through the pipeline.
//!
//! An amount arrives as an IEEE 754 double. It is carried as that double's
//! bit pattern, so that it leaves the pipeline as it came, together with its
//! decimal rendering for the texts that people read.
use vstd::arithmetic::power2::{
    lemma2_to64, lemma2_to64_rest, lemma_pow2_adds, lemma_pow2_pos, lemma_pow2_strictly_increases,
    pow2,
};
use vstd::prelude::*;

verus! {

/// An amount above this many units of its currency is large.
pub const LARGE_AMOUNT_THRESHOLD: u64 = 10_000;

/// The bit pattern of the double that equals [`LARGE_AMOUNT_THRESHOLD`].
const LARGE_AMOUNT_BITS: u64 = 0x40C3_8800_0000_0000;

/// The bit pattern of positive infinity, above which lie the patterns that
/// are negative or no number.
const INFINITY_BITS: u64 = 0x7FF0_0000_0000_0000;

/// Whether the pattern has its sign bit set.
pub open spec fn is_negative(bits: u64) -> bool {
    bits >= 0x8000_0000_0000_0000
}

/// The biased exponent.
pub open spec fn exponent(bits: u64) -> nat {
    ((bits / 0x10_0000_0000_0000) % 0x800) as nat
}

/// The fraction below the leading digit.
pub open spec fn fraction(bits: u64) -> nat {
    (bits % 0x10_0000_0000_0000) as nat
}

/// Whether the pattern stands for no number.
pub open spec fn is_nan(bits: u64) -> bool {
    exponent(bits) == 0x7FF && fraction(bits) != 0
}

/// Whether the pattern stands for an infinity.
pub open spec fn is_infinite(bits: u64) -> bool {
    exponent(bits) == 0x7FF && fraction(bits) == 0
}

/// The absolute value of a finite double, counted in the smallest positive
/// double, which is the 1074th negative power of two.
pub open spec fn magnitude(bits: u64) -> nat {
    if exponent(bits) == 0 {
        fraction(bits)
    } else {
        (0x10_0000_0000_0000 + fraction(bits)) * pow2((exponent(bits) - 1) as nat)
    }
}

/// Whether the double is a number greater than the whole number `bound`.
pub open spec fn more_than(bits: u64, bound: nat) -> bool {
    &&& !is_nan(bits)
    &&& !is_negative(bits)
    &&& is_infinite(bits) || magnitude(bits) > bound * pow2(1074)
}

/// Among positive finite doubles, the order of the patterns is the order of
/// the numbers.
proof fn lemma_magnitude_grows_with_bits(a: u64, b: u64)
    requires
        a < b < INFINITY_BITS,
    ensures
        magnitude(a) < magnitude(b),
{
    let (ea, eb) = (exponent(a), exponent(b));
    let (fa, fb) = (fraction(a), fraction(b));
    assert(a == ea * 0x10_0000_0000_0000 + fa);
    assert(b == eb * 0x10_0000_0000_0000 + fb);
    if ea == eb {
        if ea > 0 {
            let scale = pow2((ea - 1) as nat);
            lemma_pow2_pos((ea - 1) as nat);
            assert((0x10_0000_0000_0000 + fa) * scale < (0x10_0000_0000_0000 + fb) * scale)
                by (nonlinear_arith)
                requires
                    fa < fb,
                    scale > 0,
            ;
        }
    } else {
        let scale = pow2((eb - 1) as nat);
        lemma_pow2_pos((eb - 1) as nat);
        assert(0x10_0000_0000_0000 * scale <= (0x10_0000_0000_0000 + fb) * scale)
            by (nonlinear_arith)
            requires
                scale > 0,
        ;
        if ea == 0 {
            assert(0x10_0000_0000_0000 <= 0x10_0000_0000_0000 * scale) by (nonlinear_arith)
                requires
                    scale > 0,
            ;
        } else {
            let half = pow2((ea - 1) as nat);
            lemma_pow2_pos((ea - 1) as nat);
            assert(pow2(ea) == 2 * half) by {
                lemma2_to64();
                lemma_pow2_adds((ea - 1) as nat, 1);
            }
            if ea < eb - 1 {
                lemma_pow2_strictly_increases(ea, (eb - 1) as nat);
            }
            assert((0x10_0000_0000_0000 + fa) * half < 0x10_0000_0000_0000 * scale)
                by (nonlinear_arith)
                requires
                    fa < 0x10_0000_0000_0000,
                    half > 0,
                    2 * half <= scale,
            ;
        }
    }
}

/// The pattern of the threshold is that of the threshold.
proof fn lemma_large_amount_bits()
    ensures
        magnitude(LARGE_AMOUNT_BITS) == LARGE_AMOUNT_THRESHOLD * pow2(1074),
{
    let scale = pow2(1035);
    lemma_pow2_adds(39, 1035);
    assert(pow2(39) == 0x80_0000_0000) by {
        lemma2_to64_rest();
    }
    assert(exponent(LARGE_AMOUNT_BITS) == 1036);
    assert(0x10_0000_0000_0000 + fraction(LARGE_AMOUNT_BITS) == 10_000 * 0x80_0000_0000);
    assert((10_000 * 0x80_0000_0000) * scale == 10_000 * (0x80_0000_0000 * scale))
        by (nonlinear_arith);
}

/// The doubles above ten thousand are those whose patterns lie above that of
/// ten thousand, up to and with positive infinity.
pub proof fn law_large_amounts_by_pattern(bits: u64)
    ensures
        more_than(bits, 10_000) <==> 0x40C3_8800_0000_0000 < bits <= 0x7FF0_0000_0000_0000,
{
    lemma_large_amount_bits();
    if bits < LARGE_AMOUNT_BITS {
        lemma_magnitude_grows_with_bits(bits, LARGE_AMOUNT_BITS);
    } else if LARGE_AMOUNT_BITS < bits < INFINITY_BITS {
        lemma_magnitude_grows_with_bits(LARGE_AMOUNT_BITS, bits);
    }
}

/// Whatever is at least a double that is more than `bound` is more than
/// `bound` too.
pub proof fn law_more_than_is_monotone(a: u64, b: u64, bound: nat)
    requires
        more_than(a, bound),
        a <= b <= 0x7FF0_0000_0000_0000,
    ensures
        more_than(b, bound),
{
    if a < b < INFINITY_BITS {
        lemma_magnitude_grows_with_bits(a, b);
    }
}

/// What a positive finite double is worth: its significand, of 53 binary
/// digits, times the power of two that its exponent stands for.
pub proof fn law_more_than_by_value(bits: u64, bound: nat)
    requires
        bits < 0x7FF0_0000_0000_0000,
    ensures
        ({
            let e = (bits / 0x10_0000_0000_0000) as int;
            let f = (bits % 0x10_0000_0000_0000) as int;
            more_than(bits, bound) <==> if e == 0 {
                f > bound * pow2(1074)
            } else if e < 1075 {
                0x10_0000_0000_0000 + f > bound * pow2((1075 - e) as nat)
            } else {
                (0x10_0000_0000_0000 + f) * pow2((e - 1075) as nat) > bound
            }
        }),
{
    let e = (bits / 0x10_0000_0000_0000) as int;
    let f = (bits % 0x10_0000_0000_0000) as int;
    let s = 0x10_0000_0000_0000 + f;
    assert(exponent(bits) == e && e < 0x7FF);
    assert(fraction(bits) == f);
    if 0 < e < 1075 {
        let low = pow2((e - 1) as nat);
        let high = pow2((1075 - e) as nat);
        lemma_pow2_adds((e - 1) as nat, (1075 - e) as nat);
        lemma_pow2_pos((e - 1) as nat);
        assert(pow2(1074) == low * high);
        assert(magnitude(bits) == s * low);
        assert(s * low > bound * (low * high) <==> s > bound * high) by (nonlinear_arith)
            requires
                low > 0,
        ;
    } else if e >= 1075 {
        let low = pow2(1074);
        let high = pow2((e - 1075) as nat);
        lemma_pow2_adds(1074, (e - 1075) as nat);
        lemma_pow2_pos(1074);
        assert(pow2((e - 1) as nat) == low * high);
        assert(magnitude(bits) == s * (low * high));
        assert(s * (low * high) > bound * low <==> s * high > bound) by (nonlinear_arith)
            requires
                low > 0,
        ;
    }
}

/// An amount means the pattern and the text that it holds.
pub proof fn law_amounts_are_their_parts(amount: Amount)
    ensures
        amount@.bits == amount.bits,
        amount@.text == amount.text@,
{
}

/// An amount of money.
#[derive(Debug)]
pub struct Amount {
    /// The bit pattern of the double.
    pub bits: u64,
    /// The decimal rendering of the double.
    pub text: String,
}

/// An amount as mathematics.
pub struct AmountView {
    pub bits: u64,
    pub text: Seq<char>,
}

impl View for Amount {
    type V = AmountView;

    open spec fn view(&self) -> AmountView {
        AmountView { bits: self.bits, text: self.text@ }
    }
}

impl Amount {
    /// Whether the amount is a number above [`LARGE_AMOUNT_THRESHOLD`].
    /// Infinity is; what is not a number is not.
    pub fn is_large(&self) -> (large: bool)
        ensures
            large == more_than(self@.bits, LARGE_AMOUNT_THRESHOLD as nat),
            large == more_than(self.bits, 10_000),
            large == (0x40C3_8800_0000_0000 < self.bits <= 0x7FF0_0000_0000_0000),
    {
        proof {
            law_large_amounts_by_pattern(self.bits);
        }
        LARGE_AMOUNT_BITS < self.bits && self.bits <= INFINITY_BITS
    }
}

impl Clone for Amount {
    fn clone(&self) -> (copy: Amount)
        ensures
            copy == *self,
            copy@ == self@,
    {
        Amount { bits: self.bits, text: self.text.clone() }
    }
}

} // verus!
