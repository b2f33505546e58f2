//! Monetary amounts: the decimal numbers that journal lines carry, held as a
//! signed 96-bit mantissa and a decimal scale, and their addition.

use rust_decimal::Decimal;
use vstd::prelude::*;

verus! {

/// The largest mantissa magnitude a decimal amount can hold: 2^96 - 1.
pub const MAX_MANTISSA: i128 = 0xFFFF_FFFF_FFFF_FFFF_FFFF_FFFF;

/// The largest number of digits after the decimal point.
pub const MAX_SCALE: u32 = 28;

/// A decimal amount worth `mantissa / 10^scale`, with a mantissa of at most
/// 96 bits and at most 28 digits after the decimal point.
#[derive(Clone, Copy, Debug)]
pub struct Amount {
    mantissa: i128,
    scale: u32,
}

/// What `rust_decimal` computes for the sum of the decimal with digits
/// `a_mantissa` and scale `a_scale` and the decimal with digits `b_mantissa` and
/// scale `b_scale`: the digits and scale of the sum, or nothing where the sum
/// overflows.
pub uninterp spec fn decimal_sum(a_mantissa: i128, a_scale: u32, b_mantissa: i128, b_scale: u32) -> Option<(i128, u32)>;

/// Ten to the power `n`.
pub open spec fn pow10(n: nat) -> nat
    decreases n,
{
    if n == 0 {
        1
    } else {
        10 * pow10((n - 1) as nat)
    }
}

/// A power of ten is at least one, and grows with its exponent.
pub proof fn lemma_pow10_monotone(a: nat, b: nat)
    requires
        a <= b,
    ensures
        1 <= pow10(a) <= pow10(b),
    decreases b,
{
    if b > 0 {
        if a < b {
            lemma_pow10_monotone(a, (b - 1) as nat);
        } else {
            lemma_pow10_monotone((a - 1) as nat, (b - 1) as nat);
        }
    }
}

/// The larger of two scales.
pub open spec fn wider_scale(a: u32, b: u32) -> u32 {
    if a >= b {
        a
    } else {
        b
    }
}

impl Amount {
    /// The exact value of the amount in units of 10^-28, the finest a decimal
    /// amount can express: its digits shifted to scale 28.
    pub open spec fn exact_value(self) -> int {
        self.mantissa_of() * pow10((MAX_SCALE - self.scale_of()) as nat)
    }

    /// The digits of the amount, with its sign.
    pub closed spec fn mantissa_of(self) -> i128 {
        self.mantissa
    }

    /// The number of digits after the decimal point.
    pub closed spec fn scale_of(self) -> u32 {
        self.scale
    }

    /// The amount with the given digits and scale.
    pub closed spec fn with_parts(mantissa: i128, scale: u32) -> Amount {
        Amount { mantissa, scale }
    }

    /// Whether the digits and scale are within the bounds of a decimal amount.
    pub open spec fn parts_in_range(mantissa: int, scale: int) -> bool {
        &&& -MAX_MANTISSA <= mantissa <= MAX_MANTISSA
        &&& 0 <= scale <= MAX_SCALE
    }

    #[verifier::type_invariant]
    spec fn well_formed(self) -> bool {
        Amount::parts_in_range(self.mantissa as int, self.scale as int)
    }

    /// Building an amount from parts and reading the parts back gives them again,
    /// and an amount is determined by its parts.
    pub proof fn lemma_parts(mantissa: i128, scale: u32)
        ensures
            Amount::with_parts(mantissa, scale).mantissa_of() == mantissa,
            Amount::with_parts(mantissa, scale).scale_of() == scale,
            forall|a: Amount| a.mantissa_of() == mantissa && a.scale_of() == scale
                ==> a == Amount::with_parts(mantissa, scale),
    {
    }

    /// The amount is zero, whatever its scale.
    pub open spec fn spec_is_zero(self) -> bool {
        self.mantissa_of() == 0
    }

    /// The amount zero, with no digits after the decimal point.
    pub open spec fn spec_zero() -> Amount {
        Amount::with_parts(0, 0)
    }

    /// The sum of two amounts as decimal addition computes it.
    pub open spec fn spec_add(self, other: Amount) -> Option<Amount> {
        match decimal_sum(self.mantissa_of(), self.scale_of(), other.mantissa_of(), other.scale_of()) {
            Some(parts) => Some(Amount::with_parts(parts.0, parts.1)),
            None => None,
        }
    }

    /// The amount with the given digits and scale, or `None` when they are out of
    /// range: a mantissa of more than 96 bits or a scale above 28.
    pub fn from_parts(mantissa: i128, scale: u32) -> (r: Option<Amount>)
        ensures
            r is Some <==> Amount::parts_in_range(mantissa as int, scale as int),
            r is Some <==> -0xFFFF_FFFF_FFFF_FFFF_FFFF_FFFF <= mantissa <= 0xFFFF_FFFF_FFFF_FFFF_FFFF_FFFF && scale <= 28,
            r matches Some(a) ==> a == Amount::with_parts(mantissa, scale) && a.mantissa_of() == mantissa
                && a.scale_of() == scale,
    {
        if -MAX_MANTISSA <= mantissa && mantissa <= MAX_MANTISSA && scale <= MAX_SCALE {
            Some(Amount { mantissa, scale })
        } else {
            None
        }
    }

    /// Zero.
    pub fn zero() -> (r: Amount)
        ensures
            r == Amount::spec_zero(),
            r.mantissa_of() == 0,
            r.scale_of() == 0,
    {
        Amount { mantissa: 0, scale: 0 }
    }

    /// The digits of the amount, with its sign.
    pub fn mantissa(&self) -> (r: i128)
        ensures
            r == self.mantissa_of(),
            -MAX_MANTISSA <= r <= MAX_MANTISSA,
    {
        proof {
            use_type_invariant(self);
        }
        self.mantissa
    }

    /// The number of digits after the decimal point.
    pub fn scale(&self) -> (r: u32)
        ensures
            r == self.scale_of(),
            r <= MAX_SCALE,
    {
        proof {
            use_type_invariant(self);
        }
        self.scale
    }

    /// Whether the amount is zero, whatever its scale.
    pub fn is_zero(&self) -> (r: bool)
        ensures
            r == self.spec_is_zero(),
            r == (self.mantissa_of() == 0),
    {
        self.mantissa == 0
    }

    /// The sum of two amounts, or `None` when it overflows. Adding to zero gives
    /// the other amount back; amounts of one scale whose digits sum within 96
    /// bits add exactly at that scale; and amounts of any scales whose sum, taken
    /// at the wider of their scales, has digits within 96 bits add exactly, at a
    /// scale no wider.
    pub fn checked_add(&self, other: &Amount) -> (r: Option<Amount>)
        ensures
            r == self.spec_add(*other),
            self.mantissa_of() == 0 ==> r == Some(*other),
            self.scale_of() == other.scale_of() && -MAX_MANTISSA <= self.mantissa_of() + other.mantissa_of() <= MAX_MANTISSA
                ==> r == Some(Amount::with_parts((self.mantissa_of() + other.mantissa_of()) as i128, self.scale_of())),
            exact_sum_fits(*self, *other) ==> (r matches Some(t) && t.scale_of() <= wider_scale(self.scale_of(), other.scale_of())
                && t.exact_value() == self.exact_value() + other.exact_value()),
    {
        let r = decimal_checked_add(self, other);
        proof {
            match r {
                Some(s) => {
                    Amount::lemma_parts(s.mantissa_of(), s.scale_of());
                },
                None => {},
            }
        }
        r
    }
}

/// The exact sum of two amounts, aligned to the wider of their scales, has
/// digits within 96 bits.
pub open spec fn exact_sum_fits(a: Amount, b: Amount) -> bool {
    let bound = MAX_MANTISSA * pow10((MAX_SCALE - wider_scale(a.scale_of(), b.scale_of())) as nat);
    -bound <= a.exact_value() + b.exact_value() <= bound
}

/// Calls `Decimal::checked_add` of `rust_decimal` on the decimals with the
/// parts of `a` and `b`, and hands back the parts of the sum. The result is
/// named by `decimal_sum`. Beside it stand facts that the crate's addition
/// shows in its source: adding zero gives the other operand back unchanged;
/// operands of equal scale whose digit sum stays within 96 bits give that
/// sum at that scale; operands of scale 0 whose digit sum leaves 96 bits
/// overflow; and operands of any scales whose sum, with both aligned to the
/// wider scale, has digits within 96 bits give exactly that sum, at the wider
/// scale (or, where one operand is zero, at the other's scale). What the
/// addition rounds to when the aligned sum leaves 96 bits is left unstated.
#[verifier::external_body]
fn decimal_checked_add(a: &Amount, b: &Amount) -> (r: Option<Amount>)
    ensures
        match r {
            Some(s) => decimal_sum(a.mantissa_of(), a.scale_of(), b.mantissa_of(), b.scale_of())
                == Some((s.mantissa_of(), s.scale_of())),
            None => decimal_sum(a.mantissa_of(), a.scale_of(), b.mantissa_of(), b.scale_of()) is None,
        },
        a.mantissa_of() == 0 ==> r == Some(*b),
        a.mantissa_of() != 0 && b.mantissa_of() == 0 ==> r == Some(*a),
        a.scale_of() == b.scale_of() && -MAX_MANTISSA <= a.mantissa_of() + b.mantissa_of() <= MAX_MANTISSA
            ==> r == Some(Amount::with_parts((a.mantissa_of() + b.mantissa_of()) as i128, a.scale_of())),
        a.scale_of() == 0 && b.scale_of() == 0 && !(-MAX_MANTISSA <= a.mantissa_of() + b.mantissa_of() <= MAX_MANTISSA)
            ==> r is None,
        exact_sum_fits(*a, *b) ==> r is Some && r.unwrap().scale_of() <= wider_scale(a.scale_of(), b.scale_of())
            && r.unwrap().exact_value() == a.exact_value() + b.exact_value(),
{
    let x = Decimal::from_i128_with_scale(a.mantissa, a.scale);
    let y = Decimal::from_i128_with_scale(b.mantissa, b.scale);
    match x.checked_add(y) {
        Some(sum) => Some(Amount { mantissa: sum.mantissa(), scale: sum.scale() }),
        None => None,
    }
}

/// The running total of a sequence of amounts, summed from zero in order, as
/// decimal addition computes it; `None` once a partial sum overflows.
pub open spec fn running_total(amounts: Seq<Amount>) -> Option<Amount>
    decreases amounts.len(),
{
    if amounts.len() == 0 {
        Some(Amount::spec_zero())
    } else {
        match running_total(amounts.drop_last()) {
            Some(total) => total.spec_add(amounts.last()),
            None => None,
        }
    }
}

/// The exact sum of a sequence of amounts, in units of 10^-28.
pub open spec fn value_sum(amounts: Seq<Amount>) -> int
    decreases amounts.len(),
{
    if amounts.len() == 0 {
        0
    } else {
        value_sum(amounts.drop_last()) + amounts.last().exact_value()
    }
}

/// Taking one amount out of a sequence takes its value out of the sum.
pub proof fn lemma_value_sum_remove(amounts: Seq<Amount>, j: int)
    requires
        0 <= j < amounts.len(),
    ensures
        value_sum(amounts) == value_sum(amounts.remove(j)) + amounts[j].exact_value(),
    decreases amounts.len(),
{
    if j == amounts.len() - 1 {
        assert(amounts.remove(j) =~= amounts.drop_last());
    } else {
        let rest = amounts.drop_last();
        lemma_value_sum_remove(rest, j);
        assert(amounts.remove(j).drop_last() =~= rest.remove(j));
        assert(amounts.remove(j).last() == amounts.last());
    }
}

/// The exact sum does not depend on the order of the amounts: sequences holding
/// the same amounts, each as often, have the same sum.
pub proof fn lemma_value_sum_reordered(a: Seq<Amount>, b: Seq<Amount>)
    requires
        a.to_multiset() == b.to_multiset(),
    ensures
        value_sum(a) == value_sum(b),
    decreases a.len(),
{
    broadcast use vstd::seq_lib::group_to_multiset_ensures, vstd::multiset::group_multiset_axioms;

    if a.len() == 0 {
        assert(a.to_multiset().len() == 0);
        assert(b.to_multiset().len() == b.len());
        assert(b =~= Seq::<Amount>::empty());
    } else {
        let x = a.last();
        let rest = a.drop_last();
        assert(rest.push(x) =~= a);
        assert(a.to_multiset() == rest.to_multiset().insert(x));
        assert(b.to_multiset().count(x) > 0);
        assert(b.contains(x));
        let j = choose|j: int| 0 <= j < b.len() && b[j] == x;
        assert(b.remove(j).to_multiset() == b.to_multiset().remove(x));
        assert(rest.to_multiset().insert(x).remove(x) =~= rest.to_multiset());
        lemma_value_sum_reordered(rest, b.remove(j));
        lemma_value_sum_remove(b, j);
    }
}

/// Every amount has a scale of at most `scale`, and every partial sum, taken at
/// that scale, has digits within 96 bits: summed from zero in order, each
/// partial total is exactly representable as a decimal.
pub open spec fn sums_fit_at_scale(amounts: Seq<Amount>, scale: u32) -> bool {
    &&& scale <= MAX_SCALE
    &&& forall|i: int| 0 <= i < amounts.len() ==> (#[trigger] amounts[i]).scale_of() <= scale
    &&& forall|k: int| 0 < k <= amounts.len() ==> -MAX_MANTISSA * pow10((MAX_SCALE - scale) as nat)
        <= #[trigger] value_sum(amounts.take(k)) <= MAX_MANTISSA * pow10((MAX_SCALE - scale) as nat)
}

} // verus!
