//! Exact decimal amounts.

use bigdecimal::num_bigint::BigInt;
use bigdecimal::BigDecimal;
use bigdecimal::Zero;
use vstd::prelude::*;
use vstd::string::StringExecFns;

verus! {

/// Ten to the power `n`.
pub open spec fn pow10(n: nat) -> nat
    decreases n,
{
    if n == 0 {
        1
    } else {
        10 * pow10((n - 1) as nat)
    }
}

/// A non-negative decimal amount: `unscaled` divided by ten to the power
/// `scale`. A negative scale multiplies instead. Two amounts are equal, by
/// `==`, where they are the same number.
#[derive(Clone, Copy, Debug)]
pub struct Decimal {
    pub unscaled: u128,
    pub scale: i64,
}

/// Whether two amounts denote the same number, whatever their scales.
pub open spec fn same_amount(a: Decimal, b: Decimal) -> bool {
    if a.scale >= b.scale {
        a.unscaled == b.unscaled * pow10((a.scale - b.scale) as nat)
    } else {
        b.unscaled == a.unscaled * pow10((b.scale - a.scale) as nat)
    }
}

/// Calls `Zero::is_zero` of `bigdecimal::BigDecimal` on the amount. The
/// contract claims that it answers whether the unscaled digits are zero.
#[verifier::external_body]
fn amount_is_zero(amount: &Decimal) -> (zero: bool)
    ensures
        zero == (amount.unscaled == 0),
{
    BigDecimal::new(BigInt::from(amount.unscaled), amount.scale).is_zero()
}

impl Decimal {
    /// The amount `unscaled / 10^scale`.
    pub fn new(unscaled: u128, scale: i64) -> (amount: Decimal)
        ensures
            amount.unscaled == unscaled,
            amount.scale == scale,
    {
        Decimal { unscaled, scale }
    }

    /// The amount with the given digits, where they are not negative: no
    /// amount is below zero.
    pub fn from_signed(digits: i128, scale: i64) -> (amount: Option<Decimal>)
        ensures
            amount == if digits >= 0 {
                Some(Decimal { unscaled: digits as u128, scale })
            } else {
                None
            },
    {
        if digits >= 0 {
            Some(Decimal { unscaled: digits as u128, scale })
        } else {
            None
        }
    }

    /// Whether the amount is zero.
    pub fn is_zero(&self) -> (zero: bool)
        ensures
            zero == (self.unscaled == 0),
    {
        amount_is_zero(self)
    }
}

/// Whether `hi` is `lo` times ten to the power `gap`. The power is built
/// up by tens; once it no longer fits, it is beyond any `hi`.
fn is_scaled(hi: u128, lo: u128, gap: i128) -> (scaled: bool)
    requires
        gap >= 0,
    ensures
        scaled == (hi == lo * pow10(gap as nat)),
{
    if lo == 0 {
        assert(0 * pow10(gap as nat) == 0) by (nonlinear_arith);
        return hi == 0;
    }
    let mut power: u128 = 1;
    let mut done: i128 = 0;
    while done < gap
        invariant
            lo >= 1,
            0 <= done <= gap,
            power == pow10(done as nat),
        decreases gap - done,
    {
        match power.checked_mul(10) {
            Some(next) => {
                power = next;
                done = done + 1;
            },
            None => {
                proof {
                    let beyond = pow10((done + 1) as nat) as int;
                    let whole = pow10(gap as nat) as int;
                    let factor = lo as int;
                    lemma_pow10_grows((done + 1) as nat, gap as nat);
                    assert(factor * whole >= whole) by (nonlinear_arith)
                        requires
                            factor >= 1,
                            whole >= 0,
                    ;
                }
                return false;
            },
        }
    }
    proof {
        let p = power as int;
        let x = hi as int;
        let y = lo as int;
        lemma_pow10_is_positive(gap as nat);
        vstd::arithmetic::div_mod::lemma_fundamental_div_mod(x, p);
        if x == y * p {
            vstd::arithmetic::div_mod::lemma_div_multiples_vanish(y, p);
            vstd::arithmetic::div_mod::lemma_mod_multiples_basic(y, p);
            assert(p * y == y * p) by (nonlinear_arith);
        }
        if x % p == 0 && x / p == y {
            assert(p * y == y * p) by (nonlinear_arith);
        }
    }
    hi % power == 0 && hi / power == lo
}

impl PartialEq for Decimal {
    /// Numeric equality: `10.0` equals `10.00`. The digits of the amount
    /// with the larger scale are held against the other's digits times the
    /// power of ten that lies between the two scales.
    fn eq(&self, other: &Decimal) -> (equal: bool) {
        if self.scale >= other.scale {
            is_scaled(self.unscaled, other.unscaled, self.scale as i128 - other.scale as i128)
        } else {
            is_scaled(other.unscaled, self.unscaled, other.scale as i128 - self.scale as i128)
        }
    }
}

impl vstd::std_specs::cmp::PartialEqSpecImpl for Decimal {
    open spec fn obeys_eq_spec() -> bool {
        true
    }

    open spec fn eq_spec(&self, other: &Decimal) -> bool {
        same_amount(*self, *other)
    }
}

/// A power of ten is at least one.
pub proof fn lemma_pow10_is_positive(n: nat)
    ensures
        pow10(n) >= 1,
    decreases n,
{
    if n > 0 {
        lemma_pow10_is_positive((n - 1) as nat);
    }
}

/// A larger exponent gives a power of ten that is no smaller.
pub proof fn lemma_pow10_grows(m: nat, n: nat)
    requires
        m <= n,
    ensures
        pow10(m) <= pow10(n),
    decreases n - m,
{
    if m < n {
        lemma_pow10_grows(m, (n - 1) as nat);
    }
}

/// Ten to a sum is the product of the powers.
pub proof fn lemma_pow10_adds(m: nat, n: nat)
    ensures
        pow10(m + n) == pow10(m) * pow10(n),
    decreases m,
{
    if m > 0 {
        lemma_pow10_adds((m - 1) as nat, n);
        assert(pow10(m + n) == 10 * pow10((m - 1 + n) as nat));
        assert(10 * (pow10((m - 1) as nat) * pow10(n)) == (10 * pow10((m - 1) as nat)) * pow10(n))
            by (nonlinear_arith);
    } else {
        assert(pow10(0) * pow10(n) == pow10(n)) by (nonlinear_arith)
            requires
                pow10(0) == 1,
        ;
    }
}

/// Two amounts are the same number exactly when their digits agree once
/// both are written at one scale `common` that is no smaller than either of
/// theirs.
pub proof fn lemma_same_amount_at_common_scale(a: Decimal, b: Decimal, common: int)
    requires
        common >= a.scale,
        common >= b.scale,
    ensures
        same_amount(a, b) <==> a.unscaled * pow10((common - a.scale) as nat) == b.unscaled * pow10(
            (common - b.scale) as nat,
        ),
{
    let (hi, lo) = if a.scale >= b.scale {
        (a, b)
    } else {
        (b, a)
    };
    let gap = (hi.scale - lo.scale) as nat;
    let rest = (common - hi.scale) as nat;
    let p = pow10(rest) as int;
    let q = pow10(gap) as int;
    lemma_pow10_is_positive(rest);
    lemma_pow10_adds(gap, rest);
    assert((common - lo.scale) as nat == gap + rest);
    let x = hi.unscaled as int;
    let y = lo.unscaled as int;
    assert(y * (q * p) == (y * q) * p) by (nonlinear_arith);
    assert(x == y * q <==> x * p == (y * q) * p) by (nonlinear_arith)
        requires
            p >= 1,
    ;
}

/// Every amount is the same number as itself.
pub proof fn lemma_same_amount_is_reflexive(a: Decimal)
    ensures
        same_amount(a, a),
{
    assert(a.unscaled * pow10(0) == a.unscaled) by (nonlinear_arith)
        requires
            pow10(0) == 1,
    ;
}

/// Being the same number does not depend on the order of the two amounts.
pub proof fn lemma_same_amount_is_symmetric(a: Decimal, b: Decimal)
    ensures
        same_amount(a, b) == same_amount(b, a),
{
    if a.scale == b.scale {
        assert(a.unscaled * pow10(0) == a.unscaled) by (nonlinear_arith)
            requires
                pow10(0) == 1,
        ;
        assert(b.unscaled * pow10(0) == b.unscaled) by (nonlinear_arith)
            requires
                pow10(0) == 1,
        ;
    }
}

/// Two amounts that are each the same number as a third are the same
/// number.
pub proof fn lemma_same_amount_is_transitive(a: Decimal, b: Decimal, c: Decimal)
    requires
        same_amount(a, b),
        same_amount(b, c),
    ensures
        same_amount(a, c),
{
    let ab = if a.scale >= b.scale {
        a.scale
    } else {
        b.scale
    };
    let common = if ab >= c.scale {
        ab as int
    } else {
        c.scale as int
    };
    lemma_same_amount_at_common_scale(a, b, common);
    lemma_same_amount_at_common_scale(b, c, common);
    lemma_same_amount_at_common_scale(a, c, common);
}

/// An amount is zero exactly when it is the same number as the zero of
/// scale zero.
pub proof fn lemma_zero_is_the_same_amount_at_every_scale(a: Decimal)
    ensures
        a.unscaled == 0 <==> same_amount(a, Decimal { unscaled: 0, scale: 0 }),
{
    let zero = Decimal { unscaled: 0, scale: 0 };
    if a.scale >= 0 {
        assert(0 * pow10((a.scale - 0) as nat) == 0) by (nonlinear_arith);
    } else {
        let p = pow10((0 - a.scale) as nat) as int;
        let x = a.unscaled as int;
        lemma_pow10_is_positive((0 - a.scale) as nat);
        assert(x == 0 <==> 0 == x * p) by (nonlinear_arith)
            requires
                p >= 1,
                x >= 0,
        ;
    }
}

/// The character that writes the digit `digit`, which is below ten.
pub open spec fn digit_char(digit: nat) -> char {
    if digit == 0 {
        '0'
    } else if digit == 1 {
        '1'
    } else if digit == 2 {
        '2'
    } else if digit == 3 {
        '3'
    } else if digit == 4 {
        '4'
    } else if digit == 5 {
        '5'
    } else if digit == 6 {
        '6'
    } else if digit == 7 {
        '7'
    } else if digit == 8 {
        '8'
    } else {
        '9'
    }
}

/// The decimal numeral of `n`: no sign, no leading zero but for zero itself.
pub open spec fn decimal_numeral(n: nat) -> Seq<char>
    decreases n,
{
    if n < 10 {
        seq![digit_char(n)]
    } else {
        decimal_numeral(n / 10).push(digit_char(n % 10))
    }
}

/// The one-character text of a digit.
fn digit_text(digit: u32) -> (text: &'static str)
    requires
        digit < 10,
    ensures
        text@ == seq![digit_char(digit as nat)],
{
    proof {
        reveal_strlit("0");
        reveal_strlit("1");
        reveal_strlit("2");
        reveal_strlit("3");
        reveal_strlit("4");
        reveal_strlit("5");
        reveal_strlit("6");
        reveal_strlit("7");
        reveal_strlit("8");
        reveal_strlit("9");
    }
    let text = if digit == 0 {
        "0"
    } else if digit == 1 {
        "1"
    } else if digit == 2 {
        "2"
    } else if digit == 3 {
        "3"
    } else if digit == 4 {
        "4"
    } else if digit == 5 {
        "5"
    } else if digit == 6 {
        "6"
    } else if digit == 7 {
        "7"
    } else if digit == 8 {
        "8"
    } else {
        "9"
    };
    assert(text@ =~= seq![digit_char(digit as nat)]);
    text
}

/// Writes `n` as a decimal numeral.
pub fn decimal_text(n: u32) -> (text: String)
    ensures
        text@ == decimal_numeral(n as nat),
    decreases n,
{
    if n < 10 {
        String::from_str(digit_text(n))
    } else {
        let mut text = decimal_text(n / 10);
        text.append(digit_text(n % 10));
        assert(text@ =~= decimal_numeral(n as nat));
        text
    }
}

} // verus!
