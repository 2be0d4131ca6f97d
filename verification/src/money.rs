//! Exact money amounts: decimals and integer milliunits.
use vstd::prelude::*;

verus! {

/// Ten to the power `n`.
pub open spec fn pow10(n: nat) -> int
    decreases n,
{
    if n == 0 {
        1
    } else {
        10 * pow10((n - 1) as nat)
    }
}

/// The largest magnitude a decimal mantissa can have: 2^96 - 1.
pub open spec fn max_mantissa() -> int {
    0xFFFF_FFFF_FFFF_FFFF_FFFF_FFFFint
}

/// The milliunit count of `mantissa / 10^scale`, when that value times 1000 is an
/// integer that fits in an `i64`; otherwise no count.
pub open spec fn exact_milliunits(mantissa: int, scale: nat) -> Option<int> {
    let scaled = mantissa * 1000;
    if scaled % pow10(scale) == 0 && i64::MIN <= scaled / pow10(scale) <= i64::MAX {
        Some(scaled / pow10(scale))
    } else {
        None
    }
}

pub proof fn lemma_pow10_positive(n: nat)
    ensures
        pow10(n) >= 1,
    decreases n,
{
    if n > 0 {
        lemma_pow10_positive((n - 1) as nat);
    }
}

pub proof fn lemma_pow10_add(a: nat, b: nat)
    ensures
        pow10(a + b) == pow10(a) * pow10(b),
    decreases b,
{
    if b > 0 {
        lemma_pow10_add(a, (b - 1) as nat);
        assert(pow10(a + b) == 10 * pow10((a + b - 1) as nat));
        let x = pow10(a);
        let y = pow10((b - 1) as nat);
        assert(10 * (x * y) == x * (10 * y)) by (nonlinear_arith);
    }
}

pub proof fn lemma_pow10_monotone(a: nat, b: nat)
    requires
        a <= b,
    ensures
        pow10(a) <= pow10(b),
    decreases b,
{
    if a < b {
        lemma_pow10_monotone(a, (b - 1) as nat);
        lemma_pow10_positive((b - 1) as nat);
    }
}

/// A decimal number `mantissa / 10^scale`, as rust_decimal represents one.
#[derive(Clone, Copy, Debug, PartialEq, Eq)]
pub struct Decimal {
    mantissa: i128,
    scale: u32,
}

impl Decimal {
    #[verifier::type_invariant]
    spec fn well_formed(self) -> bool {
        &&& -max_mantissa() <= self.mantissa <= max_mantissa()
        &&& self.scale <= 28
    }

    pub closed spec fn mantissa_spec(self) -> int {
        self.mantissa as int
    }

    pub closed spec fn scale_spec(self) -> nat {
        self.scale as nat
    }

    /// The decimal `num / 10^scale`.
    pub fn new(num: i64, scale: u32) -> (result: Decimal)
        requires
            scale <= 28,
        ensures
            result.mantissa_spec() == num,
            result.scale_spec() == scale,
    {
        Decimal { mantissa: num as i128, scale }
    }

    pub fn mantissa(&self) -> (result: i128)
        ensures
            result == self.mantissa_spec(),
            -max_mantissa() <= result <= max_mantissa(),
    {
        proof {
            use_type_invariant(self);
        }
        self.mantissa
    }

    pub fn scale(&self) -> (result: u32)
        ensures
            result == self.scale_spec(),
            result <= 28,
    {
        proof {
            use_type_invariant(self);
        }
        self.scale
    }

    /// Reads a decimal number as `rust_decimal` does.
    pub fn parse(text: &str) -> (result: Option<Decimal>)
        ensures
            match result {
                Some(d) => parsed_decimal(text@) == Some((d.mantissa_spec(), d.scale_spec() as int)),
                None => parsed_decimal(text@) is None,
            },
    {
        parse_decimal(text)
    }

    /// Rebuilds a decimal from its parts; `None` where they are out of range.
    pub fn from_parts(mantissa: i128, scale: u32) -> (result: Option<Decimal>)
        ensures
            match result {
                Some(d) => d.mantissa_spec() == mantissa && d.scale_spec() == scale,
                None => !(-max_mantissa() <= mantissa <= max_mantissa() && scale <= 28),
            },
    {
        if -0xFFFF_FFFF_FFFF_FFFF_FFFF_FFFFi128 <= mantissa && mantissa
            <= 0xFFFF_FFFF_FFFF_FFFF_FFFF_FFFFi128 && scale <= 28 {
            Some(Decimal { mantissa, scale })
        } else {
            None
        }
    }
}

/// What `rust_decimal::Decimal::from_str` makes of a text: its mantissa and scale, or
/// nothing where the text is refused.
pub uninterp spec fn parsed_decimal(text: Seq<char>) -> Option<(int, int)>;

/// Calls `rust_decimal::Decimal::from_str` (which also reads scientific notation and
/// rounds digits beyond the 28th decimal place). Trusted: the result is the value named
/// by `parsed_decimal`, read back through `mantissa()` and `scale()`; that it lies within
/// the 96-bit mantissa and the scale bound of 28 is the crate's representation.
#[verifier::external_body]
pub(crate) fn parse_decimal(text: &str) -> (result: Option<Decimal>)
    ensures
        match result {
            Some(d) => parsed_decimal(text@) == Some((d.mantissa_spec(), d.scale_spec() as int)),
            None => parsed_decimal(text@) is None,
        },
{
    match <rust_decimal::Decimal as std::str::FromStr>::from_str(text) {
        Ok(value) => Some(Decimal { mantissa: value.mantissa(), scale: value.scale() }),
        Err(_) => None,
    }
}

proof fn lemma_pow10_25()
    ensures
        pow10(25) == 10_000_000_000_000_000_000_000_000int,
{
    reveal_with_fuel(pow10, 26);
}

/// Ten to the power `n`, for `n` up to 25.
fn pow10_u128(n: u32) -> (result: u128)
    requires
        n <= 25,
    ensures
        result == pow10(n as nat),
{
    proof {
        lemma_pow10_25();
    }
    let mut result: u128 = 1;
    let mut i: u32 = 0;
    while i < n
        invariant
            i <= n <= 25,
            result == pow10(i as nat),
        decreases n - i,
    {
        proof {
            lemma_pow10_monotone((i + 1) as nat, 25);
            lemma_pow10_25();
        }
        result = result * 10;
        i = i + 1;
    }
    result
}

/// An API amount in thousandths of a currency unit.
#[derive(Clone, Copy, Debug, Default, PartialEq, Eq, PartialOrd, Ord, Hash, Structural)]
pub struct Milliunits(pub i64);

/// The knowledge counter that delta requests are relative to.
#[derive(Clone, Copy, Debug, Default, PartialEq, Eq, PartialOrd, Ord, Hash, Structural)]
pub struct ServerKnowledge(pub u64);

/// `-v` as a signed milliunit count, when it fits.
fn signed_milliunits(v: u128, negative: bool) -> (result: Option<Milliunits>)
    ensures
        match result {
            Some(x) => x.0 == (if negative { -v } else { v as int }),
            None => !(i64::MIN <= (if negative { -v } else { v as int }) <= i64::MAX),
        },
{
    if negative {
        if v <= 0x8000_0000_0000_0000u128 {
            let w: i128 = -(v as i128);
            Some(Milliunits(w as i64))
        } else {
            None
        }
    } else if v <= 0x7FFF_FFFF_FFFF_FFFFu128 {
        Some(Milliunits(v as i64))
    } else {
        None
    }
}

proof fn lemma_small_scale(m: int, s: nat)
    requires
        s <= 3,
    ensures
        (m * 1000) % pow10(s) == 0,
        (m * 1000) / pow10(s) == m * pow10((3 - s) as nat),
{
    lemma_pow10_add((3 - s) as nat, s);
    reveal_with_fuel(pow10, 4);
    assert(pow10(3) == 1000);
    lemma_pow10_positive(s);
    let p = pow10((3 - s) as nat);
    let q = pow10(s);
    assert(m * 1000 == (m * p) * q) by (nonlinear_arith)
        requires
            1000 == p * q,
    ;
    vstd::arithmetic::div_mod::lemma_fundamental_div_mod_converse(m * 1000, q, m * p, 0);
}

proof fn lemma_large_scale(m: int, a: int, s: nat, p: int, qa: int, ra: int)
    requires
        s > 3,
        p == pow10((s - 3) as nat),
        a == m || a == -m,
        a >= 0,
        a == qa * p + ra,
        0 <= ra < p,
    ensures
        ra == 0 ==> (m * 1000) % pow10(s) == 0 && (m * 1000) / pow10(s) == (if m == a {
            qa
        } else {
            -qa
        }),
        ra != 0 ==> (m * 1000) % pow10(s) != 0,
{
    lemma_pow10_add((s - 3) as nat, 3);
    reveal_with_fuel(pow10, 4);
    assert(pow10(3) == 1000);
    lemma_pow10_positive((s - 3) as nat);
    let big = pow10(s);
    assert(big == p * 1000);
    if m == a {
        assert(m * 1000 == qa * big + ra * 1000 && 0 <= ra * 1000 < big) by (nonlinear_arith)
            requires
                m == qa * p + ra,
                0 <= ra < p,
                big == p * 1000,
        ;
        vstd::arithmetic::div_mod::lemma_fundamental_div_mod_converse(
            m * 1000,
            big,
            qa,
            ra * 1000,
        );
    } else if ra == 0 {
        assert(m * 1000 == (-qa) * big + 0) by (nonlinear_arith)
            requires
                m == -(qa * p),
                big == p * 1000,
        ;
        vstd::arithmetic::div_mod::lemma_fundamental_div_mod_converse(m * 1000, big, -qa, 0);
    } else {
        assert(m * 1000 == (-qa - 1) * big + (p - ra) * 1000 && 0 < (p - ra) * 1000 < big)
            by (nonlinear_arith)
            requires
                m == -(qa * p + ra),
                0 < ra < p,
                big == p * 1000,
        ;
        vstd::arithmetic::div_mod::lemma_fundamental_div_mod_converse(
            m * 1000,
            big,
            -qa - 1,
            (p - ra) * 1000,
        );
    }
}

impl Milliunits {
    /// The decimal's value in milliunits, exactly: `None` where it has more than three
    /// significant fractional digits or does not fit in an `i64`.
    pub fn from_decimal(decimal: Decimal) -> (result: Option<Milliunits>)
        ensures
            match exact_milliunits(decimal.mantissa_spec(), decimal.scale_spec()) {
                Some(v) => result == Some(Milliunits(v as i64)),
                None => result is None,
            },
    {
        let m = decimal.mantissa();
        let s = decimal.scale();
        let negative = m < 0;
        let a: u128 = if negative {
            (-m) as u128
        } else {
            m as u128
        };
        if s <= 3 {
            let p = pow10_u128(3 - s);
            proof {
                lemma_small_scale(m as int, s as nat);
                lemma_pow10_monotone((3 - s) as nat, 3);
                reveal_with_fuel(pow10, 4);
                assert(a * p <= max_mantissa() * 1000) by (nonlinear_arith)
                    requires
                        0 <= a <= max_mantissa(),
                        0 < p <= 1000,
                ;
                assert(m * p == (if negative {
                    -(a * p)
                } else {
                    a * p
                })) by (nonlinear_arith)
                    requires
                        negative ==> m == -a,
                        !negative ==> m == a,
                ;
            }
            let v = a * p;
            signed_milliunits(v, negative)
        } else {
            let p = pow10_u128(s - 3);
            proof {
                lemma_pow10_positive((s - 3) as nat);
                vstd::arithmetic::div_mod::lemma_fundamental_div_mod(a as int, p as int);
                assert((a / p) * p == p * (a / p)) by (nonlinear_arith);
                lemma_large_scale(m as int, a as int, s as nat, p as int, (a / p) as int, (a % p) as int);
            }
            if a % p != 0 {
                None
            } else {
                signed_milliunits(a / p, negative)
            }
        }
    }

    /// The amount as a decimal with three fractional digits.
    pub fn to_decimal(self) -> (result: Decimal)
        ensures
            result.mantissa_spec() == self.0,
            result.scale_spec() == 3,
    {
        Decimal::new(self.0, 3)
    }
}

/// Turning milliunits into a decimal and back gives the same milliunits.
pub proof fn law_milliunits_decimal_round_trip(amount: Milliunits)
    ensures
        exact_milliunits(amount.0 as int, 3) == Some(amount.0 as int),
{
    lemma_small_scale(amount.0 as int, 3);
    reveal_with_fuel(pow10, 1);
}

} // verus!
