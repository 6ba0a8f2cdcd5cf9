use vstd::prelude::*;

verus! {

/// The largest scale an input amount may carry.
pub const MAX_INPUT_SCALE: u32 = 6;

/// The largest magnitude of an input amount's mantissa.
pub const MAX_INPUT_MANTISSA: i128 = 1_000_000_000_000_000_000;

/// Ten to the power `n`.
pub open spec fn pow10(n: nat) -> int
    decreases n,
{
    if n == 0 {
        1
    } else {
        10 * pow10((n - 1) as nat)
    }
}

pub proof fn lemma_pow10_positive(n: nat)
    ensures
        pow10(n) >= 1,
    decreases n,
{
    if n > 0 {
        lemma_pow10_positive((n - 1) as nat);
    }
}

pub proof fn lemma_pow10_monotone(a: nat, b: nat)
    requires
        a <= b,
    ensures
        pow10(a) <= pow10(b),
    decreases b,
{
    if a < b {
        lemma_pow10_monotone(a, (b - 1) as nat);
        lemma_pow10_positive((b - 1) as nat);
    }
}

pub proof fn lemma_pow10_add(a: nat, b: nat)
    ensures
        pow10(a + b) == pow10(a) * pow10(b),
    decreases b,
{
    if b > 0 {
        lemma_pow10_add(a, (b - 1) as nat);
        assert(pow10(a + b) == 10 * pow10((a + b - 1) as nat));
        assert((a + b - 1) as nat == a + (b - 1) as nat);
        assert(pow10(a) * (10 * pow10((b - 1) as nat)) == 10 * (pow10(a) * pow10((b - 1) as nat)))
            by (nonlinear_arith);
    }
}

pub proof fn lemma_pow10_30()
    ensures
        pow10(30) == 1_000_000_000_000_000_000_000_000_000_000,
{
    reveal_with_fuel(pow10, 31);
}

pub proof fn lemma_pow10_36()
    ensures
        pow10(36) == 1_000_000_000_000_000_000_000_000_000_000_000_000,
{
    reveal_with_fuel(pow10, 37);
}

/// An exact decimal number: `mantissa / 10^scale`.
#[derive(Clone, Copy, Debug, PartialEq, Eq, Structural)]
pub struct Decimal {
    pub mantissa: i128,
    pub scale: u32,
}

impl Decimal {
    /// The value as a fraction over `10^scale` is `mantissa`; two decimals are
    /// equal in value when their cross products agree.
    pub open spec fn same_value_spec(self, other: Decimal) -> bool {
        self.mantissa * pow10(other.scale as nat) == other.mantissa * pow10(self.scale as nat)
    }

    /// The decimal is strictly greater than the whole number `n`.
    pub open spec fn exceeds(self, n: int) -> bool {
        self.mantissa > n * pow10(self.scale as nat)
    }

    /// An amount that a caller may hand in: small enough that every stage's
    /// arithmetic stays within 128 bits.
    pub open spec fn is_input(self) -> bool {
        &&& -MAX_INPUT_MANTISSA <= self.mantissa <= MAX_INPUT_MANTISSA
        &&& self.scale <= MAX_INPUT_SCALE
    }

    pub open spec fn zero() -> Decimal {
        Decimal { mantissa: 0, scale: 0 }
    }

    /// The decimal `mantissa / 10^scale`.
    pub fn new(mantissa: i128, scale: u32) -> (r: Decimal)
        ensures
            r.mantissa == mantissa,
            r.scale == scale,
    {
        Decimal { mantissa, scale }
    }

    /// A whole number.
    pub fn from_int(n: i64) -> (r: Decimal)
        ensures
            r.mantissa == n,
            r.scale == 0,
    {
        Decimal { mantissa: n as i128, scale: 0 }
    }

    /// Whether the two decimals denote the same number.
    pub fn same_value(&self, other: &Decimal) -> (r: bool)
        requires
            self.scale <= 12,
            other.scale <= 12,
            -pow10(24) <= self.mantissa <= pow10(24),
            -pow10(24) <= other.mantissa <= pow10(24),
        ensures
            r == self.same_value_spec(*other),
    {
        let ps = pow10_exec(self.scale);
        let po = pow10_exec(other.scale);
        proof {
            lemma_pow10_monotone(self.scale as nat, 12);
            lemma_pow10_monotone(other.scale as nat, 12);
            lemma_pow10_positive(self.scale as nat);
            lemma_pow10_positive(other.scale as nat);
            lemma_bounded_product(self.mantissa as int, po as int);
            lemma_bounded_product(other.mantissa as int, ps as int);
        }
        self.mantissa * po == other.mantissa * ps
    }
}

proof fn lemma_bounded_product(m: int, p: int)
    requires
        -pow10(24) <= m <= pow10(24),
        1 <= p <= pow10(12),
    ensures
        -pow10(36) <= m * p <= pow10(36),
        pow10(36) < 0x7fff_ffff_ffff_ffff_ffff_ffff_ffff_ffff,
{
    lemma_pow10_add(24, 12);
    lemma_pow10_36();
    let a = pow10(24);
    let b = pow10(12);
    assert(-(a * b) <= m * p <= a * b) by (nonlinear_arith)
        requires
            -a <= m <= a,
            1 <= p <= b,
    ;
}

impl Decimal {
    /// The magnitude of the mantissa is at most `max_mantissa` and the scale at most `max_scale`.
    pub open spec fn within(self, max_mantissa: int, max_scale: int) -> bool {
        &&& -max_mantissa <= self.mantissa <= max_mantissa
        &&& self.scale <= max_scale
    }

    /// The decimal times `factor / 10^digits`, exactly.
    pub open spec fn scaled_spec(self, factor: int, digits: nat) -> Decimal {
        Decimal { mantissa: (self.mantissa * factor) as i128, scale: (self.scale + digits) as u32 }
    }

    /// The decimal plus the whole number `n`, at the same scale.
    pub open spec fn plus_whole_spec(self, n: int) -> Decimal {
        Decimal { mantissa: (self.mantissa + n * pow10(self.scale as nat)) as i128, scale: self.scale }
    }

    /// The decimal times `factor / 10^digits`, kept exact by widening the scale.
    pub fn scaled(&self, factor: i128, digits: u32) -> (r: Decimal)
        requires
            self.within(1_000_000_000_000_000_000_000, 10),
            -1000 <= factor <= 1000,
            digits <= 10,
        ensures
            r == self.scaled_spec(factor as int, digits as nat),
    {
        proof {
            let m = self.mantissa as int;
            let f = factor as int;
            assert(-1_000_000_000_000_000_000_000_000 <= m * f <= 1_000_000_000_000_000_000_000_000)
                by (nonlinear_arith)
                requires
                    -1_000_000_000_000_000_000_000 <= m <= 1_000_000_000_000_000_000_000,
                    -1000 <= f <= 1000,
            ;
        }
        Decimal { mantissa: self.mantissa * factor, scale: self.scale + digits }
    }

    /// The decimal plus the whole number `n`.
    pub fn plus_whole(&self, n: i128) -> (r: Decimal)
        requires
            self.within(1_000_000_000_000_000_000_000_000, 12),
            -1_000_000 <= n <= 1_000_000,
        ensures
            r == self.plus_whole_spec(n as int),
    {
        let p = pow10_exec(self.scale);
        proof {
            lemma_pow10_monotone(self.scale as nat, 12);
            lemma_pow10_positive(self.scale as nat);
            reveal_with_fuel(pow10, 13);
            let pi = p as int;
            let ni = n as int;
            assert(-1_000_000_000_000_000_000 <= ni * pi <= 1_000_000_000_000_000_000) by (nonlinear_arith)
                requires
                    -1_000_000 <= ni <= 1_000_000,
                    1 <= pi <= 1_000_000_000_000,
            ;
        }
        Decimal { mantissa: self.mantissa + n * p, scale: self.scale }
    }

    /// Whether the decimal is strictly greater than the whole number `n`.
    pub fn exceeds_whole(&self, n: i128) -> (r: bool)
        requires
            self.scale <= 12,
            -1_000_000 <= n <= 1_000_000,
        ensures
            r == self.exceeds(n as int),
    {
        let p = pow10_exec(self.scale);
        proof {
            lemma_pow10_monotone(self.scale as nat, 12);
            lemma_pow10_positive(self.scale as nat);
            reveal_with_fuel(pow10, 13);
            let pi = p as int;
            let ni = n as int;
            assert(-1_000_000_000_000_000_000 <= ni * pi <= 1_000_000_000_000_000_000) by (nonlinear_arith)
                requires
                    -1_000_000 <= ni <= 1_000_000,
                    1 <= pi <= 1_000_000_000_000,
            ;
        }
        self.mantissa > n * p
    }
}

/// `10^n` for the scales that stage arithmetic produces.
pub fn pow10_exec(n: u32) -> (r: i128)
    requires
        n <= 30,
    ensures
        r == pow10(n as nat),
{
    let mut r: i128 = 1;
    let mut i: u32 = 0;
    while i < n
        invariant
            i <= n <= 30,
            r == pow10(i as nat),
        decreases n - i,
    {
        proof {
            lemma_pow10_monotone((i + 1) as nat, 30);
            lemma_pow10_30();
            assert(pow10((i + 1) as nat) == 10 * pow10(i as nat));
            assert(r * 10 <= 1_000_000_000_000_000_000_000_000_000_000);
            lemma_pow10_positive(i as nat);
        }
        r = r * 10;
        i = i + 1;
    }
    r
}

} // verus!
