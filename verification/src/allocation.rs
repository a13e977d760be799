use vstd::prelude::*;

verus! {

/// How a payment is divided: three numerators over one denominator.
#[derive(Clone, Copy, Debug, PartialEq, Eq)]
pub struct AllocationRatio {
    /// Numerator of the share that stays unconverted.
    pub retained: u64,
    /// Numerator of the share converted for the first destination.
    pub first: u64,
    /// Numerator of the share converted for the second destination.
    pub second: u64,
    /// The common denominator.
    pub whole: u64,
}

/// The three parts of one payment.
#[derive(Clone, Copy, Debug, PartialEq, Eq, Structural)]
pub struct Shares {
    /// Kept unconverted for the treasury.
    pub retained: u64,
    /// Converted for the first destination.
    pub first: u64,
    /// Converted for the second destination.
    pub second: u64,
}

/// `parts` out of `whole` of `amount`, rounded down.
pub open spec fn share_of(amount: int, parts: int, whole: int) -> int {
    (amount * parts) / whole
}

impl Shares {
    pub open spec fn sum(&self) -> int {
        self.retained + self.first + self.second
    }
}

impl AllocationRatio {
    /// The fractions add up to exactly one.
    pub open spec fn well_formed(&self) -> bool {
        &&& self.whole > 0
        &&& self.retained + self.first + self.second == self.whole
    }

    /// Six twelfths retained, four and two twelfths converted.
    pub open spec fn reference_ratio() -> AllocationRatio {
        AllocationRatio { retained: 6, first: 4, second: 2, whole: 12 }
    }

    /// Accepts three numerators and their denominator if the fractions add
    /// up to exactly one.
    pub fn new(retained: u64, first: u64, second: u64, whole: u64) -> (r: Option<AllocationRatio>)
        ensures
            r is Some <==> whole > 0 && retained + first + second == whole,
            r matches Some(ratio) ==> ratio == (AllocationRatio { retained, first, second, whole })
                && ratio.well_formed(),
    {
        if whole == 0 {
            return None;
        }
        let sum: u128 = retained as u128 + first as u128 + second as u128;
        if sum != whole as u128 {
            return None;
        }
        Some(AllocationRatio { retained, first, second, whole })
    }

    /// Six twelfths retained, four and two twelfths converted.
    pub fn reference() -> (ratio: AllocationRatio)
        ensures
            ratio == Self::reference_ratio(),
            ratio.well_formed(),
    {
        AllocationRatio { retained: 6, first: 4, second: 2, whole: 12 }
    }

    /// The shares of `required_amount` under this ratio.
    pub open spec fn shares_of(&self, required_amount: int) -> Shares {
        let first = share_of(required_amount, self.first as int, self.whole as int);
        let second = share_of(required_amount, self.second as int, self.whole as int);
        Shares {
            retained: (required_amount - first - second) as u64,
            first: first as u64,
            second: second as u64,
        }
    }

    /// Splits a payment into its three shares.
    ///
    /// The converted shares are rounded down and the retained share takes
    /// what is left, so the three always add up to the payment.
    pub fn allocate(&self, required_amount: u64) -> (shares: Shares)
        requires
            self.well_formed(),
        ensures
            shares == self.shares_of(required_amount as int),
            shares.first == share_of(
                required_amount as int,
                self.first as int,
                self.whole as int,
            ),
            shares.second == share_of(
                required_amount as int,
                self.second as int,
                self.whole as int,
            ),
            shares.sum() == required_amount,
    {
        let first = portion(required_amount, self.first, self.whole);
        let second = portion(required_amount, self.second, self.whole);
        proof {
            lemma_shares_fit(
                required_amount as int,
                self.first as int,
                self.second as int,
                self.whole as int,
            );
        }
        Shares { retained: required_amount - first - second, first, second }
    }
}

/// `parts` out of `whole` of `amount`, rounded down.
fn portion(amount: u64, parts: u64, whole: u64) -> (r: u64)
    requires
        whole > 0,
        parts <= whole,
    ensures
        r == share_of(amount as int, parts as int, whole as int),
        r <= amount,
{
    proof {
        lemma_share_bounds(amount as int, parts as int, whole as int);
        assert(amount * parts <= u64::MAX * u64::MAX) by (nonlinear_arith)
            requires
                0 <= amount <= u64::MAX,
                0 <= parts <= u64::MAX,
        ;
    }
    let product: u128 = (amount as u128) * (parts as u128);
    let share: u128 = product / (whole as u128);
    share as u64
}

/// A share lies between nothing and the whole amount.
pub proof fn lemma_share_bounds(amount: int, parts: int, whole: int)
    by (nonlinear_arith)
    requires
        amount >= 0,
        whole > 0,
        0 <= parts <= whole,
    ensures
        0 <= share_of(amount, parts, whole) <= amount,
{
    assert(amount * parts <= amount * whole);
    assert(amount * parts >= 0);
    assert((amount * whole) / whole == amount);
}

/// Two rounded-down shares together never exceed the amount.
pub proof fn lemma_shares_fit(amount: int, first: int, second: int, whole: int)
    by (nonlinear_arith)
    requires
        amount >= 0,
        whole > 0,
        first >= 0,
        second >= 0,
        first + second <= whole,
    ensures
        0 <= share_of(amount, first, whole),
        0 <= share_of(amount, second, whole),
        share_of(amount, first, whole) + share_of(amount, second, whole) <= amount,
{
    let a = amount * first;
    let b = amount * second;
    assert(a >= 0 && b >= 0);
    assert(a + b == amount * (first + second));
    assert(a + b <= amount * whole);
    assert(a / whole + b / whole <= (a + b) / whole);
    assert((a + b) / whole <= (amount * whole) / whole);
    assert((amount * whole) / whole == amount);
}

/// The shares of a payment add up to the payment, with nothing left over.
pub proof fn lemma_shares_sum_to_amount(ratio: AllocationRatio, required_amount: u64)
    requires
        ratio.well_formed(),
    ensures
        ratio.shares_of(required_amount as int).sum() == required_amount,
{
    lemma_shares_fit(
        required_amount as int,
        ratio.first as int,
        ratio.second as int,
        ratio.whole as int,
    );
}

/// A share of a multiple of the denominator is exact.
pub proof fn lemma_share_of_multiple(count: int, parts: int, whole: int)
    by (nonlinear_arith)
    requires
        whole > 0,
    ensures
        share_of(count * whole, parts, whole) == count * parts,
{
    assert((count * whole) * parts == (count * parts) * whole);
    assert(((count * parts) * whole) / whole == count * parts);
}

/// Where the denominator divides the payment, every share is its exact
/// fraction of the payment and rounding leaves nothing over.
pub proof fn lemma_even_split_is_exact(ratio: AllocationRatio, required_amount: u64)
    requires
        ratio.well_formed(),
        required_amount % ratio.whole == 0,
    ensures
        ratio.shares_of(required_amount as int).retained * ratio.whole == required_amount
            * ratio.retained,
        ratio.shares_of(required_amount as int).first * ratio.whole == required_amount
            * ratio.first,
        ratio.shares_of(required_amount as int).second * ratio.whole == required_amount
            * ratio.second,
{
    let whole = ratio.whole as int;
    let count = required_amount as int / whole;
    assert(required_amount == count * whole) by (nonlinear_arith)
        requires
            whole > 0,
            count == required_amount as int / whole,
            required_amount as int % whole == 0,
    ;
    lemma_share_of_multiple(count, ratio.first as int, whole);
    lemma_share_of_multiple(count, ratio.second as int, whole);
    lemma_shares_fit(required_amount as int, ratio.first as int, ratio.second as int, whole);
    let first = ratio.first as int;
    let second = ratio.second as int;
    let retained = ratio.retained as int;
    assert((count * whole - count * first - count * second) * whole == (count * whole) * retained
        && (count * first) * whole == (count * whole) * first && (count * second) * whole == (count
        * whole) * second) by (nonlinear_arith)
        requires
            retained + first + second == whole,
    ;
}

} // verus!
