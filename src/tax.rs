//! GST arithmetic for one sale line, in integer paise.
//!
//! A GST slab rate is held in basis points (hundredths of a percent). For an
//! intra-state sale the rate is split into two equal halves, CGST and SGST,
//! each applied to the taxable amount and rounded to the nearest paisa, with
//! halves rounded up.
use vstd::prelude::*;

verus! {

/// One hundred percent, in basis points.
pub const FULL_RATE_BP: u32 = 10000;

/// The largest price of one unit, in paise, that the store accepts.
pub const MAX_PRICE_PAISE: i64 = 1000000000;

/// The largest quantity that one batch may hold.
pub const MAX_QUANTITY: i64 = 1000000000;

/// A slab rate is a whole number of basis points, at most one hundred
/// percent, and even, so that its two halves are exact.
pub open spec fn valid_rate_bp(rate_bp: int) -> bool {
    0 <= rate_bp <= FULL_RATE_BP && rate_bp % 2 == 0
}

/// `n / d` rounded to the nearest integer, halves up (for `n >= 0`, `d > 0`).
pub open spec fn round_div(n: int, d: int) -> int {
    (n + d / 2) / d
}

/// The CGST (equally the SGST) on `taxable` paise at a slab of `rate_bp`:
/// half the slab rate, rounded to the nearest paisa.
pub open spec fn half_tax(taxable: int, rate_bp: int) -> int {
    round_div(taxable * (rate_bp / 2), FULL_RATE_BP as int)
}

/// The amounts of one sale line.
#[derive(Clone, Copy, Debug, PartialEq, Eq)]
pub struct LineAmounts {
    /// Unit price times quantity, before discount.
    pub gross: i64,
    pub discount: i64,
    /// `gross - discount`.
    pub taxable: i64,
    /// Half the slab rate, in basis points.
    pub cgst_rate_bp: u32,
    pub cgst: i64,
    /// Half the slab rate, in basis points.
    pub sgst_rate_bp: u32,
    pub sgst: i64,
    /// `taxable + cgst + sgst`.
    pub total: i64,
}

impl LineAmounts {
    /// The amounts are those of `quantity` units at `unit_price` with
    /// `discount` off, taxed at the slab `rate_bp`.
    pub open spec fn describes(self, unit_price: int, quantity: int, discount: int, rate_bp: int) -> bool {
        &&& self.gross == unit_price * quantity
        &&& self.discount == discount
        &&& self.taxable == unit_price * quantity - discount
        &&& self.cgst_rate_bp == rate_bp / 2
        &&& self.sgst_rate_bp == rate_bp / 2
        &&& self.cgst == half_tax(unit_price * quantity - discount, rate_bp)
        &&& self.sgst == half_tax(unit_price * quantity - discount, rate_bp)
        &&& self.total == self.taxable + self.cgst + self.sgst
    }
}

/// Neither half of the tax exceeds the taxable amount.
pub proof fn lemma_half_tax_bounds(taxable: int, rate_bp: int)
    requires
        0 <= taxable,
        valid_rate_bp(rate_bp),
    ensures
        0 <= half_tax(taxable, rate_bp) <= taxable,
{
    let h = rate_bp / 2;
    assert(0 <= h <= 5000);
    assert(0 <= taxable * h <= taxable * 5000) by (nonlinear_arith)
        requires 0 <= taxable, 0 <= h <= 5000;
    if taxable == 0 {
        assert(taxable * h == 0) by (nonlinear_arith)
            requires taxable == 0;
    }
}

/// Computes the amounts of one sale line: `quantity` units at `unit_price`
/// paise each, less `discount` paise, with GST at the slab `rate_bp` split
/// evenly into CGST and SGST.
pub fn compute_line(unit_price: i64, quantity: i64, discount: i64, rate_bp: u32) -> (r: LineAmounts)
    requires
        0 < unit_price <= MAX_PRICE_PAISE,
        0 < quantity <= MAX_QUANTITY,
        0 <= discount <= unit_price * quantity,
        valid_rate_bp(rate_bp as int),
    ensures
        r.describes(unit_price as int, quantity as int, discount as int, rate_bp as int),
{
    assert(0 < unit_price * quantity <= MAX_PRICE_PAISE * MAX_QUANTITY) by (nonlinear_arith)
        requires 0 < unit_price <= MAX_PRICE_PAISE, 0 < quantity <= MAX_QUANTITY;
    let gross: i64 = unit_price * quantity;
    let taxable: i64 = gross - discount;
    let half: u32 = rate_bp / 2;
    proof {
        lemma_half_tax_bounds(taxable as int, rate_bp as int);
        assert(0 <= taxable * half <= taxable * 5000) by (nonlinear_arith)
            requires 0 <= taxable, 0 <= half <= 5000;
    }
    let scaled: u128 = (taxable as u128) * (half as u128) + 5000;
    let cgst: i64 = (scaled / 10000) as i64;
    let sgst: i64 = cgst;
    LineAmounts {
        gross,
        discount,
        taxable,
        cgst_rate_bp: half,
        cgst,
        sgst_rate_bp: half,
        sgst,
        total: taxable + cgst + sgst,
    }
}

} // verus!
