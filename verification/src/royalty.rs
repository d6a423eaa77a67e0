use vstd::prelude::*;

verus! {

/// The royalty owed to the marketplace operator on a resale at `new_price`
/// under the registry's rate: `floor(new_price * royalty_percentage / 100)`,
/// integer division truncating toward zero.
pub open spec fn royalty_amount_of(new_price: u64, royalty_percentage: u8) -> int {
    (new_price * royalty_percentage) / 100
}

/// What the seller keeps of a resale at `new_price`: the price minus the
/// royalty, so the truncation remainder accrues to the seller.
pub open spec fn seller_amount_of(new_price: u64, royalty_percentage: u8) -> int {
    new_price - royalty_amount_of(new_price, royalty_percentage)
}

/// For any percentage the registry can hold, the royalty never exceeds the
/// price, so both shares are 64-bit amounts.
pub proof fn lemma_royalty_in_range(new_price: u64, royalty_percentage: u8)
    requires
        royalty_percentage <= 100,
    ensures
        0 <= royalty_amount_of(new_price, royalty_percentage) <= new_price,
        0 <= seller_amount_of(new_price, royalty_percentage) <= new_price,
{
    assert((new_price * royalty_percentage) / 100 <= new_price) by (nonlinear_arith)
        requires
            royalty_percentage <= 100,
    ;
    assert(0 <= (new_price * royalty_percentage) / 100) by (nonlinear_arith);
}

/// Computes the royalty share of a resale. The product is formed in 128 bits,
/// so no truncation can occur before the division.
pub fn royalty_amount(new_price: u64, royalty_percentage: u8) -> (r: u64)
    requires
        royalty_percentage <= 100,
    ensures
        r == royalty_amount_of(new_price, royalty_percentage),
{
    proof {
        lemma_royalty_in_range(new_price, royalty_percentage);
    }
    (((new_price as u128) * (royalty_percentage as u128)) / 100) as u64
}

/// Computes the seller's share of a resale: the price minus the royalty.
pub fn seller_amount(new_price: u64, royalty_percentage: u8) -> (r: u64)
    requires
        royalty_percentage <= 100,
    ensures
        r == seller_amount_of(new_price, royalty_percentage),
{
    proof {
        lemma_royalty_in_range(new_price, royalty_percentage);
    }
    new_price - royalty_amount(new_price, royalty_percentage)
}

} // verus!
