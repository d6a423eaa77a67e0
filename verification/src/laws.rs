use vstd::prelude::*;

use crate::engine::InitializeMarketplace;
use crate::engine::Operation;
use crate::engine::PurchaseService;
use crate::engine::ResellService;
use crate::engine::StateModel;
use crate::engine::apply_initialize;
use crate::engine::apply_operation;
use crate::engine::apply_purchase;
use crate::engine::apply_resell;
use crate::engine::nft_supply;
use crate::engine::state_wf;
use crate::errors::MarketplaceError;
use crate::royalty::lemma_royalty_in_range;
use crate::royalty::royalty_amount_of;
use crate::royalty::seller_amount_of;

verus! {

/// On every successful resale the two shares split the price exactly: the
/// royalty is `floor(new_price * royalty_percentage / 100)`, the seller's
/// share is the rest, and together they are `new_price`, with no remainder
/// lost to truncation.
pub proof fn lemma_royalty_split(new_price: u64, royalty_percentage: u8)
    requires
        royalty_percentage <= 100,
    ensures
        royalty_amount_of(new_price, royalty_percentage) + seller_amount_of(
            new_price,
            royalty_percentage,
        ) == new_price,
        royalty_amount_of(new_price, royalty_percentage) == (new_price * royalty_percentage) / 100,
        0 <= royalty_amount_of(new_price, royalty_percentage) <= new_price,
        0 <= seller_amount_of(new_price, royalty_percentage) <= new_price,
{
    lemma_royalty_in_range(new_price, royalty_percentage);
}

/// Every operation keeps the state well formed: the royalty rate stays a
/// percentage, issuer references stay the derived ones, and a listing's
/// ownership unit exists exactly when the listing is no longer available.
pub proof fn lemma_operation_preserves_wf(s: StateModel, op: Operation)
    requires
        state_wf(s),
    ensures
        state_wf(apply_operation(s, op).0),
{
}

/// An operation that fails has no effect at all: whichever error any of the
/// four operations returns, the state after it is the state before it.
pub proof fn lemma_failed_operation_no_effect(s: StateModel, op: Operation)
    ensures
        apply_operation(s, op).1 is Err ==> apply_operation(s, op).0 == s,
{
}

/// A listing's availability moves from `true` to `false` at most once and
/// never back: no operation revives an unavailable listing, and no operation
/// removes a listing.
pub proof fn lemma_available_never_reverses(s: StateModel, op: Operation, service: u64)
    ensures
        s.listings.contains_key(service) ==> {
            let post = apply_operation(s, op).0;
            &&& post.listings.contains_key(service)
            &&& (!s.listings[service].service.is_available
                ==> !post.listings[service].service.is_available)
        },
{
}

/// What a listing never changes: its vendor, its name and description, its
/// soulbound flag and its issuer reference are fixed at creation. Only
/// `is_available`, `metadata.price` and the token line ever move.
pub proof fn lemma_listing_immutable_fields(s: StateModel, op: Operation, service: u64)
    ensures
        s.listings.contains_key(service) ==> {
            let pre = s.listings[service];
            let post = apply_operation(s, op).0.listings[service];
            &&& post.service.vendor == pre.service.vendor
            &&& post.service.metadata.name == pre.service.metadata.name
            &&& post.service.metadata.description == pre.service.metadata.description
            &&& post.service.metadata.is_soulbound == pre.service.metadata.is_soulbound
            &&& post.service.mint == pre.service.mint
        },
{
}

/// Ownership units are never destroyed, and no listing's supply ever exceeds
/// one unit: whatever operation runs on a well-formed state.
pub proof fn lemma_supply_bounded_and_monotone(s: StateModel, op: Operation, service: u64)
    requires
        state_wf(s),
    ensures
        nft_supply(s, service) <= nft_supply(apply_operation(s, op).0, service) <= 1,
{
}

/// A successful purchase mints the listing's one ownership unit, from a
/// supply of zero to a supply of exactly one, into the buyer's holding
/// account.
pub proof fn lemma_purchase_mints_exactly_one(s: StateModel, accounts: PurchaseService)
    requires
        state_wf(s),
        apply_purchase(s, accounts).1 is Ok,
    ensures
        nft_supply(s, accounts.service) == 0,
        nft_supply(apply_purchase(s, accounts).0, accounts.service) == 1,
        apply_purchase(s, accounts).0.listings[accounts.service].issuer.holder
            == accounts.buyer_nft_account,
{
}

/// A resale never mints: the supply of every listing is unchanged, and on
/// success the one unit has moved from the seller's to the buyer's holding
/// account.
pub proof fn lemma_resell_moves_never_mints(
    s: StateModel,
    accounts: ResellService,
    new_price: u64,
    service: u64,
)
    ensures
        nft_supply(apply_resell(s, accounts, new_price).0, service) == nft_supply(s, service),
        apply_resell(s, accounts, new_price).1 is Ok ==> {
            &&& s.listings[accounts.service].issuer.holder == accounts.seller_nft_account
            &&& apply_resell(s, accounts, new_price).0.listings[accounts.service].issuer.holder
                == accounts.buyer_nft_account
        },
{
}

/// A royalty rate above 100 is rejected outright: `initialize_marketplace`
/// fails with `InvalidRoyaltyPercentage` and creates no registry, whatever
/// the state was.
pub proof fn lemma_invalid_royalty_rejected(
    s: StateModel,
    accounts: InitializeMarketplace,
    royalty_percentage: u8,
)
    requires
        royalty_percentage > 100,
    ensures
        apply_initialize(s, accounts, royalty_percentage) == (
            s,
            Err::<(), MarketplaceError>(MarketplaceError::InvalidRoyaltyPercentage),
        ),
{
}

/// A purchase of an unavailable listing always fails with
/// `ServiceNotAvailable`, before any value moves: balances and every token
/// supply are exactly what they were.
pub proof fn lemma_purchase_unavailable_rejected(s: StateModel, accounts: PurchaseService)
    requires
        s.listings.contains_key(accounts.service),
        !s.listings[accounts.service].service.is_available,
    ensures
        apply_purchase(s, accounts) == (
            s,
            Err::<(), MarketplaceError>(MarketplaceError::ServiceNotAvailable),
        ),
{
}

/// A resale of a soulbound listing always fails with
/// `SoulboundNFTCannotBeResold`, before any value moves: the state is exactly
/// what it was.
pub proof fn lemma_soulbound_never_resold(
    s: StateModel,
    accounts: ResellService,
    new_price: u64,
)
    requires
        s.listings.contains_key(accounts.service),
        s.registry is Some,
        s.listings[accounts.service].service.metadata.is_soulbound,
    ensures
        apply_resell(s, accounts, new_price) == (
            s,
            Err::<(), MarketplaceError>(MarketplaceError::SoulboundNFTCannotBeResold),
        ),
{
}

/// A successful purchase moves exactly the price: the buyer's account is
/// debited by it, the vendor's account is credited with all of it, and no
/// other balance changes.
pub proof fn lemma_purchase_conserves_value(s: StateModel, accounts: PurchaseService)
    requires
        apply_purchase(s, accounts).1 is Ok,
        accounts.buyer_token_account != accounts.vendor_token_account,
    ensures
        ({
            let price = s.listings[accounts.service].service.metadata.price;
            let post = apply_purchase(s, accounts).0;
            &&& post.balances[accounts.buyer_token_account] == s.balances[accounts.buyer_token_account] - price
            &&& post.balances[accounts.vendor_token_account] == s.balances[accounts.vendor_token_account] + price
            &&& forall|a: u64|
                a != accounts.buyer_token_account && a != accounts.vendor_token_account
                    ==> #[trigger] post.balances.contains_key(a) == s.balances.contains_key(a)
                    && (s.balances.contains_key(a) ==> post.balances[a] == s.balances[a])
        }),
{
}

/// A successful resale costs the buyer exactly `new_price`, and that amount
/// splits without remainder between the seller and the operator.
pub proof fn lemma_resell_conserves_value(s: StateModel, accounts: ResellService, new_price: u64)
    requires
        state_wf(s),
        apply_resell(s, accounts, new_price).1 is Ok,
        accounts.buyer_token_account != accounts.seller_token_account,
        accounts.buyer_token_account != accounts.marketplace_token_account,
        accounts.seller_token_account != accounts.marketplace_token_account,
    ensures
        ({
            let percent = s.registry.unwrap().royalty_percentage;
            let royalty = royalty_amount_of(new_price, percent);
            let seller_share = seller_amount_of(new_price, percent);
            let post = apply_resell(s, accounts, new_price).0;
            &&& royalty + seller_share == new_price
            &&& post.balances[accounts.buyer_token_account] == s.balances[accounts.buyer_token_account] - new_price
            &&& post.balances[accounts.seller_token_account] == s.balances[accounts.seller_token_account] + seller_share
            &&& post.balances[accounts.marketplace_token_account] == s.balances[accounts.marketplace_token_account] + royalty
        }),
{
    lemma_royalty_in_range(new_price, s.registry.unwrap().royalty_percentage);
}

} // verus!
