use service_marketplace::engine::InitializeMarketplace;
use service_marketplace::engine::ListService;
use service_marketplace::engine::MarketState;
use service_marketplace::engine::PurchaseService;
use service_marketplace::engine::ResellService;
use service_marketplace::errors::MarketplaceError;
use service_marketplace::records::ServiceMetadata;

const OPERATOR: u64 = 1;
const VENDOR: u64 = 2;
const BUYER: u64 = 3;
const BUYER2: u64 = 4;

const OPERATOR_TOKENS: u64 = 11;
const VENDOR_TOKENS: u64 = 12;
const BUYER_TOKENS: u64 = 13;
const BUYER2_TOKENS: u64 = 14;

const BUYER_NFT: u64 = 23;
const BUYER2_NFT: u64 = 24;

const LISTING: u64 = 100;

fn metadata(price: u64, soulbound: bool) -> ServiceMetadata {
    ServiceMetadata {
        name: String::from("logo design"),
        description: String::from("one vector logo, two revisions"),
        price,
        is_soulbound: soulbound,
    }
}

/// A marketplace at 10% royalty with one listing priced 1000 and funded
/// payment accounts for everyone involved.
fn marketplace_with_listing(soulbound: bool) -> MarketState {
    let mut state = MarketState::new();
    state
        .initialize_marketplace(InitializeMarketplace { authority: OPERATOR }, 10)
        .unwrap();
    assert!(state.open_token_account(OPERATOR_TOKENS, 0));
    assert!(state.open_token_account(VENDOR_TOKENS, 0));
    assert!(state.open_token_account(BUYER_TOKENS, 5000));
    assert!(state.open_token_account(BUYER2_TOKENS, 5000));
    state
        .list_service(
            ListService { vendor: VENDOR, service: LISTING },
            metadata(1000, soulbound),
        )
        .unwrap();
    state
}

fn purchase_accounts() -> PurchaseService {
    PurchaseService {
        service: LISTING,
        buyer_token_account: BUYER_TOKENS,
        vendor_token_account: VENDOR_TOKENS,
        buyer_nft_account: BUYER_NFT,
    }
}

fn resell_accounts() -> ResellService {
    ResellService {
        service: LISTING,
        seller_nft_account: BUYER_NFT,
        buyer_nft_account: BUYER2_NFT,
        seller_token_account: BUYER_TOKENS,
        buyer_token_account: BUYER2_TOKENS,
        marketplace_token_account: OPERATOR_TOKENS,
    }
}

#[test]
fn purchase_pays_vendor_and_mints_unit() {
    let mut state = marketplace_with_listing(false);
    state.purchase_service(purchase_accounts()).unwrap();

    assert_eq!(state.balance_of(BUYER_TOKENS), Some(4000));
    assert_eq!(state.balance_of(VENDOR_TOKENS), Some(1000));
    let entry = state.listing(LISTING).unwrap();
    assert!(!entry.service.is_available);
    assert!(entry.issuer.minted);
    assert_eq!(entry.issuer.holder, BUYER_NFT);
}

#[test]
fn resale_splits_price_between_seller_and_operator() {
    let mut state = marketplace_with_listing(false);
    state.purchase_service(purchase_accounts()).unwrap();
    state.resell_service(resell_accounts(), 500).unwrap();

    // royalty 10% of 500 = 50 to the operator, 450 to the seller
    assert_eq!(state.balance_of(BUYER2_TOKENS), Some(4500));
    assert_eq!(state.balance_of(BUYER_TOKENS), Some(4450));
    assert_eq!(state.balance_of(OPERATOR_TOKENS), Some(50));
    // the vendor's earlier proceeds are untouched
    assert_eq!(state.balance_of(VENDOR_TOKENS), Some(1000));
    let entry = state.listing(LISTING).unwrap();
    assert_eq!(entry.issuer.holder, BUYER2_NFT);
    assert!(entry.issuer.minted);
    assert_eq!(entry.service.metadata.price, 500);
    assert!(!entry.service.is_available);
}

#[test]
fn invalid_royalty_rate_creates_no_registry() {
    let mut state = MarketState::new();
    let result = state.initialize_marketplace(InitializeMarketplace { authority: OPERATOR }, 101);
    assert_eq!(result, Err(MarketplaceError::InvalidRoyaltyPercentage));
    assert_eq!(state.registry(), None);
}

#[test]
fn initialize_records_operator_rate_and_zero_count() {
    let mut state = MarketState::new();
    state
        .initialize_marketplace(InitializeMarketplace { authority: OPERATOR }, 100)
        .unwrap();
    let registry = state.registry().unwrap();
    assert_eq!(registry.authority, OPERATOR);
    assert_eq!(registry.royalty_percentage, 100);
    assert_eq!(registry.service_count, 0);
}

#[test]
fn purchase_after_purchase_is_rejected_with_no_effect() {
    let mut state = marketplace_with_listing(false);
    state.purchase_service(purchase_accounts()).unwrap();

    let again = PurchaseService {
        buyer_token_account: BUYER2_TOKENS,
        vendor_token_account: VENDOR_TOKENS,
        buyer_nft_account: BUYER2_NFT,
        ..purchase_accounts()
    };
    assert_eq!(
        state.purchase_service(again),
        Err(MarketplaceError::ServiceNotAvailable)
    );
    // no balance moved and the one unit is still the first buyer's
    assert_eq!(state.balance_of(BUYER2_TOKENS), Some(5000));
    assert_eq!(state.balance_of(VENDOR_TOKENS), Some(1000));
    let entry = state.listing(LISTING).unwrap();
    assert_eq!(entry.issuer.holder, BUYER_NFT);
}

#[test]
fn soulbound_listing_cannot_be_resold() {
    let mut state = marketplace_with_listing(true);
    state.purchase_service(purchase_accounts()).unwrap();

    assert_eq!(
        state.resell_service(resell_accounts(), 500),
        Err(MarketplaceError::SoulboundNFTCannotBeResold)
    );
    // nothing moved
    assert_eq!(state.balance_of(BUYER_TOKENS), Some(4000));
    assert_eq!(state.balance_of(BUYER2_TOKENS), Some(5000));
    assert_eq!(state.balance_of(OPERATOR_TOKENS), Some(0));
    let entry = state.listing(LISTING).unwrap();
    assert_eq!(entry.issuer.holder, BUYER_NFT);
    assert_eq!(entry.service.metadata.price, 1000);
}

#[test]
fn second_resale_moves_the_same_unit_onward() {
    let mut state = marketplace_with_listing(false);
    state.purchase_service(purchase_accounts()).unwrap();
    state.resell_service(resell_accounts(), 500).unwrap();

    // buyer2 sells back to the first buyer at 100: royalty 10
    let back = ResellService {
        service: LISTING,
        seller_nft_account: BUYER2_NFT,
        buyer_nft_account: BUYER_NFT,
        seller_token_account: BUYER2_TOKENS,
        buyer_token_account: BUYER_TOKENS,
        marketplace_token_account: OPERATOR_TOKENS,
    };
    state.resell_service(back, 100).unwrap();

    let entry = state.listing(LISTING).unwrap();
    assert!(entry.issuer.minted);
    assert_eq!(entry.issuer.holder, BUYER_NFT);
    assert_eq!(entry.service.metadata.price, 100);
    assert_eq!(state.balance_of(OPERATOR_TOKENS), Some(60));
    assert_eq!(state.balance_of(BUYER_TOKENS), Some(4350));
    assert_eq!(state.balance_of(BUYER2_TOKENS), Some(4590));
}
