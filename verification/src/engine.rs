use std::collections::HashMap;

use vstd::prelude::*;

use crate::errors::MarketplaceError;
use crate::ledger::transfer;
use crate::ledger::transfer_outcome;
use crate::records::EntryModel;
use crate::records::ListingEntry;
use crate::records::ListingModel;
use crate::records::Marketplace;
use crate::records::MetadataModel;
use crate::records::Service;
use crate::records::ServiceMetadata;
use crate::records::TokenIssuer;
use crate::records::derive_issuer_ref;
use crate::records::derived_issuer_ref;
use crate::records::metadata_fits;
use crate::royalty::royalty_amount;
use crate::royalty::royalty_amount_of;
use crate::royalty::seller_amount;
use crate::royalty::seller_amount_of;

verus! {

/// Mathematical state of the whole marketplace: the registry record if one
/// was created, the listing records with their token lines keyed by listing
/// identifier, and the payment-token balances keyed by account identifier.
#[verifier::ext_equal]
pub struct StateModel {
    pub registry: Option<Marketplace>,
    pub listings: Map<u64, EntryModel>,
    pub balances: Map<u64, u64>,
}

/// The state before anything was created.
pub open spec fn empty_state() -> StateModel {
    StateModel { registry: None, listings: Map::empty(), balances: Map::empty() }
}

/// Well-formedness of a marketplace state, established at creation and
/// preserved by every operation: the registry's royalty rate is a percentage,
/// each listing's issuer reference is the one derived from its identifier,
/// and a listing's single ownership unit has been minted exactly when the
/// listing is no longer available.
pub open spec fn state_wf(s: StateModel) -> bool {
    &&& (s.registry is Some ==> s.registry.unwrap().wf())
    &&& forall|id: u64| #[trigger] s.listings.contains_key(id) ==> {
        &&& s.listings[id].service.mint == derived_issuer_ref(id)
        &&& s.listings[id].issuer.minted == !s.listings[id].service.is_available
    }
}

/// Units of the ownership token of listing `service` that exist in state `s`.
pub open spec fn nft_supply(s: StateModel, service: u64) -> nat {
    if s.listings.contains_key(service) && s.listings[service].issuer.minted {
        1
    } else {
        0
    }
}

/// The accounts an `initialize_marketplace` operation touches.
#[derive(Clone, Copy, Debug, PartialEq, Eq, Structural)]
pub struct InitializeMarketplace {
    /// The caller, whose signature the host has verified; it becomes the
    /// marketplace operator.
    pub authority: u64,
}

/// The accounts a `list_service` operation touches.
#[derive(Clone, Copy, Debug, PartialEq, Eq, Structural)]
pub struct ListService {
    /// The caller, whose signature the host has verified; it becomes the
    /// listing's vendor.
    pub vendor: u64,
    /// Identifier of the listing record to create.
    pub service: u64,
}

/// The accounts a `purchase_service` operation touches. The buyer authorizes
/// the payment; the host has verified its signature.
#[derive(Clone, Copy, Debug, PartialEq, Eq, Structural)]
pub struct PurchaseService {
    /// Identifier of the listing being purchased.
    pub service: u64,
    /// The buyer's payment account, debited by the price.
    pub buyer_token_account: u64,
    /// The vendor's payment account, credited with the full price.
    pub vendor_token_account: u64,
    /// The buyer's holding account for the ownership token, created on demand
    /// by the token service; the one unit is minted into it.
    pub buyer_nft_account: u64,
}

/// The accounts a `resell_service` operation touches. Seller and buyer both
/// move value, so the host has verified both signatures.
#[derive(Clone, Copy, Debug, PartialEq, Eq, Structural)]
pub struct ResellService {
    /// Identifier of the listing being resold.
    pub service: u64,
    /// The seller's holding account, from which the ownership unit moves.
    pub seller_nft_account: u64,
    /// The buyer's holding account, into which the ownership unit moves.
    pub buyer_nft_account: u64,
    /// The seller's payment account, credited with the seller's share.
    pub seller_token_account: u64,
    /// The buyer's payment account, debited by the full resale price.
    pub buyer_token_account: u64,
    /// The operator's payment account, credited with the royalty.
    pub marketplace_token_account: u64,
}

/// One operation, with the accounts and scalar arguments it takes. A caller
/// submits one operation at a time; the host sequences them.
#[allow(inconsistent_fields)]
pub enum Operation {
    InitializeMarketplace { accounts: InitializeMarketplace, royalty_percentage: u8 },
    ListService { accounts: ListService, metadata: ServiceMetadata },
    PurchaseService { accounts: PurchaseService },
    ResellService { accounts: ResellService, new_price: u64 },
}

/// Transition of `initialize_marketplace`: creates the registry with the
/// caller as operator, the given royalty rate, and a zero listing count.
/// Fails with `InvalidRoyaltyPercentage` exactly when the rate exceeds 100,
/// and with `AlreadyInitialized` exactly when the registry already exists;
/// either failure changes nothing.
pub open spec fn apply_initialize(
    s: StateModel,
    accounts: InitializeMarketplace,
    royalty_percentage: u8,
) -> (StateModel, Result<(), MarketplaceError>) {
    if royalty_percentage > 100 {
        (s, Err(MarketplaceError::InvalidRoyaltyPercentage))
    } else if s.registry is Some {
        (s, Err(MarketplaceError::AlreadyInitialized))
    } else {
        (
            StateModel {
                registry: Some(
                    Marketplace {
                        authority: accounts.authority,
                        service_count: 0,
                        royalty_percentage,
                    },
                ),
                ..s
            },
            Ok(()),
        )
    }
}

/// Transition of `list_service`: creates the listing record, available and
/// with an unminted token line whose issuer reference is derived from the
/// listing's identifier, and counts it in the registry. No value moves.
/// Fails, changing nothing, with `RegistryNotInitialized` when there is no
/// registry, `DuplicateListing` when the identifier is taken,
/// `MetadataTooLarge` when the metadata does not fit its record, and
/// `ArithmeticOverflow` when the listing count would leave the 64-bit range.
pub open spec fn apply_list(s: StateModel, accounts: ListService, metadata: MetadataModel) -> (
    StateModel,
    Result<(), MarketplaceError>,
) {
    if s.registry is None {
        (s, Err(MarketplaceError::RegistryNotInitialized))
    } else if s.listings.contains_key(accounts.service) {
        (s, Err(MarketplaceError::DuplicateListing))
    } else if !metadata_fits(metadata) {
        (s, Err(MarketplaceError::MetadataTooLarge))
    } else if s.registry.unwrap().service_count == u64::MAX {
        (s, Err(MarketplaceError::ArithmeticOverflow))
    } else {
        let registry = s.registry.unwrap();
        let entry = EntryModel {
            service: ListingModel {
                vendor: accounts.vendor,
                metadata,
                mint: derived_issuer_ref(accounts.service),
                is_available: true,
            },
            issuer: TokenIssuer { minted: false, holder: 0 },
        };
        (
            StateModel {
                registry: Some(
                    Marketplace {
                        authority: registry.authority,
                        service_count: (registry.service_count + 1) as u64,
                        royalty_percentage: registry.royalty_percentage,
                    },
                ),
                listings: s.listings.insert(accounts.service, entry),
                ..s
            },
            Ok(()),
        )
    }
}

/// Transition of `purchase_service`: moves the full price from the buyer's to
/// the vendor's payment account, mints the one ownership unit into the
/// buyer's holding account, and clears the listing's availability.
/// Fails, changing nothing, with `ListingNotFound` when there is no such
/// listing, `ServiceNotAvailable` when it was already purchased, and
/// otherwise with whatever the payment transfer fails with.
pub open spec fn apply_purchase(s: StateModel, accounts: PurchaseService) -> (
    StateModel,
    Result<(), MarketplaceError>,
) {
    if !s.listings.contains_key(accounts.service) {
        (s, Err(MarketplaceError::ListingNotFound))
    } else {
        let entry = s.listings[accounts.service];
        if !entry.service.is_available {
            (s, Err(MarketplaceError::ServiceNotAvailable))
        } else {
            let price = entry.service.metadata.price;
            let (paid, pay_result) = transfer_outcome(
                s.balances,
                accounts.buyer_token_account,
                accounts.vendor_token_account,
                price as int,
            );
            if pay_result is Err {
                (s, pay_result)
            } else {
                let updated = EntryModel {
                    service: ListingModel { is_available: false, ..entry.service },
                    issuer: TokenIssuer { minted: true, holder: accounts.buyer_nft_account },
                };
                (
                    StateModel {
                        listings: s.listings.insert(accounts.service, updated),
                        balances: paid,
                        ..s
                    },
                    Ok(()),
                )
            }
        }
    }
}

/// Transition of `resell_service`: moves the ownership unit from the seller's
/// to the buyer's holding account, pays the seller `new_price` minus the
/// royalty, pays the royalty to the operator's account, and records
/// `new_price` as the listing's price.
/// Fails, changing nothing, with `ListingNotFound` or
/// `RegistryNotInitialized` when a record is missing,
/// `SoulboundNFTCannotBeResold` when the listing is soulbound,
/// `InsufficientFunds` when the seller's holding account does not hold the
/// unit, and otherwise with whatever the first failing payment fails with.
pub open spec fn apply_resell(s: StateModel, accounts: ResellService, new_price: u64) -> (
    StateModel,
    Result<(), MarketplaceError>,
) {
    if !s.listings.contains_key(accounts.service) {
        (s, Err(MarketplaceError::ListingNotFound))
    } else if s.registry is None {
        (s, Err(MarketplaceError::RegistryNotInitialized))
    } else {
        let entry = s.listings[accounts.service];
        let registry = s.registry.unwrap();
        if entry.service.metadata.is_soulbound {
            (s, Err(MarketplaceError::SoulboundNFTCannotBeResold))
        } else if !(entry.issuer.minted && entry.issuer.holder == accounts.seller_nft_account) {
            (s, Err(MarketplaceError::InsufficientFunds))
        } else {
            let royalty = royalty_amount_of(new_price, registry.royalty_percentage);
            let seller_share = seller_amount_of(new_price, registry.royalty_percentage);
            let (after_seller, pay_seller) = transfer_outcome(
                s.balances,
                accounts.buyer_token_account,
                accounts.seller_token_account,
                seller_share,
            );
            if pay_seller is Err {
                (s, pay_seller)
            } else {
                let (after_royalty, pay_operator) = transfer_outcome(
                    after_seller,
                    accounts.buyer_token_account,
                    accounts.marketplace_token_account,
                    royalty,
                );
                if pay_operator is Err {
                    (s, pay_operator)
                } else {
                    let updated = EntryModel {
                        service: ListingModel {
                            metadata: MetadataModel {
                                price: new_price,
                                ..entry.service.metadata
                            },
                            ..entry.service
                        },
                        issuer: TokenIssuer { minted: true, holder: accounts.buyer_nft_account },
                    };
                    (
                        StateModel {
                            listings: s.listings.insert(accounts.service, updated),
                            balances: after_royalty,
                            ..s
                        },
                        Ok(()),
                    )
                }
            }
        }
    }
}

/// Transition of the operation dispatcher: what any one submitted operation
/// does to the state, and what it returns.
pub open spec fn apply_operation(s: StateModel, op: Operation) -> (
    StateModel,
    Result<(), MarketplaceError>,
) {
    match op {
        Operation::InitializeMarketplace { accounts, royalty_percentage } => apply_initialize(
            s,
            accounts,
            royalty_percentage,
        ),
        Operation::ListService { accounts, metadata } => apply_list(s, accounts, metadata@),
        Operation::PurchaseService { accounts } => apply_purchase(s, accounts),
        Operation::ResellService { accounts, new_price } => apply_resell(s, accounts, new_price),
    }
}

/// The marketplace's persistent state: the registry and listing records and
/// the payment-token ledger the operations move value on.
///
/// Each operation is an all-or-nothing unit: it validates before it mutates,
/// and a payment sequence runs on a scratch copy of the ledger that is
/// committed only once every step of the sequence has succeeded, so a failure
/// anywhere leaves no partial state.
pub struct MarketState {
    registry: Option<Marketplace>,
    listings: HashMap<u64, ListingEntry>,
    balances: HashMap<u64, u64>,
}

impl View for MarketState {
    type V = StateModel;

    closed spec fn view(&self) -> StateModel {
        StateModel {
            registry: self.registry,
            listings: self.listings@.map_values(|e: ListingEntry| e@),
            balances: self.balances@,
        }
    }
}

impl MarketState {
    /// Well-formedness of the state; see [`state_wf`].
    pub open spec fn wf(&self) -> bool {
        state_wf(self@)
    }

    /// A marketplace in which nothing has been created yet.
    pub fn new() -> (s: MarketState)
        ensures
            s@ == empty_state(),
            s.wf(),
    {
        let s = MarketState {
            registry: None,
            listings: HashMap::new(),
            balances: HashMap::new(),
        };
        proof {
            assert(s@ =~= empty_state());
        }
        s
    }

    /// Creates a payment-token account holding `opening_balance`, as the
    /// token service's account creation would. Returns `false`, changing
    /// nothing, exactly when the account already exists.
    pub fn open_token_account(&mut self, account: u64, opening_balance: u64) -> (r: bool)
        ensures
            r == !old(self)@.balances.contains_key(account),
            r ==> final(self)@ == (StateModel {
                balances: old(self)@.balances.insert(account, opening_balance),
                ..old(self)@
            }),
            !r ==> final(self)@ == old(self)@,
            old(self).wf() ==> final(self).wf(),
    {
        if self.balances.contains_key(&account) {
            false
        } else {
            self.balances.insert(account, opening_balance);
            true
        }
    }

    /// Creates the marketplace registry, making the caller its operator; see
    /// [`apply_initialize`] for exactly what it does and when it fails.
    pub fn initialize_marketplace(
        &mut self,
        accounts: InitializeMarketplace,
        royalty_percentage: u8,
    ) -> (r: Result<(), MarketplaceError>)
        ensures
            final(self)@ == apply_initialize(old(self)@, accounts, royalty_percentage).0,
            r == apply_initialize(old(self)@, accounts, royalty_percentage).1,
            old(self).wf() ==> final(self).wf(),
    {
        if royalty_percentage > 100 {
            return Err(MarketplaceError::InvalidRoyaltyPercentage);
        }
        if self.registry.is_some() {
            return Err(MarketplaceError::AlreadyInitialized);
        }
        self.registry = Some(
            Marketplace { authority: accounts.authority, service_count: 0, royalty_percentage },
        );
        Ok(())
    }

    /// Creates a listing for the calling vendor; see [`apply_list`] for
    /// exactly what it does and when it fails.
    pub fn list_service(&mut self, accounts: ListService, metadata: ServiceMetadata) -> (r: Result<
        (),
        MarketplaceError,
    >)
        ensures
            final(self)@ == apply_list(old(self)@, accounts, metadata@).0,
            r == apply_list(old(self)@, accounts, metadata@).1,
            old(self).wf() ==> final(self).wf(),
    {
        let registry = match &self.registry {
            Some(r) => *r,
            None => {
                return Err(MarketplaceError::RegistryNotInitialized);
            },
        };
        if self.listings.contains_key(&accounts.service) {
            return Err(MarketplaceError::DuplicateListing);
        }
        if !metadata.fits_record() {
            return Err(MarketplaceError::MetadataTooLarge);
        }
        if registry.service_count == u64::MAX {
            return Err(MarketplaceError::ArithmeticOverflow);
        }
        let ghost md = metadata@;
        let entry = ListingEntry {
            service: Service {
                vendor: accounts.vendor,
                metadata,
                mint: derive_issuer_ref(accounts.service),
                is_available: true,
            },
            issuer: TokenIssuer { minted: false, holder: 0 },
        };
        self.listings.insert(accounts.service, entry);
        self.registry = Some(
            Marketplace {
                authority: registry.authority,
                service_count: registry.service_count + 1,
                royalty_percentage: registry.royalty_percentage,
            },
        );
        proof {
            assert(self@.listings =~= apply_list(old(self)@, accounts, md).0.listings);
        }
        Ok(())
    }

    /// Purchases a listed service for the calling buyer; see
    /// [`apply_purchase`] for exactly what it does and when it fails.
    pub fn purchase_service(&mut self, accounts: PurchaseService) -> (r: Result<
        (),
        MarketplaceError,
    >)
        ensures
            final(self)@ == apply_purchase(old(self)@, accounts).0,
            r == apply_purchase(old(self)@, accounts).1,
            old(self).wf() ==> final(self).wf(),
    {
        let price: u64 = match self.listings.get(&accounts.service) {
            Some(entry) => {
                if !entry.service.is_available {
                    return Err(MarketplaceError::ServiceNotAvailable);
                }
                entry.service.metadata.price
            },
            None => {
                return Err(MarketplaceError::ListingNotFound);
            },
        };
        let mut scratch = self.balances.clone();
        match transfer(
            &mut scratch,
            accounts.buyer_token_account,
            accounts.vendor_token_account,
            price,
        ) {
            Ok(()) => {},
            Err(e) => {
                return Err(e);
            },
        }
        self.balances = scratch;
        let mut entry = self.listings.remove(&accounts.service).unwrap();
        entry.service.is_available = false;
        entry.issuer = TokenIssuer { minted: true, holder: accounts.buyer_nft_account };
        self.listings.insert(accounts.service, entry);
        proof {
            assert(self@.listings =~= apply_purchase(old(self)@, accounts).0.listings);
        }
        Ok(())
    }

    /// Resells an owned service from the calling seller to the calling buyer
    /// at `new_price`; see [`apply_resell`] for exactly what it does and when
    /// it fails.
    pub fn resell_service(&mut self, accounts: ResellService, new_price: u64) -> (r: Result<
        (),
        MarketplaceError,
    >)
        requires
            old(self).wf(),
        ensures
            final(self)@ == apply_resell(old(self)@, accounts, new_price).0,
            r == apply_resell(old(self)@, accounts, new_price).1,
            final(self).wf(),
    {
        let issuer: TokenIssuer = match self.listings.get(&accounts.service) {
            Some(entry) => {
                if entry.service.metadata.is_soulbound {
                    match &self.registry {
                        Some(_) => {
                            return Err(MarketplaceError::SoulboundNFTCannotBeResold);
                        },
                        None => {
                            return Err(MarketplaceError::RegistryNotInitialized);
                        },
                    }
                }
                entry.issuer
            },
            None => {
                return Err(MarketplaceError::ListingNotFound);
            },
        };
        let registry = match &self.registry {
            Some(r) => *r,
            None => {
                return Err(MarketplaceError::RegistryNotInitialized);
            },
        };
        if !(issuer.minted && issuer.holder == accounts.seller_nft_account) {
            return Err(MarketplaceError::InsufficientFunds);
        }
        let royalty = royalty_amount(new_price, registry.royalty_percentage);
        let seller_share = seller_amount(new_price, registry.royalty_percentage);
        let mut scratch = self.balances.clone();
        match transfer(
            &mut scratch,
            accounts.buyer_token_account,
            accounts.seller_token_account,
            seller_share,
        ) {
            Ok(()) => {},
            Err(e) => {
                return Err(e);
            },
        }
        match transfer(
            &mut scratch,
            accounts.buyer_token_account,
            accounts.marketplace_token_account,
            royalty,
        ) {
            Ok(()) => {},
            Err(e) => {
                return Err(e);
            },
        }
        self.balances = scratch;
        let mut entry = self.listings.remove(&accounts.service).unwrap();
        entry.service.metadata.price = new_price;
        entry.issuer = TokenIssuer { minted: true, holder: accounts.buyer_nft_account };
        self.listings.insert(accounts.service, entry);
        proof {
            assert(self@.listings =~= apply_resell(old(self)@, accounts, new_price).0.listings);
        }
        Ok(())
    }

    /// Runs one submitted operation against the state: the dispatcher the
    /// host calls, one operation at a time.
    pub fn execute(&mut self, op: Operation) -> (r: Result<(), MarketplaceError>)
        requires
            old(self).wf(),
        ensures
            final(self)@ == apply_operation(old(self)@, op).0,
            r == apply_operation(old(self)@, op).1,
            final(self).wf(),
    {
        proof {
            crate::laws::lemma_operation_preserves_wf(self@, op);
        }
        match op {
            Operation::InitializeMarketplace { accounts, royalty_percentage } => {
                self.initialize_marketplace(accounts, royalty_percentage)
            },
            Operation::ListService { accounts, metadata } => {
                self.list_service(accounts, metadata)
            },
            Operation::PurchaseService { accounts } => { self.purchase_service(accounts) },
            Operation::ResellService { accounts, new_price } => {
                self.resell_service(accounts, new_price)
            },
        }
    }

    /// The registry record, if one was created.
    pub fn registry(&self) -> (r: Option<Marketplace>)
        ensures
            r == self@.registry,
    {
        self.registry
    }

    /// The balance of a payment-token account, if the account exists.
    pub fn balance_of(&self, account: u64) -> (r: Option<u64>)
        ensures
            r == (if self@.balances.contains_key(account) {
                Some(self@.balances[account])
            } else {
                None
            }),
    {
        match self.balances.get(&account) {
            Some(b) => Some(*b),
            None => None,
        }
    }

    /// The listing record and token line stored under `service`, if any.
    pub fn listing(&self, service: u64) -> (r: Option<&ListingEntry>)
        ensures
            match r {
                Some(entry) => self@.listings.contains_key(service) && entry@
                    == self@.listings[service],
                None => !self@.listings.contains_key(service),
            },
    {
        self.listings.get(&service)
    }
}

} // verus!
