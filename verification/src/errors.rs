use vstd::prelude::*;

verus! {

/// Every way an operation can fail. Each failure is fatal to the single
/// operation that raised it and leaves no observable effect on the state.
///
/// Three groups share the one type, mirroring where the fault lies:
/// validation errors (a caller broke a precondition), record-store errors
/// (the host refused a duplicate or missing record), and value-movement
/// errors (the token ledger refused a transfer or mint).
#[derive(Clone, Copy, Debug, PartialEq, Eq, Structural)]
pub enum MarketplaceError {
    /// Validation: `initialize_marketplace` was given a royalty rate above 100.
    InvalidRoyaltyPercentage,
    /// Validation: the listing was already purchased, so it cannot be bought again.
    ServiceNotAvailable,
    /// Validation: the listing is soulbound, so its ownership token cannot move again.
    SoulboundNFTCannotBeResold,
    /// Record store: the registry record already exists.
    AlreadyInitialized,
    /// Record store: the registry record does not exist yet.
    RegistryNotInitialized,
    /// Record store: no listing record exists under the given identifier.
    ListingNotFound,
    /// Record store: a listing record already exists under the given identifier.
    DuplicateListing,
    /// Record store: the listing's metadata does not fit the space the host
    /// allocates for it at creation.
    MetadataTooLarge,
    /// Token ledger: a payment account named by the operation does not exist.
    MissingTokenAccount,
    /// Token ledger: the paying account holds less than the requested amount.
    InsufficientFunds,
    /// A counter or balance would exceed the 64-bit range.
    ArithmeticOverflow,
}

} // verus!
