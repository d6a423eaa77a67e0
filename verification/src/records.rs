use vstd::prelude::*;
use vstd::utf8::encode_utf8;

verus! {

/// Space, in bytes, that the host allocates for a listing's metadata at
/// creation. The encoded metadata must fit in it or the listing is refused.
pub const METADATA_SPACE: usize = 200;

/// Fixed part of the encoded metadata: a 4-byte length prefix for each of the
/// two strings, the 8-byte price, and the 1-byte soulbound flag.
pub const METADATA_FIXED_LEN: usize = 17;

/// Description of one offered service, stored inside its listing record.
///
/// `price` is updated by each successful resale; `is_soulbound` and the two
/// strings have no update path and are fixed at listing time.
pub struct ServiceMetadata {
    pub name: String,
    pub description: String,
    pub price: u64,
    pub is_soulbound: bool,
}

/// Mathematical value of a [`ServiceMetadata`] record.
#[verifier::ext_equal]
pub struct MetadataModel {
    pub name: Seq<char>,
    pub description: Seq<char>,
    pub price: u64,
    pub is_soulbound: bool,
}

impl View for ServiceMetadata {
    type V = MetadataModel;

    open spec fn view(&self) -> MetadataModel {
        MetadataModel {
            name: self.name@,
            description: self.description@,
            price: self.price,
            is_soulbound: self.is_soulbound,
        }
    }
}

/// Number of bytes the metadata occupies in its listing's record: the fixed
/// fields plus the UTF-8 encodings of the two strings.
pub open spec fn metadata_encoded_len(m: MetadataModel) -> int {
    METADATA_FIXED_LEN + encode_utf8(m.name).len() + encode_utf8(m.description).len()
}

/// The creation-time size check: the encoded metadata fits the allocated space.
pub open spec fn metadata_fits(m: MetadataModel) -> bool {
    metadata_encoded_len(m) <= METADATA_SPACE
}

impl ServiceMetadata {
    /// Decides whether this metadata fits its record, exactly as the host's
    /// allocation check at listing creation would.
    pub fn fits_record(&self) -> (r: bool)
        ensures
            r == metadata_fits(self@),
    {
        let name_len: usize = self.name.as_str().as_bytes().len();
        let description_len: usize = self.description.as_str().as_bytes().len();
        name_len <= METADATA_SPACE - METADATA_FIXED_LEN && description_len <= (METADATA_SPACE
            - METADATA_FIXED_LEN) - name_len
    }
}

/// The global marketplace registry: the operator that configured the
/// marketplace and receives resale royalties, the royalty rate, and the
/// number of services listed so far.
///
/// `authority` and `royalty_percentage` are immutable after creation;
/// `service_count` only ever grows, by one per successful listing.
#[derive(Clone, Copy, Debug, PartialEq, Eq, Structural)]
pub struct Marketplace {
    pub authority: u64,
    pub service_count: u64,
    pub royalty_percentage: u8,
}

impl Marketplace {
    /// The registry's creation-time invariant: the royalty rate is a
    /// percentage, between 0 and 100 inclusive.
    pub open spec fn wf(self) -> bool {
        self.royalty_percentage <= 100
    }
}

/// One listed service: who offered it, its metadata, the reference of its
/// ownership-token issuer, and whether it can still be purchased.
///
/// `vendor`, `mint` and the metadata strings are fixed at creation;
/// `is_available` starts `true` and is cleared by the one successful
/// purchase; `metadata.price` is rewritten by each successful resale.
pub struct Service {
    pub vendor: u64,
    pub metadata: ServiceMetadata,
    pub mint: u64,
    pub is_available: bool,
}

/// Mathematical value of a [`Service`] record.
#[verifier::ext_equal]
pub struct ListingModel {
    pub vendor: u64,
    pub metadata: MetadataModel,
    pub mint: u64,
    pub is_available: bool,
}

impl View for Service {
    type V = ListingModel;

    open spec fn view(&self) -> ListingModel {
        ListingModel {
            vendor: self.vendor,
            metadata: self.metadata@,
            mint: self.mint,
            is_available: self.is_available,
        }
    }
}

/// The ownership-token line of one listing. Its authority is not a key held
/// by anyone: it is derived from the listing's identifier and only the engine
/// itself can exercise it, so the single unit is minted exactly once, during
/// purchase, and never again.
///
/// `holder` is the token account holding the one unit, meaningful only once
/// `minted` is set.
#[derive(Clone, Copy, Debug, PartialEq, Eq, Structural)]
pub struct TokenIssuer {
    pub minted: bool,
    pub holder: u64,
}

/// The issuer reference derived from a listing's identifier. Anyone can
/// re-derive it to check which token line belongs to which listing; the
/// model's derivation is the identity map on identifiers.
pub open spec fn derived_issuer_ref(service_id: u64) -> u64 {
    service_id
}

/// Re-derives the issuer reference of a listing from its identifier.
pub fn derive_issuer_ref(service_id: u64) -> (r: u64)
    ensures
        r == derived_issuer_ref(service_id),
{
    service_id
}

/// A listing record together with its ownership-token line, as the store
/// keeps them: the token line is created with the listing and scoped to it.
pub struct ListingEntry {
    pub service: Service,
    pub issuer: TokenIssuer,
}

/// Mathematical value of a [`ListingEntry`].
#[verifier::ext_equal]
pub struct EntryModel {
    pub service: ListingModel,
    pub issuer: TokenIssuer,
}

impl View for ListingEntry {
    type V = EntryModel;

    open spec fn view(&self) -> EntryModel {
        EntryModel { service: self.service@, issuer: self.issuer }
    }
}

} // verus!
