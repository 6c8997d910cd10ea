use vstd::prelude::*;

verus! {

// Length caps for the variable-length record fields. Strings are stored as
// length-prefixed byte strings, so every record has a fixed maximum size and
// its storage slot can be allocated up front.
pub const MAX_NAME_LEN: usize = 64;
pub const MAX_URI_LEN: usize = 200;
pub const MAX_TITLE_LEN: usize = 80;
pub const MAX_DESC_LEN: usize = 512;
pub const MAX_COMMENT_LEN: usize = 280;

/// Identity of a registering party; created once per identity.
#[derive(Clone, Debug, PartialEq, Eq)]
pub struct Merchant {
    pub merchant: [u8; 32],
    pub name: Vec<u8>,
    pub uri: Vec<u8>,
    pub total_deals: u32,
    pub collection_mint: [u8; 32],
}

/// Mathematical model of a `Merchant` record.
#[verifier::ext_equal]
pub ghost struct MerchantV {
    pub merchant: Seq<u8>,
    pub name: Seq<u8>,
    pub uri: Seq<u8>,
    pub total_deals: u32,
    pub collection_mint: Seq<u8>,
}

impl View for Merchant {
    type V = MerchantV;

    open spec fn view(&self) -> MerchantV {
        MerchantV {
            merchant: self.merchant@,
            name: self.name@,
            uri: self.uri@,
            total_deals: self.total_deals,
            collection_mint: self.collection_mint@,
        }
    }
}

/// What any merchant record must satisfy for its fields to fit their
/// length prefixes; decoded records always do.
pub open spec fn merchant_sizes_ok(m: MerchantV) -> bool {
    &&& m.merchant.len() == 32
    &&& m.collection_mint.len() == 32
    &&& m.name.len() < 0x1_0000_0000
    &&& m.uri.len() < 0x1_0000_0000
}

pub open spec fn merchant_valid(m: MerchantV) -> bool {
    &&& m.merchant.len() == 32
    &&& m.collection_mint.len() == 32
    &&& m.name.len() <= MAX_NAME_LEN
    &&& m.uri.len() <= MAX_URI_LEN
}

impl Merchant {
    /// Storage size reserved for a merchant record: enough for the longest
    /// name and uri the validator accepts.
    pub fn space() -> (r: usize)
        ensures
            r == 340,
    {
        32 + 4 + MAX_NAME_LEN + 4 + MAX_URI_LEN + 4 + 32
    }
}

/// A supply-limited offer, scoped to its merchant by a numeric id.
#[derive(Clone, Debug, PartialEq, Eq)]
pub struct Deal {
    pub deal_id: u64,
    pub merchant: [u8; 32],
    pub title: Vec<u8>,
    pub description: Vec<u8>,
    pub discount_percent: u8,
    pub expiry: i64,
    pub total_supply: u32,
    pub minted: u32,
    pub image_uri: Vec<u8>,
    pub metadata_uri: Vec<u8>,
}

/// Mathematical model of a `Deal` record.
#[verifier::ext_equal]
pub ghost struct DealV {
    pub deal_id: u64,
    pub merchant: Seq<u8>,
    pub title: Seq<u8>,
    pub description: Seq<u8>,
    pub discount_percent: u8,
    pub expiry: i64,
    pub total_supply: u32,
    pub minted: u32,
    pub image_uri: Seq<u8>,
    pub metadata_uri: Seq<u8>,
}

impl View for Deal {
    type V = DealV;

    open spec fn view(&self) -> DealV {
        DealV {
            deal_id: self.deal_id,
            merchant: self.merchant@,
            title: self.title@,
            description: self.description@,
            discount_percent: self.discount_percent,
            expiry: self.expiry,
            total_supply: self.total_supply,
            minted: self.minted,
            image_uri: self.image_uri@,
            metadata_uri: self.metadata_uri@,
        }
    }
}

/// Field sizes that fit their length prefixes; decoded records always do.
pub open spec fn deal_sizes_ok(d: DealV) -> bool {
    &&& d.merchant.len() == 32
    &&& d.title.len() < 0x1_0000_0000
    &&& d.description.len() < 0x1_0000_0000
    &&& d.image_uri.len() < 0x1_0000_0000
    &&& d.metadata_uri.len() < 0x1_0000_0000
}

pub open spec fn deal_valid(d: DealV) -> bool {
    &&& d.merchant.len() == 32
    &&& d.title.len() <= MAX_TITLE_LEN
    &&& d.description.len() <= MAX_DESC_LEN
    &&& d.image_uri.len() <= MAX_URI_LEN
    &&& d.metadata_uri.len() <= MAX_URI_LEN
}

impl Deal {
    /// Storage size reserved for a deal record.
    pub fn space() -> (r: usize)
        ensures
            r == 1065,
    {
        8 + 32 + 4 + MAX_TITLE_LEN + 4 + MAX_DESC_LEN + 1 + 8 + 4 + 4 + 4 + MAX_URI_LEN + 4
            + MAX_URI_LEN
    }
}

/// One user's rating of a deal; at most one per user and deal pair,
/// enforced by address derivation.
#[derive(Clone, Debug, PartialEq, Eq)]
pub struct Review {
    pub user: [u8; 32],
    pub deal: [u8; 32],
    pub rating: u8,
    pub comment: Vec<u8>,
    pub created_at: i64,
}

/// Mathematical model of a `Review` record.
#[verifier::ext_equal]
pub ghost struct ReviewV {
    pub user: Seq<u8>,
    pub deal: Seq<u8>,
    pub rating: u8,
    pub comment: Seq<u8>,
    pub created_at: i64,
}

impl View for Review {
    type V = ReviewV;

    open spec fn view(&self) -> ReviewV {
        ReviewV {
            user: self.user@,
            deal: self.deal@,
            rating: self.rating,
            comment: self.comment@,
            created_at: self.created_at,
        }
    }
}

/// Field sizes that fit their length prefixes; decoded records always do.
pub open spec fn review_sizes_ok(r: ReviewV) -> bool {
    &&& r.user.len() == 32
    &&& r.deal.len() == 32
    &&& r.comment.len() < 0x1_0000_0000
}

pub open spec fn review_valid(r: ReviewV) -> bool {
    &&& r.user.len() == 32
    &&& r.deal.len() == 32
    &&& r.comment.len() <= MAX_COMMENT_LEN
}

impl Review {
    /// Storage size reserved for a review record.
    pub fn space() -> (r: usize)
        ensures
            r == 357,
    {
        32 + 32 + 1 + 4 + MAX_COMMENT_LEN + 8
    }
}

/// One-time, irreversible fact that a token was redeemed.
#[derive(Clone, Debug, PartialEq, Eq)]
pub struct RedeemLog {
    pub token_mint: [u8; 32],
    pub user: [u8; 32],
    pub redeemed_at: i64,
}

/// Mathematical model of a `RedeemLog` record.
#[verifier::ext_equal]
pub ghost struct RedeemLogV {
    pub token_mint: Seq<u8>,
    pub user: Seq<u8>,
    pub redeemed_at: i64,
}

impl View for RedeemLog {
    type V = RedeemLogV;

    open spec fn view(&self) -> RedeemLogV {
        RedeemLogV {
            token_mint: self.token_mint@,
            user: self.user@,
            redeemed_at: self.redeemed_at,
        }
    }
}

pub open spec fn redeem_log_valid(l: RedeemLogV) -> bool {
    &&& l.token_mint.len() == 32
    &&& l.user.len() == 32
}

impl RedeemLog {
    /// Storage size reserved for a redeem log record.
    pub fn space() -> (r: usize)
        ensures
            r == 72,
    {
        32 + 32 + 8
    }
}

/// An escrow-backed offer to sell one token; consumed by the purchase.
#[derive(Clone, Debug, PartialEq, Eq)]
pub struct Listing {
    pub seller: [u8; 32],
    pub nft_mint: [u8; 32],
    pub price: u64,
    pub created_at: i64,
}

/// Mathematical model of a `Listing` record.
#[verifier::ext_equal]
pub ghost struct ListingV {
    pub seller: Seq<u8>,
    pub nft_mint: Seq<u8>,
    pub price: u64,
    pub created_at: i64,
}

impl View for Listing {
    type V = ListingV;

    open spec fn view(&self) -> ListingV {
        ListingV {
            seller: self.seller@,
            nft_mint: self.nft_mint@,
            price: self.price,
            created_at: self.created_at,
        }
    }
}

pub open spec fn listing_valid(l: ListingV) -> bool {
    &&& l.seller.len() == 32
    &&& l.nft_mint.len() == 32
}

impl Listing {
    /// Storage size reserved for a listing record.
    pub fn space() -> (r: usize)
        ensures
            r == 80,
    {
        32 + 32 + 8 + 8
    }
}

} // verus!
