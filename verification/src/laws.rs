use vstd::prelude::*;

use crate::account::{AccountV, ActionV};
use crate::codec::{
    lemma_enc_deal_len, lemma_enc_listing_len, lemma_enc_merchant_len, lemma_enc_redeem_log_len,
    lemma_enc_review_len,
    created_data, enc_listing, enc_merchant, enc_merchant_len, enc_redeem_log, enc_review,
    enc_review_len, enc_deal, enc_deal_len, lemma_deal_round_trip, lemma_listing_round_trip,
    lemma_merchant_round_trip, lemma_parse_u32_at, lemma_redeem_log_round_trip,
    lemma_review_round_trip, p_arr32, p_bytes, parse_deal, parse_listing, parse_merchant,
    parse_redeem_log, parse_review, u32_bytes, zeros,
};
use crate::error::DealError;
use crate::pda::{deal_pda, escrow_pda, listing_pda, merchant_pda, redeem_pda, review_pda};
use crate::processor::{
    add_review_outcome, buy_nft_outcome, create_deal_outcome, exact_parse_listing,
    list_nft_outcome, mint_step, new_merchant, redeem_and_burn_outcome, redeem_outcome,
    register_merchant_outcome, verify_step, with_data,
};
use crate::state::{
    deal_valid, listing_valid, merchant_valid, redeem_log_valid, review_valid, DealV, ListingV,
    MerchantV, RedeemLogV, ReviewV, MAX_COMMENT_LEN, MAX_DESC_LEN, MAX_NAME_LEN, MAX_TITLE_LEN,
    MAX_URI_LEN,
};

verus! {

// ---------------------------------------------------------------------------
// Truncated buffers never decode: cutting an encoding anywhere before its
// end makes the parse fail, rather than read out of bounds or yield a value.
// ---------------------------------------------------------------------------

proof fn lemma_take_subrange(s: Seq<u8>, k: int, i: int, j: int)
    requires
        0 <= i <= j <= k <= s.len(),
    ensures
        s.take(k).subrange(i, j) == s.subrange(i, j),
{
    assert(s.take(k).subrange(i, j) =~= s.subrange(i, j));
}

/// Decoding a truncated merchant record fails.
#[verifier::rlimit(100)]
pub proof fn lemma_merchant_decode_truncated(m: MerchantV, k: int)
    requires
        merchant_valid(m),
        0 <= k < enc_merchant_len(m),
    ensures
        parse_merchant(enc_merchant(m).take(k)) is None,
{
    let e = enc_merchant(m);
    let nl = m.name.len() as int;
    let ul = m.uri.len() as int;
    let t = e.take(k);
    let nl32 = m.name.len() as u32;
    let ul32 = m.uri.len() as u32;
    if k < 32 {
    } else {
        assert(e.subrange(32, 36) =~= u32_bytes(nl32));
        if k >= 36 {
            lemma_take_subrange(e, k, 32, 36);
            lemma_parse_u32_at(t, 32, nl32);
            if k >= 36 + nl {
                lemma_take_subrange(e, k, 36, 36 + nl);
                assert(e.subrange(36, 36 + nl) =~= m.name);
                assert(p_bytes(t, 32) == Some(m.name));
                let i1 = 36 + nl;
                assert(e.subrange(i1, i1 + 4) =~= u32_bytes(ul32));
                if k >= i1 + 4 {
                    lemma_take_subrange(e, k, i1, i1 + 4);
                    lemma_parse_u32_at(t, i1, ul32);
                    if k >= i1 + 4 + ul {
                        lemma_take_subrange(e, k, i1 + 4, i1 + 4 + ul);
                        assert(e.subrange(i1 + 4, i1 + 4 + ul) =~= m.uri);
                        assert(p_bytes(t, i1) == Some(m.uri));
                        let i2 = i1 + 4 + ul;
                        // the final fixed fields cannot fit before the cut
                        assert(i2 + 36 > k);
                        assert(p_arr32(t, i2 + 4) is None);
                    }
                }
            }
        }
    }
}

/// Decoding a truncated redeem log fails.
pub proof fn lemma_redeem_log_decode_truncated(l: RedeemLogV, k: int)
    requires
        redeem_log_valid(l),
        0 <= k < 72,
    ensures
        parse_redeem_log(enc_redeem_log(l).take(k)) is None,
{
    let e = enc_redeem_log(l);
    let t = e.take(k);
    assert(t.len() == k < 72);
}

/// Decoding a truncated listing fails.
pub proof fn lemma_listing_decode_truncated(l: ListingV, k: int)
    requires
        listing_valid(l),
        0 <= k < 80,
    ensures
        parse_listing(enc_listing(l).take(k)) is None,
{
    let e = enc_listing(l);
    let t = e.take(k);
    assert(t.len() == k < 80);
}

/// Decoding a truncated review fails.
#[verifier::rlimit(100)]
pub proof fn lemma_review_decode_truncated(r: ReviewV, k: int)
    requires
        review_valid(r),
        0 <= k < enc_review_len(r),
    ensures
        parse_review(enc_review(r).take(k)) is None,
{
    let e = enc_review(r);
    let cl = r.comment.len() as int;
    let cl32 = r.comment.len() as u32;
    let t = e.take(k);
    if k >= 65 {
        assert(e.subrange(65, 69) =~= u32_bytes(cl32));
        if k >= 69 {
            lemma_take_subrange(e, k, 65, 69);
            lemma_parse_u32_at(t, 65, cl32);
            if k >= 69 + cl {
                lemma_take_subrange(e, k, 69, 69 + cl);
                assert(e.subrange(69, 69 + cl) =~= r.comment);
                assert(p_bytes(t, 65) == Some(r.comment));
                // the trailing timestamp cannot fit before the cut
                assert(69 + cl + 8 > k);
            }
        }
    }
}

/// Decoding a truncated deal record fails.
#[verifier::rlimit(100)]
pub proof fn lemma_deal_decode_truncated(d: DealV, k: int)
    requires
        deal_valid(d),
        0 <= k < enc_deal_len(d),
    ensures
        parse_deal(enc_deal(d).take(k)) is None,
{
    let e = enc_deal(d);
    let tl = d.title.len() as int;
    let dl = d.description.len() as int;
    let il = d.image_uri.len() as int;
    let ml = d.metadata_uri.len() as int;
    let t = e.take(k);
    let tl32 = d.title.len() as u32;
    let dl32 = d.description.len() as u32;
    let il32 = d.image_uri.len() as u32;
    let ml32 = d.metadata_uri.len() as u32;
    if k >= 40 {
        assert(e.subrange(40, 44) =~= u32_bytes(tl32));
        if k >= 44 {
            lemma_take_subrange(e, k, 40, 44);
            lemma_parse_u32_at(t, 40, tl32);
            if k >= 44 + tl {
                lemma_take_subrange(e, k, 44, 44 + tl);
                assert(e.subrange(44, 44 + tl) =~= d.title);
                assert(p_bytes(t, 40) == Some(d.title));
                let i1 = 44 + tl;
                assert(e.subrange(i1, i1 + 4) =~= u32_bytes(dl32));
                if k >= i1 + 4 {
                    lemma_take_subrange(e, k, i1, i1 + 4);
                    lemma_parse_u32_at(t, i1, dl32);
                    if k >= i1 + 4 + dl {
                        lemma_take_subrange(e, k, i1 + 4, i1 + 4 + dl);
                        assert(e.subrange(i1 + 4, i1 + 4 + dl) =~= d.description);
                        assert(p_bytes(t, i1) == Some(d.description));
                        let i2 = i1 + 4 + dl;
                        if k >= i2 + 21 {
                            assert(e.subrange(i2 + 17, i2 + 21) =~= u32_bytes(il32));
                            lemma_take_subrange(e, k, i2 + 17, i2 + 21);
                            lemma_parse_u32_at(t, i2 + 17, il32);
                            if k >= i2 + 21 + il {
                                lemma_take_subrange(e, k, i2 + 21, i2 + 21 + il);
                                assert(e.subrange(i2 + 21, i2 + 21 + il) =~= d.image_uri);
                                assert(p_bytes(t, i2 + 17) == Some(d.image_uri));
                                let i3 = i2 + 21 + il;
                                assert(e.subrange(i3, i3 + 4) =~= u32_bytes(ml32));
                                if k >= i3 + 4 {
                                    lemma_take_subrange(e, k, i3, i3 + 4);
                                    lemma_parse_u32_at(t, i3, ml32);
                                    // the metadata bytes cannot fit before the cut
                                    assert(i3 + 4 + ml > k);
                                }
                            }
                        }
                    }
                }
            }
        }
    }
}

// ---------------------------------------------------------------------------
// A freshly created slot, a record written into its zeroed space, reads
// back as exactly that record.
// ---------------------------------------------------------------------------

pub proof fn lemma_created_merchant_parses(m: MerchantV)
    requires
        merchant_valid(m),
    ensures
        parse_merchant(created_data(enc_merchant(m), 340)) == Some((m, enc_merchant_len(m))),
        created_data(enc_merchant(m), 340).len() == 340,
{
    lemma_enc_merchant_len(m);
    lemma_merchant_round_trip(m, zeros(340 - enc_merchant_len(m)));
    assert(created_data(enc_merchant(m), 340) == enc_merchant(m) + zeros(
        340 - enc_merchant_len(m),
    ));
}

pub proof fn lemma_created_deal_parses(d: DealV)
    requires
        deal_valid(d),
    ensures
        parse_deal(created_data(enc_deal(d), 1065)) == Some((d, enc_deal_len(d))),
        created_data(enc_deal(d), 1065).len() == 1065,
{
    lemma_enc_deal_len(d);
    lemma_deal_round_trip(d, zeros(1065 - enc_deal_len(d)));
    assert(created_data(enc_deal(d), 1065) == enc_deal(d) + zeros(1065 - enc_deal_len(d)));
}

pub proof fn lemma_created_review_parses(r: ReviewV)
    requires
        review_valid(r),
    ensures
        parse_review(created_data(enc_review(r), 357)) == Some((r, enc_review_len(r))),
        created_data(enc_review(r), 357).len() == 357,
{
    lemma_enc_review_len(r);
    lemma_review_round_trip(r, zeros(357 - enc_review_len(r)));
    assert(created_data(enc_review(r), 357) == enc_review(r) + zeros(357 - enc_review_len(r)));
}

pub proof fn lemma_created_redeem_log_parses(l: RedeemLogV)
    requires
        redeem_log_valid(l),
    ensures
        parse_redeem_log(created_data(enc_redeem_log(l), 72)) == Some((l, 72int)),
        created_data(enc_redeem_log(l), 72).len() == 72,
{
    lemma_enc_redeem_log_len(l);
    lemma_redeem_log_round_trip(l, zeros(0));
    assert(created_data(enc_redeem_log(l), 72) == enc_redeem_log(l) + zeros(0));
}

pub proof fn lemma_created_listing_parses(l: ListingV)
    requires
        listing_valid(l),
    ensures
        parse_listing(created_data(enc_listing(l), 80)) == Some((l, 80int)),
        created_data(enc_listing(l), 80).len() == 80,
        exact_parse_listing(created_data(enc_listing(l), 80)) == Some(l),
{
    lemma_enc_listing_len(l);
    lemma_listing_round_trip(l, zeros(0));
    assert(created_data(enc_listing(l), 80) == enc_listing(l) + zeros(0));
}

// ---------------------------------------------------------------------------
// One-time creation: each creation operation writes exactly the record it
// promises, and its replay is rejected.
// ---------------------------------------------------------------------------

/// A valid registration succeeds, stores a merchant record with a zero deal
/// counter at the derived address, and a second registration for the same
/// identity is rejected as already initialized.
pub proof fn lemma_register_merchant_once(
    program_id: Seq<u8>,
    payer: AccountV,
    pda: AccountV,
    name: Seq<u8>,
    uri: Seq<u8>,
)
    requires
        payer.address.len() == 32,
        name.len() <= MAX_NAME_LEN,
        uri.len() <= MAX_URI_LEN,
        payer.is_signer,
        pda.address == merchant_pda(payer.address, program_id),
        pda.data.len() == 0,
    ensures
        ({
            let o = register_merchant_outcome(program_id, payer, pda, name, uri);
            let m = new_merchant(payer.address, name, uri);
            &&& o is Ok
            &&& parse_merchant(o->Ok_0.0) == Some((m, enc_merchant_len(m)))
            &&& m.total_deals == 0
            &&& register_merchant_outcome(program_id, payer, with_data(pda, o->Ok_0.0), name, uri)
                == Err::<(Seq<u8>, Seq<ActionV>), DealError>(DealError::AlreadyInitialized)
        }),
{
    let m = new_merchant(payer.address, name, uri);
    let o = register_merchant_outcome(program_id, payer, pda, name, uri);
    assert(o is Ok && o->Ok_0.0 == created_data(enc_merchant(m), 340));
    lemma_created_merchant_parses(m);
}

/// A first redemption succeeds and stamps the log with the clock value it
/// was handed; a second redemption of the same token, with or without a
/// burn, is rejected as already redeemed.
pub proof fn lemma_redeem_once(
    program_id: Seq<u8>,
    user: AccountV,
    user_token: AccountV,
    mint_ai: AccountV,
    log_ai: AccountV,
    mint: Seq<u8>,
    now: i64,
    later: i64,
)
    requires
        user.is_signer,
        user.address.len() == 32,
        mint.len() == 32,
        mint_ai.address == mint,
        log_ai.address == redeem_pda(mint, program_id),
        log_ai.data.len() == 0,
    ensures
        ({
            let o = redeem_outcome(program_id, user, log_ai, mint, now);
            let l = RedeemLogV { token_mint: mint, user: user.address, redeemed_at: now };
            &&& o is Ok
            &&& parse_redeem_log(o->Ok_0.0) == Some((l, 72int))
            &&& redeem_outcome(program_id, user, with_data(log_ai, o->Ok_0.0), mint, later)
                == Err::<(Seq<u8>, Seq<ActionV>), DealError>(DealError::AlreadyRedeemed)
            &&& redeem_and_burn_outcome(
                program_id,
                user,
                user_token,
                mint_ai,
                with_data(log_ai, o->Ok_0.0),
                mint,
                later,
            ) == Err::<(Seq<u8>, Seq<ActionV>), DealError>(DealError::AlreadyRedeemed)
        }),
{
    let l = RedeemLogV { token_mint: mint, user: user.address, redeemed_at: now };
    let o = redeem_outcome(program_id, user, log_ai, mint, now);
    assert(o is Ok && o->Ok_0.0 == created_data(enc_redeem_log(l), 72));
    lemma_created_redeem_log_parses(l);
}

/// A valid review succeeds with any rating from one to five, stores the
/// rating, comment and timestamp it was given, and a second review by the
/// same user for the same deal is rejected; ratings outside the range are
/// invalid input.
pub proof fn lemma_add_review_once(
    program_id: Seq<u8>,
    user: AccountV,
    merchant_ai: AccountV,
    deal_ai: AccountV,
    review_ai: AccountV,
    deal_id: u64,
    rating: u8,
    comment: Seq<u8>,
    now: i64,
    later: i64,
)
    requires
        1 <= rating <= 5,
        comment.len() <= MAX_COMMENT_LEN,
        user.is_signer,
        user.address.len() == 32,
        deal_ai.address.len() == 32,
        parse_merchant(merchant_ai.data) is Some,
        deal_ai.address == deal_pda(
            parse_merchant(merchant_ai.data)->Some_0.0.merchant,
            deal_id,
            program_id,
        ),
        review_ai.address == review_pda(deal_ai.address, user.address, program_id),
        review_ai.data.len() == 0,
    ensures
        ({
            let o = add_review_outcome(
                program_id,
                user,
                merchant_ai,
                deal_ai,
                review_ai,
                deal_id,
                rating,
                comment,
                now,
            );
            let v = ReviewV {
                user: user.address,
                deal: deal_ai.address,
                rating,
                comment,
                created_at: now,
            };
            &&& o is Ok
            &&& parse_review(o->Ok_0.0) == Some((v, enc_review_len(v)))
            &&& add_review_outcome(
                program_id,
                user,
                merchant_ai,
                deal_ai,
                with_data(review_ai, o->Ok_0.0),
                deal_id,
                rating,
                comment,
                later,
            ) == Err::<(Seq<u8>, Seq<ActionV>), DealError>(DealError::AlreadyInitialized)
        }),
{
    let v = ReviewV { user: user.address, deal: deal_ai.address, rating, comment, created_at: now };
    let o = add_review_outcome(
        program_id,
        user,
        merchant_ai,
        deal_ai,
        review_ai,
        deal_id,
        rating,
        comment,
        now,
    );
    assert(o is Ok && o->Ok_0.0 == created_data(enc_review(v), 357));
    lemma_created_review_parses(v);
}

/// A rating of zero, or above five, is rejected as invalid input before
/// anything else is looked at.
pub proof fn lemma_review_rating_bounds(
    program_id: Seq<u8>,
    user: AccountV,
    merchant_ai: AccountV,
    deal_ai: AccountV,
    review_ai: AccountV,
    deal_id: u64,
    rating: u8,
    comment: Seq<u8>,
    now: i64,
)
    requires
        rating == 0 || rating > 5,
    ensures
        add_review_outcome(
            program_id,
            user,
            merchant_ai,
            deal_ai,
            review_ai,
            deal_id,
            rating,
            comment,
            now,
        ) == Err::<(Seq<u8>, Seq<ActionV>), DealError>(DealError::InvalidInput),
{
}

// ---------------------------------------------------------------------------
// Supply discipline: a fresh deal starts at zero, no policy ever counts
// past the supply, and a full deal refuses the next coupon.
// ---------------------------------------------------------------------------

/// A created deal starts with nothing minted. The premises render the
/// operation's preconditions in the model: the merchant and deal addresses
/// equal their derivations, the merchant slot is populated and the deal
/// slot empty.
#[verifier::rlimit(100)]
pub proof fn lemma_create_deal_starts_at_zero(
    program_id: Seq<u8>,
    payer: AccountV,
    merchant_ai: AccountV,
    deal_ai: AccountV,
    deal_id: u64,
    title: Seq<u8>,
    description: Seq<u8>,
    discount_percent: u8,
    expiry: i64,
    total_supply: u32,
    image_uri: Seq<u8>,
    metadata_uri: Seq<u8>,
)
    requires
        payer.address.len() == 32,
        title.len() <= MAX_TITLE_LEN,
        description.len() <= MAX_DESC_LEN,
        image_uri.len() <= MAX_URI_LEN,
        metadata_uri.len() <= MAX_URI_LEN,
        payer.is_signer,
        merchant_ai.address == merchant_pda(payer.address, program_id),
        merchant_ai.data.len() > 0,
        deal_ai.address == deal_pda(payer.address, deal_id, program_id),
        deal_ai.data.len() == 0,
    ensures
        ({
            let o = create_deal_outcome(
                program_id,
                payer,
                merchant_ai,
                deal_ai,
                deal_id,
                title,
                description,
                discount_percent,
                expiry,
                total_supply,
                image_uri,
                metadata_uri,
            );
            &&& o is Ok
            &&& parse_deal(o->Ok_0.1) matches Some(p) && p.0.minted == 0 && p.0.total_supply
                == total_supply && p.0.deal_id == deal_id
        }),
{
    let d = DealV {
        deal_id,
        merchant: payer.address,
        title,
        description,
        discount_percent,
        expiry,
        total_supply,
        minted: 0,
        image_uri,
        metadata_uri,
    };
    let o = create_deal_outcome(
        program_id,
        payer,
        merchant_ai,
        deal_ai,
        deal_id,
        title,
        description,
        discount_percent,
        expiry,
        total_supply,
        image_uri,
        metadata_uri,
    );
    assert(o is Ok && o->Ok_0.1 == created_data(enc_deal(d), 1065));
    lemma_created_deal_parses(d);
}

/// Neither supply policy counts past the total supply, and each success
/// counts exactly one coupon.
pub proof fn lemma_mint_bounded(d: DealV)
    ensures
        mint_step(d) matches Ok(d2) ==> d2.minted == d.minted + 1 && d2.minted <= d.total_supply,
        verify_step(d) matches Ok(d2) ==> d2.minted == d.minted + 1 && d2.minted <= d.total_supply,
{
}

/// A deal at capacity refuses the next coupon under both policies, leaving
/// the counter where it is; the post-check policy reports Overflow instead
/// when the counter itself cannot go further.
pub proof fn lemma_mint_past_capacity(d: DealV)
    requires
        d.minted == d.total_supply,
    ensures
        d.total_supply < 0xffff_ffffu32 ==> mint_step(d) == Err::<DealV, DealError>(
            DealError::DealSoldOut,
        ),
        verify_step(d) == Err::<DealV, DealError>(DealError::DealSoldOut),
{
}

/// The two supply policies check in different orders: with the counter at
/// its ceiling the post-check policy reports the counter overflow, while
/// the pre-check policy reports the sell-out it sees first.
pub proof fn lemma_mint_policy_difference(d: DealV)
    requires
        d.minted == 0xffff_ffffu32,
        d.total_supply == 0xffff_ffffu32,
    ensures
        mint_step(d) == Err::<DealV, DealError>(DealError::Overflow),
        verify_step(d) == Err::<DealV, DealError>(DealError::DealSoldOut),
{
}

/// The deal after `n` coupons are minted one at a time.
pub open spec fn mint_n(d: DealV, n: nat) -> Result<DealV, DealError>
    decreases n,
{
    if n == 0 {
        Ok(d)
    } else {
        match mint_n(d, (n - 1) as nat) {
            Err(e) => Err(e),
            Ok(d2) => mint_step(d2),
        }
    }
}

/// From a fresh deal, minting succeeds exactly `total_supply` times; the
/// next attempt is refused as sold out, with the counter resting at the
/// supply. (A supply at the counter's own ceiling reports Overflow on the
/// extra attempt instead, so it is left out here.)
pub proof fn lemma_mint_exactly_supply(d: DealV, n: nat)
    requires
        d.minted == 0,
        d.total_supply < 0xffff_ffffu32,
        n <= d.total_supply,
    ensures
        mint_n(d, n) matches Ok(d2) && d2.minted == n && d2.total_supply == d.total_supply,
        n == d.total_supply ==> mint_n(d, n + 1) == Err::<DealV, DealError>(DealError::DealSoldOut),
    decreases n,
{
    if n > 0 {
        lemma_mint_exactly_supply(d, (n - 1) as nat);
    }
    if n == d.total_supply {
        let dn = mint_n(d, n)->Ok_0;
        lemma_mint_past_capacity(dn);
        assert(mint_n(d, n + 1) == mint_step(dn));
    }
}

// ---------------------------------------------------------------------------
// The listing and escrow flow: what a listing stores, what a purchase pays
// and ships, and that a tampered seller is refused.
// ---------------------------------------------------------------------------

/// A valid listing into an empty slot at the derived address stores the
/// seller, token and price it was given; re-listing over the populated slot
/// is rejected as already initialized, leaving the record as it was.
pub proof fn lemma_list_nft_records(
    program_id: Seq<u8>,
    seller: AccountV,
    listing_ai: AccountV,
    nft_mint_ai: AccountV,
    seller_token_ai: AccountV,
    escrow_token_ai: AccountV,
    price: u64,
    now: i64,
    later: i64,
)
    requires
        seller.is_signer,
        seller.address.len() == 32,
        nft_mint_ai.address.len() == 32,
        price > 0,
        listing_ai.address == listing_pda(nft_mint_ai.address, seller.address, program_id),
        listing_ai.data.len() == 0,
    ensures
        ({
            let o = list_nft_outcome(
                program_id,
                seller,
                listing_ai,
                nft_mint_ai,
                seller_token_ai,
                escrow_token_ai,
                price,
                now,
            );
            let l = ListingV {
                seller: seller.address,
                nft_mint: nft_mint_ai.address,
                price,
                created_at: now,
            };
            &&& o is Ok
            &&& exact_parse_listing(o->Ok_0.0) == Some(l)
            &&& list_nft_outcome(
                program_id,
                seller,
                with_data(listing_ai, o->Ok_0.0),
                nft_mint_ai,
                seller_token_ai,
                escrow_token_ai,
                price,
                later,
            ) == Err::<(Seq<u8>, Seq<ActionV>), DealError>(DealError::AlreadyInitialized)
        }),
{
    let l = ListingV {
        seller: seller.address,
        nft_mint: nft_mint_ai.address,
        price,
        created_at: now,
    };
    let o = list_nft_outcome(
        program_id,
        seller,
        listing_ai,
        nft_mint_ai,
        seller_token_ai,
        escrow_token_ai,
        price,
        now,
    );
    assert(o is Ok && o->Ok_0.0 == created_data(enc_listing(l), 80));
    lemma_created_listing_parses(l);
}

/// A purchase of an intact listing credits the listing's reclaimed balance
/// to the seller and requests the price payment and the escrowed token's
/// move to the buyer, in that order. The premises render the purchase
/// preconditions in the model: the listing and escrow addresses equal their
/// derivations, the slot holds exactly its 80-byte encoding, and the
/// seller's credited balance fits a u64.
pub proof fn lemma_buy_pays_seller_and_ships_token(
    program_id: Seq<u8>,
    buyer: AccountV,
    seller: AccountV,
    listing_ai: AccountV,
    nft_mint_ai: AccountV,
    escrow_pda_ai: AccountV,
    escrow_token_ai: AccountV,
    buyer_token_ai: AccountV,
)
    requires
        buyer.is_signer,
        listing_ai.address == listing_pda(nft_mint_ai.address, seller.address, program_id),
        exact_parse_listing(listing_ai.data) is Some,
        exact_parse_listing(listing_ai.data)->Some_0.seller == seller.address,
        escrow_pda_ai.address == escrow_pda(nft_mint_ai.address, program_id),
        seller.lamports + listing_ai.lamports <= u64::MAX,
    ensures
        ({
            let o = buy_nft_outcome(
                program_id,
                buyer,
                seller,
                listing_ai,
                nft_mint_ai,
                escrow_pda_ai,
                escrow_token_ai,
                buyer_token_ai,
            );
            let l = exact_parse_listing(listing_ai.data)->Some_0;
            &&& o is Ok
            &&& o->Ok_0.0 == seller.lamports + listing_ai.lamports
            &&& o->Ok_0.1 == seq![
                ActionV::TransferLamports {
                    from: buyer.address,
                    to: seller.address,
                    amount: l.price,
                },
                ActionV::TransferToken {
                    from: escrow_token_ai.address,
                    to: buyer_token_ai.address,
                    authority: escrow_pda_ai.address,
                    amount: 1u64,
                },
            ]
        }),
{
}

/// A listing whose stored seller no longer matches the seller account is
/// refused as unauthorized, and nothing is paid or moved. As above, the
/// premises render the listing address match and the exact 80-byte slot.
pub proof fn lemma_buy_rejects_tampered_seller(
    program_id: Seq<u8>,
    buyer: AccountV,
    seller: AccountV,
    listing_ai: AccountV,
    nft_mint_ai: AccountV,
    escrow_pda_ai: AccountV,
    escrow_token_ai: AccountV,
    buyer_token_ai: AccountV,
)
    requires
        buyer.is_signer,
        listing_ai.address == listing_pda(nft_mint_ai.address, seller.address, program_id),
        exact_parse_listing(listing_ai.data) is Some,
        exact_parse_listing(listing_ai.data)->Some_0.seller != seller.address,
    ensures
        buy_nft_outcome(
            program_id,
            buyer,
            seller,
            listing_ai,
            nft_mint_ai,
            escrow_pda_ai,
            escrow_token_ai,
            buyer_token_ai,
        ) == Err::<(u64, Seq<ActionV>), DealError>(DealError::Unauthorized),
{
}

} // verus!
