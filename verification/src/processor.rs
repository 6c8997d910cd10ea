use vstd::prelude::*;

use crate::account::{acts_v, dup_account, clone_bytes, AccountData, AccountV, Action, ActionV};
use crate::codec::{
    created_data, decode_deal, decode_listing, decode_merchant, enc_deal, enc_listing,
    enc_merchant, enc_redeem_log, enc_review, encode_deal, encode_listing, encode_merchant,
    encode_redeem_log, encode_review, overwrite_front, parse_deal, parse_listing, parse_merchant,
    zero_pad, zeros,
};
use crate::error::DealError;
use crate::instruction::{decode_instruction, parse_instruction, DealInstruction, InstructionV};
use crate::pda::{
    deal_pda, deal_pda_bump, derive_deal_pda, derive_escrow_pda, derive_listing_pda,
    derive_merchant_pda, derive_redeem_pda, derive_review_pda, eq_bytes32, escrow_pda, listing_pda,
    listing_pda_bump, merchant_pda, merchant_pda_bump, redeem_pda, redeem_pda_bump, review_pda,
    review_pda_bump,
};
use crate::state::{
    Deal, DealV, Listing, ListingV, Merchant, MerchantV, RedeemLog, RedeemLogV, Review, ReviewV,
    MAX_COMMENT_LEN, MAX_DESC_LEN, MAX_NAME_LEN, MAX_TITLE_LEN, MAX_URI_LEN,
};

verus! {

/// The instruction processor: decodes a request, re-derives and checks every
/// account it touches, and applies the requested state transition.
pub struct Processor;

// ---------------------------------------------------------------------------
// Per-operation outcomes, as spec functions. Each decides the same checks in
// the same order as its handler and pins the handler's entire effect: the
// new account bytes and the side effects requested from the host.
// ---------------------------------------------------------------------------

/// The merchant record a registration writes.
pub open spec fn new_merchant(owner: Seq<u8>, name: Seq<u8>, uri: Seq<u8>) -> MerchantV {
    MerchantV { merchant: owner, name, uri, total_deals: 0, collection_mint: zeros(32) }
}

pub open spec fn register_merchant_outcome(
    program_id: Seq<u8>,
    payer: AccountV,
    pda: AccountV,
    name: Seq<u8>,
    uri: Seq<u8>,
) -> Result<(Seq<u8>, Seq<ActionV>), DealError> {
    if name.len() > MAX_NAME_LEN || uri.len() > MAX_URI_LEN {
        Err(DealError::InvalidInput)
    } else if !payer.is_signer {
        Err(DealError::Unauthorized)
    } else if pda.address != merchant_pda(payer.address, program_id) {
        Err(DealError::PdaDerivationMismatch)
    } else if pda.data.len() > 0 {
        Err(DealError::AlreadyInitialized)
    } else {
        Ok(
            (
                created_data(enc_merchant(new_merchant(payer.address, name, uri)), 340),
                seq![
                    ActionV::CreateAccount {
                        payer: payer.address,
                        address: pda.address,
                        space: 340u64,
                        bump: merchant_pda_bump(payer.address, program_id),
                    },
                ],
            ),
        )
    }
}

pub open spec fn set_collection_mint_outcome(
    program_id: Seq<u8>,
    payer: AccountV,
    pda: AccountV,
    collection_mint: Seq<u8>,
) -> Result<Seq<u8>, DealError> {
    if !payer.is_signer {
        Err(DealError::Unauthorized)
    } else if pda.address != merchant_pda(payer.address, program_id) {
        Err(DealError::PdaDerivationMismatch)
    } else {
        match parse_merchant(pda.data) {
            None => Err(DealError::InvalidInput),
            Some((m, n)) => Ok(
                enc_merchant(MerchantV { collection_mint, ..m }) + pda.data.skip(n),
            ),
        }
    }
}

/// Supply policy of MintCoupon: count first, then reject if the count passed
/// the supply. An exhausted counter is an overflow before it is a sell-out.
pub open spec fn mint_step(d: DealV) -> Result<DealV, DealError> {
    if d.minted == 0xffff_ffffu32 {
        Err(DealError::Overflow)
    } else if d.minted + 1 > d.total_supply {
        Err(DealError::DealSoldOut)
    } else {
        Ok(DealV { minted: (d.minted + 1) as u32, ..d })
    }
}

/// Supply policy of VerifyAndCountMint: reject before counting when the
/// supply is already exhausted.
pub open spec fn verify_step(d: DealV) -> Result<DealV, DealError> {
    if d.minted >= d.total_supply {
        Err(DealError::DealSoldOut)
    } else if d.minted == 0xffff_ffffu32 {
        Err(DealError::Overflow)
    } else {
        Ok(DealV { minted: (d.minted + 1) as u32, ..d })
    }
}

pub open spec fn create_deal_outcome(
    program_id: Seq<u8>,
    payer: AccountV,
    merchant_ai: AccountV,
    deal_ai: AccountV,
    deal_id: u64,
    title: Seq<u8>,
    description: Seq<u8>,
    discount_percent: u8,
    expiry: i64,
    total_supply: u32,
    image_uri: Seq<u8>,
    metadata_uri: Seq<u8>,
) -> Result<(Seq<u8>, Seq<u8>, Seq<ActionV>), DealError> {
    if title.len() > MAX_TITLE_LEN || description.len() > MAX_DESC_LEN || image_uri.len()
        > MAX_URI_LEN || metadata_uri.len() > MAX_URI_LEN {
        Err(DealError::InvalidInput)
    } else if !payer.is_signer {
        Err(DealError::Unauthorized)
    } else if merchant_ai.address != merchant_pda(payer.address, program_id) {
        Err(DealError::PdaDerivationMismatch)
    } else if merchant_ai.data.len() == 0 {
        Err(DealError::Unauthorized)
    } else if deal_ai.address != deal_pda(payer.address, deal_id, program_id) {
        Err(DealError::PdaDerivationMismatch)
    } else if deal_ai.data.len() > 0 {
        Err(DealError::AlreadyInitialized)
    } else {
        let d = DealV {
            deal_id,
            merchant: payer.address,
            title,
            description,
            discount_percent,
            expiry,
            total_supply,
            minted: 0,
            image_uri,
            metadata_uri,
        };
        // The merchant's deal counter update is best-effort: an unreadable
        // record or a saturated counter leaves the record as it was, and the
        // operation still succeeds.
        let merchant_data = match parse_merchant(merchant_ai.data) {
            None => merchant_ai.data,
            Some((m, n)) => {
                let m2 = if m.total_deals < 0xffff_ffffu32 {
                    MerchantV { total_deals: (m.total_deals + 1) as u32, ..m }
                } else {
                    m
                };
                enc_merchant(m2) + merchant_ai.data.skip(n)
            },
        };
        Ok(
            (
                merchant_data,
                created_data(enc_deal(d), 1065),
                seq![
                    ActionV::CreateAccount {
                        payer: payer.address,
                        address: deal_ai.address,
                        space: 1065u64,
                        bump: deal_pda_bump(payer.address, deal_id, program_id),
                    },
                ],
            ),
        )
    }
}

pub open spec fn mint_coupon_outcome(
    program_id: Seq<u8>,
    user: AccountV,
    merchant_ai: AccountV,
    deal_ai: AccountV,
    deal_id: u64,
) -> Result<Seq<u8>, DealError> {
    if !user.is_signer {
        Err(DealError::Unauthorized)
    } else {
        match parse_merchant(merchant_ai.data) {
            None => Err(DealError::InvalidInput),
            Some((m, _)) => {
                if deal_ai.address != deal_pda(m.merchant, deal_id, program_id) {
                    Err(DealError::PdaDerivationMismatch)
                } else {
                    match parse_deal(deal_ai.data) {
                        None => Err(DealError::InvalidInput),
                        Some((d, n)) => match mint_step(d) {
                            Err(e) => Err(e),
                            Ok(d2) => Ok(enc_deal(d2) + deal_ai.data.skip(n)),
                        },
                    }
                }
            },
        }
    }
}

pub open spec fn verify_and_count_mint_outcome(
    program_id: Seq<u8>,
    user: AccountV,
    merchant_ai: AccountV,
    deal_ai: AccountV,
    deal_id: u64,
) -> Result<Seq<u8>, DealError> {
    if !user.is_signer {
        Err(DealError::Unauthorized)
    } else {
        match parse_merchant(merchant_ai.data) {
            None => Err(DealError::InvalidInput),
            Some((m, _)) => {
                if deal_ai.address != deal_pda(m.merchant, deal_id, program_id) {
                    Err(DealError::PdaDerivationMismatch)
                } else {
                    match parse_deal(deal_ai.data) {
                        None => Err(DealError::InvalidInput),
                        Some((d, n)) => match verify_step(d) {
                            Err(e) => Err(e),
                            Ok(d2) => Ok(enc_deal(d2) + deal_ai.data.skip(n)),
                        },
                    }
                }
            },
        }
    }
}

pub open spec fn redeem_outcome(
    program_id: Seq<u8>,
    user: AccountV,
    log_ai: AccountV,
    mint: Seq<u8>,
    now: i64,
) -> Result<(Seq<u8>, Seq<ActionV>), DealError> {
    if !user.is_signer {
        Err(DealError::Unauthorized)
    } else if log_ai.address != redeem_pda(mint, program_id) {
        Err(DealError::PdaDerivationMismatch)
    } else if log_ai.data.len() > 0 {
        Err(DealError::AlreadyRedeemed)
    } else {
        Ok(
            (
                created_data(
                    enc_redeem_log(
                        RedeemLogV { token_mint: mint, user: user.address, redeemed_at: now },
                    ),
                    72,
                ),
                seq![
                    ActionV::CreateAccount {
                        payer: user.address,
                        address: log_ai.address,
                        space: 72u64,
                        bump: redeem_pda_bump(mint, program_id),
                    },
                ],
            ),
        )
    }
}

pub open spec fn add_review_outcome(
    program_id: Seq<u8>,
    user: AccountV,
    merchant_ai: AccountV,
    deal_ai: AccountV,
    review_ai: AccountV,
    deal_id: u64,
    rating: u8,
    comment: Seq<u8>,
    now: i64,
) -> Result<(Seq<u8>, Seq<ActionV>), DealError> {
    if rating == 0 || rating > 5 {
        Err(DealError::InvalidInput)
    } else if comment.len() > MAX_COMMENT_LEN {
        Err(DealError::InvalidInput)
    } else if !user.is_signer {
        Err(DealError::Unauthorized)
    } else {
        match parse_merchant(merchant_ai.data) {
            None => Err(DealError::InvalidInput),
            Some((m, _)) => {
                if deal_ai.address != deal_pda(m.merchant, deal_id, program_id) {
                    Err(DealError::PdaDerivationMismatch)
                } else if review_ai.address != review_pda(
                    deal_ai.address,
                    user.address,
                    program_id,
                ) {
                    Err(DealError::PdaDerivationMismatch)
                } else if review_ai.data.len() > 0 {
                    Err(DealError::AlreadyInitialized)
                } else {
                    Ok(
                        (
                            created_data(
                                enc_review(
                                    ReviewV {
                                        user: user.address,
                                        deal: deal_ai.address,
                                        rating,
                                        comment,
                                        created_at: now,
                                    },
                                ),
                                357,
                            ),
                            seq![
                                ActionV::CreateAccount {
                                    payer: user.address,
                                    address: review_ai.address,
                                    space: 357u64,
                                    bump: review_pda_bump(
                                        deal_ai.address,
                                        user.address,
                                        program_id,
                                    ),
                                },
                            ],
                        ),
                    )
                }
            },
        }
    }
}

pub open spec fn redeem_burn_action_outcome(
    user: AccountV,
    user_token_ai: AccountV,
    mint_ai: AccountV,
    mint: Seq<u8>,
) -> Result<ActionV, DealError> {
    if !user.is_signer {
        Err(DealError::Unauthorized)
    } else if mint_ai.address != mint {
        Err(DealError::InvalidInput)
    } else {
        Ok(
            ActionV::BurnToken {
                account: user_token_ai.address,
                mint: mint_ai.address,
                authority: user.address,
                amount: 1u64,
            },
        )
    }
}

/// One burn of the token, then the one-time redeem log, in that order.
pub open spec fn redeem_and_burn_outcome(
    program_id: Seq<u8>,
    user: AccountV,
    user_token_ai: AccountV,
    mint_ai: AccountV,
    log_ai: AccountV,
    mint: Seq<u8>,
    now: i64,
) -> Result<(Seq<u8>, Seq<ActionV>), DealError> {
    match redeem_burn_action_outcome(user, user_token_ai, mint_ai, mint) {
        Err(e) => Err(e),
        Ok(burn) => match redeem_outcome(program_id, user, log_ai, mint, now) {
            Err(e) => Err(e),
            Ok(da) => Ok((da.0, seq![burn] + da.1)),
        },
    }
}

pub open spec fn list_nft_outcome(
    program_id: Seq<u8>,
    seller: AccountV,
    listing_ai: AccountV,
    nft_mint_ai: AccountV,
    seller_token_ai: AccountV,
    escrow_token_ai: AccountV,
    price: u64,
    now: i64,
) -> Result<(Seq<u8>, Seq<ActionV>), DealError> {
    if !seller.is_signer {
        Err(DealError::Unauthorized)
    } else if price == 0 {
        Err(DealError::InvalidInput)
    } else if listing_ai.address != listing_pda(nft_mint_ai.address, seller.address, program_id) {
        Err(DealError::PdaDerivationMismatch)
    } else if listing_ai.data.len() > 0 {
        Err(DealError::AlreadyInitialized)
    } else {
        Ok(
            (
                created_data(
                    enc_listing(
                        ListingV {
                            seller: seller.address,
                            nft_mint: nft_mint_ai.address,
                            price,
                            created_at: now,
                        },
                    ),
                    80,
                ),
                seq![
                    ActionV::CreateAccount {
                        payer: seller.address,
                        address: listing_ai.address,
                        space: 80u64,
                        bump: listing_pda_bump(nft_mint_ai.address, seller.address, program_id),
                    },
                    ActionV::TransferToken {
                        from: seller_token_ai.address,
                        to: escrow_token_ai.address,
                        authority: seller.address,
                        amount: 1u64,
                    },
                ],
            ),
        )
    }
}

/// A stored listing read back whole: the slot must hold exactly its 80-byte
/// encoding.
pub open spec fn exact_parse_listing(s: Seq<u8>) -> Option<ListingV> {
    match parse_listing(s) {
        Some((l, n)) => if n == s.len() {
            Some(l)
        } else {
            None
        },
        None => None,
    }
}

pub open spec fn buy_nft_outcome(
    program_id: Seq<u8>,
    buyer: AccountV,
    seller: AccountV,
    listing_ai: AccountV,
    nft_mint_ai: AccountV,
    escrow_pda_ai: AccountV,
    escrow_token_ai: AccountV,
    buyer_token_ai: AccountV,
) -> Result<(u64, Seq<ActionV>), DealError> {
    if !buyer.is_signer {
        Err(DealError::Unauthorized)
    } else if listing_ai.address != listing_pda(nft_mint_ai.address, seller.address, program_id) {
        Err(DealError::PdaDerivationMismatch)
    } else {
        match exact_parse_listing(listing_ai.data) {
            None => Err(DealError::InvalidInput),
            Some(l) => {
                if l.seller != seller.address {
                    Err(DealError::Unauthorized)
                } else if escrow_pda_ai.address != escrow_pda(nft_mint_ai.address, program_id) {
                    Err(DealError::PdaDerivationMismatch)
                } else if seller.lamports + listing_ai.lamports > u64::MAX {
                    Err(DealError::Overflow)
                } else {
                    Ok(
                        (
                            (seller.lamports + listing_ai.lamports) as u64,
                            seq![
                                ActionV::TransferLamports {
                                    from: buyer.address,
                                    to: seller.address,
                                    amount: l.price,
                                },
                                ActionV::TransferToken {
                                    from: escrow_token_ai.address,
                                    to: buyer_token_ai.address,
                                    authority: escrow_pda_ai.address,
                                    amount: 1u64,
                                },
                            ],
                        ),
                    )
                }
            },
        }
    }
}

// ---------------------------------------------------------------------------
// How an operation's outcome relates a written account and the result.
// ---------------------------------------------------------------------------

/// The account as it stands after its stored bytes are replaced.
pub open spec fn with_data(a: AccountV, d: Seq<u8>) -> AccountV {
    AccountV { data: d, ..a }
}

/// An outcome that rewrites one account and requests side effects.
pub open spec fn data_acts_applies(
    o: Result<(Seq<u8>, Seq<ActionV>), DealError>,
    a_old: AccountV,
    a_new: AccountV,
    r: Result<Vec<Action>, DealError>,
) -> bool {
    match o {
        Ok(da) => {
            &&& r matches Ok(acts) && acts_v(acts@) == da.1
            &&& a_new == with_data(a_old, da.0)
        },
        Err(e) => r == Err::<Vec<Action>, DealError>(e) && a_new == a_old,
    }
}

/// An outcome that rewrites one account and requests nothing of the host.
pub open spec fn data_applies(
    o: Result<Seq<u8>, DealError>,
    a_old: AccountV,
    a_new: AccountV,
    r: Result<Vec<Action>, DealError>,
) -> bool {
    match o {
        Ok(d) => {
            &&& r matches Ok(acts) && acts@.len() == 0
            &&& a_new == with_data(a_old, d)
        },
        Err(e) => r == Err::<Vec<Action>, DealError>(e) && a_new == a_old,
    }
}

/// No account views outside `k1`, `k2` change between two account lists.
pub open spec fn views_unchanged_except(
    a: Seq<AccountData>,
    b: Seq<AccountData>,
    k1: int,
    k2: int,
) -> bool {
    &&& b.len() == a.len()
    &&& forall|i: int| 0 <= i < a.len() && i != k1 && i != k2 ==> b[i]@ == a[i]@
}

/// No account views change between two account lists.
pub open spec fn views_unchanged(a: Seq<AccountData>, b: Seq<AccountData>) -> bool {
    views_unchanged_except(a, b, -1, -1)
}

/// The dispatch arm chosen by a fully consumed request.
pub open spec fn request_of(data: Seq<u8>) -> Option<InstructionV> {
    if parse_instruction(data) matches Some(p) && p.1 == data.len() {
        Some(parse_instruction(data)->Some_0.0)
    } else {
        None
    }
}

impl Processor {
    /// Rejects a payload field longer than its cap.
    pub fn assert_len(s: &Vec<u8>, max: usize) -> (r: Result<(), DealError>)
        ensures
            r == if s@.len() > max {
                Err::<(), DealError>(DealError::InvalidInput)
            } else {
                Ok::<(), DealError>(())
            },
    {
        if s.len() > max {
            return Err(DealError::InvalidInput);
        }
        Ok(())
    }

    pub fn process_register_merchant(
        program_id: &[u8; 32],
        payer: &AccountData,
        merchant_pda_ai: &mut AccountData,
        name: &Vec<u8>,
        uri: &Vec<u8>,
    ) -> (r: Result<Vec<Action>, DealError>)
        ensures
            data_acts_applies(
                register_merchant_outcome(
                    program_id@,
                    payer@,
                    old(merchant_pda_ai)@,
                    name@,
                    uri@,
                ),
                old(merchant_pda_ai)@,
                final(merchant_pda_ai)@,
                r,
            ),
    {
        if Self::assert_len(name, MAX_NAME_LEN).is_err() || Self::assert_len(
            uri,
            MAX_URI_LEN,
        ).is_err() {
            return Err(DealError::InvalidInput);
        }
        if !payer.is_signer {
            return Err(DealError::Unauthorized);
        }
        let (expected, bump) = derive_merchant_pda(&payer.address, program_id);
        if !eq_bytes32(&expected, &merchant_pda_ai.address) {
            return Err(DealError::PdaDerivationMismatch);
        }
        if merchant_pda_ai.data.len() > 0 {
            return Err(DealError::AlreadyInitialized);
        }
        let m = Merchant {
            merchant: payer.address,
            name: clone_bytes(name),
            uri: clone_bytes(uri),
            total_deals: 0,
            collection_mint: [0u8; 32],
        };
        proof {
            assert(m@ =~= new_merchant(payer@.address, name@, uri@)) by {
                assert(m.collection_mint@ =~= zeros(32));
            }
        }
        let mut d = encode_merchant(&m);
        zero_pad(&mut d, Merchant::space());
        merchant_pda_ai.data = d;
        let mut acts: Vec<Action> = Vec::new();
        acts.push(Action::CreateAccount {
            payer: payer.address,
            address: merchant_pda_ai.address,
            space: 340,
            bump,
        });
        proof {
            let o = register_merchant_outcome(
                program_id@,
                payer@,
                old(merchant_pda_ai)@,
                name@,
                uri@,
            );
            assert(merchant_pda_ai@ =~= with_data(old(merchant_pda_ai)@, o->Ok_0.0));
            assert(acts_v(acts@) =~= o->Ok_0.1);
        }
        Ok(acts)
    }

    pub fn process_set_collection_mint(
        program_id: &[u8; 32],
        payer: &AccountData,
        merchant_pda_ai: &mut AccountData,
        collection_mint: &[u8; 32],
    ) -> (r: Result<Vec<Action>, DealError>)
        ensures
            data_applies(
                set_collection_mint_outcome(
                    program_id@,
                    payer@,
                    old(merchant_pda_ai)@,
                    collection_mint@,
                ),
                old(merchant_pda_ai)@,
                final(merchant_pda_ai)@,
                r,
            ),
    {
        if !payer.is_signer {
            return Err(DealError::Unauthorized);
        }
        let (expected, _bump) = derive_merchant_pda(&payer.address, program_id);
        if !eq_bytes32(&expected, &merchant_pda_ai.address) {
            return Err(DealError::PdaDerivationMismatch);
        }
        let mut m = match decode_merchant(&merchant_pda_ai.data) {
            Ok(m) => m,
            Err(e) => {
                return Err(e);
            },
        };
        m.collection_mint = *collection_mint;
        let ghost n = crate::codec::enc_merchant_len(m@);
        let front = encode_merchant(&m);
        let nd = overwrite_front(&merchant_pda_ai.data, front);
        merchant_pda_ai.data = nd;
        proof {
            let o = set_collection_mint_outcome(
                program_id@,
                payer@,
                old(merchant_pda_ai)@,
                collection_mint@,
            );
            assert(merchant_pda_ai@ =~= with_data(old(merchant_pda_ai)@, o->Ok_0));
        }
        Ok(Vec::new())
    }

    pub fn process_mint_coupon(
        program_id: &[u8; 32],
        user: &AccountData,
        merchant_pda_ai: &AccountData,
        deal_pda_ai: &mut AccountData,
        deal_id: u64,
    ) -> (r: Result<Vec<Action>, DealError>)
        ensures
            data_applies(
                mint_coupon_outcome(
                    program_id@,
                    user@,
                    merchant_pda_ai@,
                    old(deal_pda_ai)@,
                    deal_id,
                ),
                old(deal_pda_ai)@,
                final(deal_pda_ai)@,
                r,
            ),
    {
        if !user.is_signer {
            return Err(DealError::Unauthorized);
        }
        let m = match decode_merchant(&merchant_pda_ai.data) {
            Ok(m) => m,
            Err(e) => {
                return Err(e);
            },
        };
        let (expected_deal, _bump) = derive_deal_pda(&m.merchant, deal_id, program_id);
        if !eq_bytes32(&expected_deal, &deal_pda_ai.address) {
            return Err(DealError::PdaDerivationMismatch);
        }
        let mut d = match decode_deal(&deal_pda_ai.data) {
            Ok(d) => d,
            Err(e) => {
                return Err(e);
            },
        };
        d.minted = match d.minted.checked_add(1) {
            Some(x) => x,
            None => {
                return Err(DealError::Overflow);
            },
        };
        if d.minted > d.total_supply {
            return Err(DealError::DealSoldOut);
        }
        let front = encode_deal(&d);
        let nd = overwrite_front(&deal_pda_ai.data, front);
        deal_pda_ai.data = nd;
        proof {
            let o = mint_coupon_outcome(
                program_id@,
                user@,
                merchant_pda_ai@,
                old(deal_pda_ai)@,
                deal_id,
            );
            assert(deal_pda_ai@ =~= with_data(old(deal_pda_ai)@, o->Ok_0));
        }
        Ok(Vec::new())
    }

    pub fn process_verify_and_count_mint(
        program_id: &[u8; 32],
        user: &AccountData,
        merchant_pda_ai: &AccountData,
        deal_pda_ai: &mut AccountData,
        deal_id: u64,
    ) -> (r: Result<Vec<Action>, DealError>)
        ensures
            data_applies(
                verify_and_count_mint_outcome(
                    program_id@,
                    user@,
                    merchant_pda_ai@,
                    old(deal_pda_ai)@,
                    deal_id,
                ),
                old(deal_pda_ai)@,
                final(deal_pda_ai)@,
                r,
            ),
    {
        if !user.is_signer {
            return Err(DealError::Unauthorized);
        }
        let m = match decode_merchant(&merchant_pda_ai.data) {
            Ok(m) => m,
            Err(e) => {
                return Err(e);
            },
        };
        let (expected_deal, _bump) = derive_deal_pda(&m.merchant, deal_id, program_id);
        if !eq_bytes32(&expected_deal, &deal_pda_ai.address) {
            return Err(DealError::PdaDerivationMismatch);
        }
        let mut d = match decode_deal(&deal_pda_ai.data) {
            Ok(d) => d,
            Err(e) => {
                return Err(e);
            },
        };
        if d.minted >= d.total_supply {
            return Err(DealError::DealSoldOut);
        }
        d.minted = match d.minted.checked_add(1) {
            Some(x) => x,
            None => {
                return Err(DealError::Overflow);
            },
        };
        let front = encode_deal(&d);
        let nd = overwrite_front(&deal_pda_ai.data, front);
        deal_pda_ai.data = nd;
        proof {
            let o = verify_and_count_mint_outcome(
                program_id@,
                user@,
                merchant_pda_ai@,
                old(deal_pda_ai)@,
                deal_id,
            );
            assert(deal_pda_ai@ =~= with_data(old(deal_pda_ai)@, o->Ok_0));
        }
        Ok(Vec::new())
    }

    pub fn process_create_deal(
        program_id: &[u8; 32],
        payer: &AccountData,
        merchant_pda_ai: &mut AccountData,
        deal_pda_ai: &mut AccountData,
        deal_id: u64,
        title: &Vec<u8>,
        description: &Vec<u8>,
        discount_percent: u8,
        expiry: i64,
        total_supply: u32,
        image_uri: &Vec<u8>,
        metadata_uri: &Vec<u8>,
    ) -> (r: Result<Vec<Action>, DealError>)
        ensures
            ({
                let o = create_deal_outcome(
                    program_id@,
                    payer@,
                    old(merchant_pda_ai)@,
                    old(deal_pda_ai)@,
                    deal_id,
                    title@,
                    description@,
                    discount_percent,
                    expiry,
                    total_supply,
                    image_uri@,
                    metadata_uri@,
                );
                match o {
                    Ok(mda) => {
                        &&& r matches Ok(acts) && acts_v(acts@) == mda.2
                        &&& final(merchant_pda_ai)@ == with_data(old(merchant_pda_ai)@, mda.0)
                        &&& final(deal_pda_ai)@ == with_data(old(deal_pda_ai)@, mda.1)
                    },
                    Err(e) => {
                        &&& r == Err::<Vec<Action>, DealError>(e)
                        &&& final(merchant_pda_ai)@ == old(merchant_pda_ai)@
                        &&& final(deal_pda_ai)@ == old(deal_pda_ai)@
                    },
                }
            }),
    {
        if Self::assert_len(title, MAX_TITLE_LEN).is_err() || Self::assert_len(
            description,
            MAX_DESC_LEN,
        ).is_err() || Self::assert_len(image_uri, MAX_URI_LEN).is_err() || Self::assert_len(
            metadata_uri,
            MAX_URI_LEN,
        ).is_err() {
            return Err(DealError::InvalidInput);
        }
        if !payer.is_signer {
            return Err(DealError::Unauthorized);
        }
        let (expected_merchant, _mb) = derive_merchant_pda(&payer.address, program_id);
        if !eq_bytes32(&expected_merchant, &merchant_pda_ai.address) {
            return Err(DealError::PdaDerivationMismatch);
        }
        if merchant_pda_ai.data.len() == 0 {
            return Err(DealError::Unauthorized);
        }
        let (expected_deal, deal_bump) = derive_deal_pda(&payer.address, deal_id, program_id);
        if !eq_bytes32(&expected_deal, &deal_pda_ai.address) {
            return Err(DealError::PdaDerivationMismatch);
        }
        if deal_pda_ai.data.len() > 0 {
            return Err(DealError::AlreadyInitialized);
        }
        let d = Deal {
            deal_id,
            merchant: payer.address,
            title: clone_bytes(title),
            description: clone_bytes(description),
            discount_percent,
            expiry,
            total_supply,
            minted: 0,
            image_uri: clone_bytes(image_uri),
            metadata_uri: clone_bytes(metadata_uri),
        };
        let mut dd = encode_deal(&d);
        zero_pad(&mut dd, Deal::space());
        deal_pda_ai.data = dd;
        // Best-effort update of the merchant's deal counter: a record that
        // does not decode, or a counter at its ceiling, is left as it is.
        match decode_merchant(&merchant_pda_ai.data) {
            Ok(mut m) => {
                match m.total_deals.checked_add(1) {
                    Some(next) => {
                        m.total_deals = next;
                    },
                    None => {},
                }
                let front = encode_merchant(&m);
                let nd = overwrite_front(&merchant_pda_ai.data, front);
                merchant_pda_ai.data = nd;
            },
            Err(_) => {},
        }
        let mut acts: Vec<Action> = Vec::new();
        acts.push(Action::CreateAccount {
            payer: payer.address,
            address: deal_pda_ai.address,
            space: 1065,
            bump: deal_bump,
        });
        proof {
            let o = create_deal_outcome(
                program_id@,
                payer@,
                old(merchant_pda_ai)@,
                old(deal_pda_ai)@,
                deal_id,
                title@,
                description@,
                discount_percent,
                expiry,
                total_supply,
                image_uri@,
                metadata_uri@,
            );
            assert(merchant_pda_ai@ =~= with_data(old(merchant_pda_ai)@, o->Ok_0.0));
            assert(deal_pda_ai@ =~= with_data(old(deal_pda_ai)@, o->Ok_0.1));
            assert(acts_v(acts@) =~= o->Ok_0.2);
        }
        Ok(acts)
    }

    pub fn process_redeem_coupon(
        program_id: &[u8; 32],
        user: &AccountData,
        redeem_log_ai: &mut AccountData,
        mint: &[u8; 32],
        now: i64,
    ) -> (r: Result<Vec<Action>, DealError>)
        ensures
            data_acts_applies(
                redeem_outcome(program_id@, user@, old(redeem_log_ai)@, mint@, now),
                old(redeem_log_ai)@,
                final(redeem_log_ai)@,
                r,
            ),
    {
        if !user.is_signer {
            return Err(DealError::Unauthorized);
        }
        let (expected, bump) = derive_redeem_pda(mint, program_id);
        if !eq_bytes32(&expected, &redeem_log_ai.address) {
            return Err(DealError::PdaDerivationMismatch);
        }
        if redeem_log_ai.data.len() > 0 {
            return Err(DealError::AlreadyRedeemed);
        }
        let log = RedeemLog { token_mint: *mint, user: user.address, redeemed_at: now };
        let mut d = encode_redeem_log(&log);
        zero_pad(&mut d, RedeemLog::space());
        redeem_log_ai.data = d;
        let mut acts: Vec<Action> = Vec::new();
        acts.push(Action::CreateAccount {
            payer: user.address,
            address: redeem_log_ai.address,
            space: 72,
            bump,
        });
        proof {
            let o = redeem_outcome(program_id@, user@, old(redeem_log_ai)@, mint@, now);
            assert(redeem_log_ai@ =~= with_data(old(redeem_log_ai)@, o->Ok_0.0));
            assert(acts_v(acts@) =~= o->Ok_0.1);
        }
        Ok(acts)
    }

    pub fn process_add_review(
        program_id: &[u8; 32],
        user: &AccountData,
        merchant_pda_ai: &AccountData,
        deal_pda_ai: &AccountData,
        review_pda_ai: &mut AccountData,
        deal_id: u64,
        rating: u8,
        comment: &Vec<u8>,
        now: i64,
    ) -> (r: Result<Vec<Action>, DealError>)
        ensures
            data_acts_applies(
                add_review_outcome(
                    program_id@,
                    user@,
                    merchant_pda_ai@,
                    deal_pda_ai@,
                    old(review_pda_ai)@,
                    deal_id,
                    rating,
                    comment@,
                    now,
                ),
                old(review_pda_ai)@,
                final(review_pda_ai)@,
                r,
            ),
    {
        if rating == 0 || rating > 5 {
            return Err(DealError::InvalidInput);
        }
        if comment.len() > MAX_COMMENT_LEN {
            return Err(DealError::InvalidInput);
        }
        if !user.is_signer {
            return Err(DealError::Unauthorized);
        }
        let m = match decode_merchant(&merchant_pda_ai.data) {
            Ok(m) => m,
            Err(e) => {
                return Err(e);
            },
        };
        let (expected_deal, _db) = derive_deal_pda(&m.merchant, deal_id, program_id);
        if !eq_bytes32(&expected_deal, &deal_pda_ai.address) {
            return Err(DealError::PdaDerivationMismatch);
        }
        let (expected_review, bump) = derive_review_pda(
            &deal_pda_ai.address,
            &user.address,
            program_id,
        );
        if !eq_bytes32(&expected_review, &review_pda_ai.address) {
            return Err(DealError::PdaDerivationMismatch);
        }
        if review_pda_ai.data.len() > 0 {
            return Err(DealError::AlreadyInitialized);
        }
        let review = Review {
            user: user.address,
            deal: deal_pda_ai.address,
            rating,
            comment: clone_bytes(comment),
            created_at: now,
        };
        let mut d = encode_review(&review);
        zero_pad(&mut d, Review::space());
        review_pda_ai.data = d;
        let mut acts: Vec<Action> = Vec::new();
        acts.push(Action::CreateAccount {
            payer: user.address,
            address: review_pda_ai.address,
            space: 357,
            bump,
        });
        proof {
            let o = add_review_outcome(
                program_id@,
                user@,
                merchant_pda_ai@,
                deal_pda_ai@,
                old(review_pda_ai)@,
                deal_id,
                rating,
                comment@,
                now,
            );
            assert(review_pda_ai@ =~= with_data(old(review_pda_ai)@, o->Ok_0.0));
            assert(acts_v(acts@) =~= o->Ok_0.1);
        }
        Ok(acts)
    }

    /// The burn decision of RedeemAndBurn, taken before the redeem log is
    /// touched. Within the library a failure of the log step returns an
    /// error with no action list, so no burn is requested; the accepted
    /// partial-failure window exists only at the host, where the burn in
    /// the returned list precedes the log-slot creation and the creation
    /// can still fail after the burn was performed.
    pub fn redeem_burn_action(
        user: &AccountData,
        user_token_ai: &AccountData,
        mint_ai: &AccountData,
        mint: &[u8; 32],
    ) -> (r: Result<Action, DealError>)
        ensures
            ({
                let o = redeem_burn_action_outcome(user@, user_token_ai@, mint_ai@, mint@);
                match o {
                    Ok(a) => r matches Ok(act) && act@ == a,
                    Err(e) => r == Err::<Action, DealError>(e),
                }
            }),
    {
        if !user.is_signer {
            return Err(DealError::Unauthorized);
        }
        if !eq_bytes32(&mint_ai.address, mint) {
            return Err(DealError::InvalidInput);
        }
        Ok(Action::BurnToken {
            account: user_token_ai.address,
            mint: mint_ai.address,
            authority: user.address,
            amount: 1,
        })
    }

    pub fn process_redeem_and_burn(
        program_id: &[u8; 32],
        user: &AccountData,
        user_token_ai: &AccountData,
        mint_ai: &AccountData,
        redeem_log_ai: &mut AccountData,
        mint: &[u8; 32],
        now: i64,
    ) -> (r: Result<Vec<Action>, DealError>)
        ensures
            data_acts_applies(
                redeem_and_burn_outcome(
                    program_id@,
                    user@,
                    user_token_ai@,
                    mint_ai@,
                    old(redeem_log_ai)@,
                    mint@,
                    now,
                ),
                old(redeem_log_ai)@,
                final(redeem_log_ai)@,
                r,
            ),
    {
        let burn = match Self::redeem_burn_action(user, user_token_ai, mint_ai, mint) {
            Ok(a) => a,
            Err(e) => {
                return Err(e);
            },
        };
        let rest = match Self::process_redeem_coupon(program_id, user, redeem_log_ai, mint, now) {
            Ok(acts) => acts,
            Err(e) => {
                return Err(e);
            },
        };
        let mut acts: Vec<Action> = Vec::new();
        acts.push(burn);
        let mut i: usize = 0;
        while i < rest.len()
            invariant
                i <= rest@.len(),
                acts@.len() == 1 + i,
                acts@[0] == burn,
                forall|j: int| 0 <= j < i ==> acts@[1 + j] == rest@[j],
            decreases rest@.len() - i,
        {
            acts.push(rest[i]);
            i = i + 1;
        }
        proof {
            let o = redeem_and_burn_outcome(
                program_id@,
                user@,
                user_token_ai@,
                mint_ai@,
                old(redeem_log_ai)@,
                mint@,
                now,
            );
            assert(acts_v(acts@) =~= o->Ok_0.1);
        }
        Ok(acts)
    }

    pub fn process_list_nft(
        program_id: &[u8; 32],
        seller: &AccountData,
        listing_pda_ai: &mut AccountData,
        nft_mint_ai: &AccountData,
        seller_token_ai: &AccountData,
        escrow_token_ai: &AccountData,
        price: u64,
        now: i64,
    ) -> (r: Result<Vec<Action>, DealError>)
        ensures
            data_acts_applies(
                list_nft_outcome(
                    program_id@,
                    seller@,
                    old(listing_pda_ai)@,
                    nft_mint_ai@,
                    seller_token_ai@,
                    escrow_token_ai@,
                    price,
                    now,
                ),
                old(listing_pda_ai)@,
                final(listing_pda_ai)@,
                r,
            ),
    {
        if !seller.is_signer {
            return Err(DealError::Unauthorized);
        }
        if price == 0 {
            return Err(DealError::InvalidInput);
        }
        let (expected, bump) = derive_listing_pda(&nft_mint_ai.address, &seller.address, program_id);
        if !eq_bytes32(&expected, &listing_pda_ai.address) {
            return Err(DealError::PdaDerivationMismatch);
        }
        if listing_pda_ai.data.len() > 0 {
            return Err(DealError::AlreadyInitialized);
        }
        let listing = Listing {
            seller: seller.address,
            nft_mint: nft_mint_ai.address,
            price,
            created_at: now,
        };
        let mut d = encode_listing(&listing);
        zero_pad(&mut d, Listing::space());
        listing_pda_ai.data = d;
        let mut acts: Vec<Action> = Vec::new();
        acts.push(Action::CreateAccount {
            payer: seller.address,
            address: listing_pda_ai.address,
            space: 80,
            bump,
        });
        acts.push(Action::TransferToken {
            from: seller_token_ai.address,
            to: escrow_token_ai.address,
            authority: seller.address,
            amount: 1,
        });
        proof {
            let o = list_nft_outcome(
                program_id@,
                seller@,
                old(listing_pda_ai)@,
                nft_mint_ai@,
                seller_token_ai@,
                escrow_token_ai@,
                price,
                now,
            );
            assert(listing_pda_ai@ =~= with_data(old(listing_pda_ai)@, o->Ok_0.0));
            assert(acts_v(acts@) =~= o->Ok_0.1);
        }
        Ok(acts)
    }

    pub fn process_buy_nft(
        program_id: &[u8; 32],
        buyer: &AccountData,
        seller: &mut AccountData,
        listing_pda_ai: &mut AccountData,
        nft_mint_ai: &AccountData,
        escrow_pda_ai: &AccountData,
        escrow_token_ai: &AccountData,
        buyer_token_ai: &AccountData,
    ) -> (r: Result<Vec<Action>, DealError>)
        ensures
            ({
                let o = buy_nft_outcome(
                    program_id@,
                    buyer@,
                    old(seller)@,
                    old(listing_pda_ai)@,
                    nft_mint_ai@,
                    escrow_pda_ai@,
                    escrow_token_ai@,
                    buyer_token_ai@,
                );
                match o {
                    Ok(la) => {
                        &&& r matches Ok(acts) && acts_v(acts@) == la.1
                        &&& final(seller)@ == AccountV { lamports: la.0, ..old(seller)@ }
                        &&& final(listing_pda_ai)@ == AccountV {
                            lamports: 0,
                            data: zeros(old(listing_pda_ai)@.data.len() as int),
                            ..old(listing_pda_ai)@
                        }
                    },
                    Err(e) => {
                        &&& r == Err::<Vec<Action>, DealError>(e)
                        &&& final(seller)@ == old(seller)@
                        &&& final(listing_pda_ai)@ == old(listing_pda_ai)@
                    },
                }
            }),
    {
        if !buyer.is_signer {
            return Err(DealError::Unauthorized);
        }
        let (expected_listing, _lb) = derive_listing_pda(
            &nft_mint_ai.address,
            &seller.address,
            program_id,
        );
        if !eq_bytes32(&expected_listing, &listing_pda_ai.address) {
            return Err(DealError::PdaDerivationMismatch);
        }
        let listing = match decode_listing(&listing_pda_ai.data) {
            Ok(l) => l,
            Err(e) => {
                return Err(e);
            },
        };
        if listing_pda_ai.data.len() != 80 {
            return Err(DealError::InvalidInput);
        }
        if !eq_bytes32(&listing.seller, &seller.address) {
            return Err(DealError::Unauthorized);
        }
        let (expected_escrow, _eb) = derive_escrow_pda(&nft_mint_ai.address, program_id);
        if !eq_bytes32(&expected_escrow, &escrow_pda_ai.address) {
            return Err(DealError::PdaDerivationMismatch);
        }
        let new_seller_lamports = match seller.lamports.checked_add(listing_pda_ai.lamports) {
            Some(x) => x,
            None => {
                return Err(DealError::Overflow);
            },
        };
        let mut acts: Vec<Action> = Vec::new();
        acts.push(Action::TransferLamports {
            from: buyer.address,
            to: seller.address,
            amount: listing.price,
        });
        acts.push(Action::TransferToken {
            from: escrow_token_ai.address,
            to: buyer_token_ai.address,
            authority: escrow_pda_ai.address,
            amount: 1,
        });
        seller.lamports = new_seller_lamports;
        listing_pda_ai.lamports = 0;
        let mut z: Vec<u8> = Vec::new();
        zero_pad(&mut z, listing_pda_ai.data.len());
        listing_pda_ai.data = z;
        proof {
            let o = buy_nft_outcome(
                program_id@,
                buyer@,
                old(seller)@,
                old(listing_pda_ai)@,
                nft_mint_ai@,
                escrow_pda_ai@,
                escrow_token_ai@,
                buyer_token_ai@,
            );
            assert(seller@ =~= AccountV { lamports: o->Ok_0.0, ..old(seller)@ });
            assert(listing_pda_ai@ =~= AccountV {
                lamports: 0,
                data: zeros(old(listing_pda_ai)@.data.len() as int),
                ..old(listing_pda_ai)@
            });
            assert(acts_v(acts@) =~= o->Ok_0.1);
        }
        Ok(acts)
    }

    /// Decodes one request and runs its handler over the supplied account
    /// list, in the fixed order each operation expects. Nothing is written
    /// unless every check of the chosen handler passed.
    pub fn process(
        program_id: &[u8; 32],
        accounts: &mut Vec<AccountData>,
        data: &Vec<u8>,
        now: i64,
    ) -> (r: Result<Vec<Action>, DealError>)
        ensures
            ({
                let a0 = old(accounts)@;
                let a1 = final(accounts)@;
                match request_of(data@) {
                    None => r == Err::<Vec<Action>, DealError>(DealError::InvalidInstruction)
                        && views_unchanged(a0, a1),
                    Some(ix) => match ix {
                        InstructionV::RegisterMerchant { name, uri } => {
                            if a0.len() < 3 {
                                r == Err::<Vec<Action>, DealError>(DealError::InvalidInput)
                                    && views_unchanged(a0, a1)
                            } else {
                                &&& views_unchanged_except(a0, a1, 1, -1)
                                &&& data_acts_applies(
                                    register_merchant_outcome(
                                        program_id@,
                                        a0[0]@,
                                        a0[1]@,
                                        name,
                                        uri,
                                    ),
                                    a0[1]@,
                                    a1[1]@,
                                    r,
                                )
                            }
                        },
                        InstructionV::SetCollectionMint { collection_mint } => {
                            if a0.len() < 2 {
                                r == Err::<Vec<Action>, DealError>(DealError::InvalidInput)
                                    && views_unchanged(a0, a1)
                            } else {
                                &&& views_unchanged_except(a0, a1, 1, -1)
                                &&& data_applies(
                                    set_collection_mint_outcome(
                                        program_id@,
                                        a0[0]@,
                                        a0[1]@,
                                        collection_mint,
                                    ),
                                    a0[1]@,
                                    a1[1]@,
                                    r,
                                )
                            }
                        },
                        InstructionV::CreateDeal {
                            deal_id,
                            title,
                            description,
                            discount_percent,
                            expiry,
                            total_supply,
                            image_uri,
                            metadata_uri,
                        } => {
                            if a0.len() < 4 {
                                r == Err::<Vec<Action>, DealError>(DealError::InvalidInput)
                                    && views_unchanged(a0, a1)
                            } else {
                                let o = create_deal_outcome(
                                    program_id@,
                                    a0[0]@,
                                    a0[1]@,
                                    a0[2]@,
                                    deal_id,
                                    title,
                                    description,
                                    discount_percent,
                                    expiry,
                                    total_supply,
                                    image_uri,
                                    metadata_uri,
                                );
                                &&& views_unchanged_except(a0, a1, 1, 2)
                                &&& match o {
                                    Ok(mda) => {
                                        &&& r matches Ok(acts) && acts_v(acts@) == mda.2
                                        &&& a1[1]@ == with_data(a0[1]@, mda.0)
                                        &&& a1[2]@ == with_data(a0[2]@, mda.1)
                                    },
                                    Err(e) => {
                                        &&& r == Err::<Vec<Action>, DealError>(e)
                                        &&& a1[1]@ == a0[1]@
                                        &&& a1[2]@ == a0[2]@
                                    },
                                }
                            }
                        },
                        InstructionV::MintCouponNft { deal_id } => {
                            if a0.len() < 3 {
                                r == Err::<Vec<Action>, DealError>(DealError::InvalidInput)
                                    && views_unchanged(a0, a1)
                            } else {
                                &&& views_unchanged_except(a0, a1, 2, -1)
                                &&& data_applies(
                                    mint_coupon_outcome(
                                        program_id@,
                                        a0[0]@,
                                        a0[1]@,
                                        a0[2]@,
                                        deal_id,
                                    ),
                                    a0[2]@,
                                    a1[2]@,
                                    r,
                                )
                            }
                        },
                        InstructionV::RedeemCoupon { mint } => {
                            if a0.len() < 3 {
                                r == Err::<Vec<Action>, DealError>(DealError::InvalidInput)
                                    && views_unchanged(a0, a1)
                            } else {
                                &&& views_unchanged_except(a0, a1, 1, -1)
                                &&& data_acts_applies(
                                    redeem_outcome(program_id@, a0[0]@, a0[1]@, mint, now),
                                    a0[1]@,
                                    a1[1]@,
                                    r,
                                )
                            }
                        },
                        InstructionV::AddReview { deal_id, rating, comment } => {
                            if a0.len() < 5 {
                                r == Err::<Vec<Action>, DealError>(DealError::InvalidInput)
                                    && views_unchanged(a0, a1)
                            } else {
                                &&& views_unchanged_except(a0, a1, 3, -1)
                                &&& data_acts_applies(
                                    add_review_outcome(
                                        program_id@,
                                        a0[0]@,
                                        a0[1]@,
                                        a0[2]@,
                                        a0[3]@,
                                        deal_id,
                                        rating,
                                        comment,
                                        now,
                                    ),
                                    a0[3]@,
                                    a1[3]@,
                                    r,
                                )
                            }
                        },
                        InstructionV::VerifyAndCountMint { deal_id, mint: _ } => {
                            if a0.len() < 3 {
                                r == Err::<Vec<Action>, DealError>(DealError::InvalidInput)
                                    && views_unchanged(a0, a1)
                            } else {
                                &&& views_unchanged_except(a0, a1, 2, -1)
                                &&& data_applies(
                                    verify_and_count_mint_outcome(
                                        program_id@,
                                        a0[0]@,
                                        a0[1]@,
                                        a0[2]@,
                                        deal_id,
                                    ),
                                    a0[2]@,
                                    a1[2]@,
                                    r,
                                )
                            }
                        },
                        InstructionV::RedeemAndBurn { mint } => {
                            if a0.len() < 6 {
                                r == Err::<Vec<Action>, DealError>(DealError::InvalidInput)
                                    && views_unchanged(a0, a1)
                            } else {
                                &&& views_unchanged_except(a0, a1, 4, -1)
                                &&& data_acts_applies(
                                    redeem_and_burn_outcome(
                                        program_id@,
                                        a0[0]@,
                                        a0[1]@,
                                        a0[2]@,
                                        a0[4]@,
                                        mint,
                                        now,
                                    ),
                                    a0[4]@,
                                    a1[4]@,
                                    r,
                                )
                            }
                        },
                        InstructionV::ListNft { price } => {
                            if a0.len() < 7 {
                                r == Err::<Vec<Action>, DealError>(DealError::InvalidInput)
                                    && views_unchanged(a0, a1)
                            } else {
                                &&& views_unchanged_except(a0, a1, 1, -1)
                                &&& data_acts_applies(
                                    list_nft_outcome(
                                        program_id@,
                                        a0[0]@,
                                        a0[1]@,
                                        a0[2]@,
                                        a0[3]@,
                                        a0[4]@,
                                        price,
                                        now,
                                    ),
                                    a0[1]@,
                                    a1[1]@,
                                    r,
                                )
                            }
                        },
                        InstructionV::BuyNft => {
                            if a0.len() < 9 {
                                r == Err::<Vec<Action>, DealError>(DealError::InvalidInput)
                                    && views_unchanged(a0, a1)
                            } else {
                                let o = buy_nft_outcome(
                                    program_id@,
                                    a0[0]@,
                                    a0[1]@,
                                    a0[2]@,
                                    a0[3]@,
                                    a0[4]@,
                                    a0[5]@,
                                    a0[6]@,
                                );
                                &&& views_unchanged_except(a0, a1, 1, 2)
                                &&& match o {
                                    Ok(la) => {
                                        &&& r matches Ok(acts) && acts_v(acts@) == la.1
                                        &&& a1[1]@ == AccountV { lamports: la.0, ..a0[1]@ }
                                        &&& a1[2]@ == AccountV {
                                            lamports: 0,
                                            data: zeros(a0[2]@.data.len() as int),
                                            ..a0[2]@
                                        }
                                    },
                                    Err(e) => {
                                        &&& r == Err::<Vec<Action>, DealError>(e)
                                        &&& a1[1]@ == a0[1]@
                                        &&& a1[2]@ == a0[2]@
                                    },
                                }
                            }
                        },
                    },
                }
            }),
    {
        let ix = match decode_instruction(data) {
            Ok(ix) => ix,
            Err(e) => {
                return Err(e);
            },
        };
        match ix {
            DealInstruction::RegisterMerchant { name, uri } => {
                if accounts.len() < 3 {
                    return Err(DealError::InvalidInput);
                }
                let payer = dup_account(&accounts[0]);
                let mut pda = dup_account(&accounts[1]);
                let r = Self::process_register_merchant(program_id, &payer, &mut pda, &name, &uri);
                accounts.set(1, pda);
                r
            },
            DealInstruction::SetCollectionMint { collection_mint } => {
                if accounts.len() < 2 {
                    return Err(DealError::InvalidInput);
                }
                let payer = dup_account(&accounts[0]);
                let mut pda = dup_account(&accounts[1]);
                let r = Self::process_set_collection_mint(
                    program_id,
                    &payer,
                    &mut pda,
                    &collection_mint,
                );
                accounts.set(1, pda);
                r
            },
            DealInstruction::CreateDeal {
                deal_id,
                title,
                description,
                discount_percent,
                expiry,
                total_supply,
                image_uri,
                metadata_uri,
            } => {
                if accounts.len() < 4 {
                    return Err(DealError::InvalidInput);
                }
                let payer = dup_account(&accounts[0]);
                let mut merchant = dup_account(&accounts[1]);
                let mut deal = dup_account(&accounts[2]);
                let r = Self::process_create_deal(
                    program_id,
                    &payer,
                    &mut merchant,
                    &mut deal,
                    deal_id,
                    &title,
                    &description,
                    discount_percent,
                    expiry,
                    total_supply,
                    &image_uri,
                    &metadata_uri,
                );
                accounts.set(1, merchant);
                accounts.set(2, deal);
                r
            },
            DealInstruction::MintCouponNft { deal_id } => {
                if accounts.len() < 3 {
                    return Err(DealError::InvalidInput);
                }
                let user = dup_account(&accounts[0]);
                let merchant = dup_account(&accounts[1]);
                let mut deal = dup_account(&accounts[2]);
                let r = Self::process_mint_coupon(program_id, &user, &merchant, &mut deal, deal_id);
                accounts.set(2, deal);
                r
            },
            DealInstruction::RedeemCoupon { mint } => {
                if accounts.len() < 3 {
                    return Err(DealError::InvalidInput);
                }
                let user = dup_account(&accounts[0]);
                let mut log = dup_account(&accounts[1]);
                let r = Self::process_redeem_coupon(program_id, &user, &mut log, &mint, now);
                accounts.set(1, log);
                r
            },
            DealInstruction::AddReview { deal_id, rating, comment } => {
                if accounts.len() < 5 {
                    return Err(DealError::InvalidInput);
                }
                let user = dup_account(&accounts[0]);
                let merchant = dup_account(&accounts[1]);
                let deal = dup_account(&accounts[2]);
                let mut review = dup_account(&accounts[3]);
                let r = Self::process_add_review(
                    program_id,
                    &user,
                    &merchant,
                    &deal,
                    &mut review,
                    deal_id,
                    rating,
                    &comment,
                    now,
                );
                accounts.set(3, review);
                r
            },
            DealInstruction::VerifyAndCountMint { deal_id, mint: _ } => {
                if accounts.len() < 3 {
                    return Err(DealError::InvalidInput);
                }
                let user = dup_account(&accounts[0]);
                let merchant = dup_account(&accounts[1]);
                let mut deal = dup_account(&accounts[2]);
                let r = Self::process_verify_and_count_mint(
                    program_id,
                    &user,
                    &merchant,
                    &mut deal,
                    deal_id,
                );
                accounts.set(2, deal);
                r
            },
            DealInstruction::RedeemAndBurn { mint } => {
                if accounts.len() < 6 {
                    return Err(DealError::InvalidInput);
                }
                let user = dup_account(&accounts[0]);
                let user_token = dup_account(&accounts[1]);
                let mint_ai = dup_account(&accounts[2]);
                let mut log = dup_account(&accounts[4]);
                let r = Self::process_redeem_and_burn(
                    program_id,
                    &user,
                    &user_token,
                    &mint_ai,
                    &mut log,
                    &mint,
                    now,
                );
                accounts.set(4, log);
                r
            },
            DealInstruction::ListNft { price } => {
                if accounts.len() < 7 {
                    return Err(DealError::InvalidInput);
                }
                let seller = dup_account(&accounts[0]);
                let mut listing = dup_account(&accounts[1]);
                let nft_mint = dup_account(&accounts[2]);
                let seller_token = dup_account(&accounts[3]);
                let escrow_token = dup_account(&accounts[4]);
                let r = Self::process_list_nft(
                    program_id,
                    &seller,
                    &mut listing,
                    &nft_mint,
                    &seller_token,
                    &escrow_token,
                    price,
                    now,
                );
                accounts.set(1, listing);
                r
            },
            DealInstruction::BuyNft => {
                if accounts.len() < 9 {
                    return Err(DealError::InvalidInput);
                }
                let buyer = dup_account(&accounts[0]);
                let mut seller = dup_account(&accounts[1]);
                let mut listing = dup_account(&accounts[2]);
                let nft_mint = dup_account(&accounts[3]);
                let escrow_pda_ai = dup_account(&accounts[4]);
                let escrow_token = dup_account(&accounts[5]);
                let buyer_token = dup_account(&accounts[6]);
                let r = Self::process_buy_nft(
                    program_id,
                    &buyer,
                    &mut seller,
                    &mut listing,
                    &nft_mint,
                    &escrow_pda_ai,
                    &escrow_token,
                    &buyer_token,
                );
                accounts.set(1, seller);
                accounts.set(2, listing);
                r
            },
        }
    }
}

} // verus!
