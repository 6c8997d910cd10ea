use deal_platform::account::{AccountData, Action};
use deal_platform::codec::{decode_deal, decode_listing, decode_merchant, decode_redeem_log,
    decode_review, encode_deal, encode_listing, encode_merchant};
use deal_platform::error::DealError;
use deal_platform::instruction::{encode_instruction, DealInstruction};
use deal_platform::pda::{
    derive_deal_pda, derive_escrow_pda, derive_listing_pda, derive_merchant_pda, derive_redeem_pda,
    derive_review_pda,
};
use deal_platform::processor::Processor;
use deal_platform::state::{Deal, Listing, Merchant};

const PROGRAM_ID: [u8; 32] = [42; 32];

fn key(b: u8) -> [u8; 32] {
    [b; 32]
}

fn signer(address: [u8; 32]) -> AccountData {
    AccountData { address, is_signer: true, lamports: 0, data: Vec::new() }
}

fn plain(address: [u8; 32]) -> AccountData {
    AccountData { address, is_signer: false, lamports: 0, data: Vec::new() }
}

fn registered_merchant(owner: [u8; 32]) -> AccountData {
    let mut pda = plain(derive_merchant_pda(&owner, &PROGRAM_ID).0);
    let r = Processor::process_register_merchant(
        &PROGRAM_ID,
        &signer(owner),
        &mut pda,
        &b"shop".to_vec(),
        &b"https://shop.example".to_vec(),
    );
    assert!(r.is_ok());
    pda
}

fn deal_account(owner: [u8; 32], deal_id: u64, total_supply: u32, minted: u32) -> AccountData {
    let mut a = plain(derive_deal_pda(&owner, deal_id, &PROGRAM_ID).0);
    let mut data = encode_deal(&Deal {
        deal_id,
        merchant: owner,
        title: b"t".to_vec(),
        description: b"d".to_vec(),
        discount_percent: 10,
        expiry: 0,
        total_supply,
        minted,
        image_uri: b"i".to_vec(),
        metadata_uri: b"m".to_vec(),
    });
    data.resize(Deal::space(), 0);
    a.data = data;
    a
}

#[test]
fn register_merchant_creates_record_once() {
    let owner = key(1);
    let payer = signer(owner);
    let (addr, bump) = derive_merchant_pda(&owner, &PROGRAM_ID);
    let mut pda = plain(addr);
    let acts = Processor::process_register_merchant(
        &PROGRAM_ID,
        &payer,
        &mut pda,
        &b"shop".to_vec(),
        &b"uri".to_vec(),
    )
    .unwrap();
    assert_eq!(pda.data.len(), Merchant::space());
    let m = decode_merchant(&pda.data).unwrap();
    assert_eq!(m.merchant, owner);
    assert_eq!(m.name, b"shop".to_vec());
    assert_eq!(m.total_deals, 0);
    assert_eq!(m.collection_mint, [0u8; 32]);
    assert_eq!(
        acts,
        vec![Action::CreateAccount { payer: owner, address: addr, space: 340, bump }]
    );
    // replay of the same registration is refused, and the record is untouched
    let before = pda.data.clone();
    let second = Processor::process_register_merchant(
        &PROGRAM_ID,
        &payer,
        &mut pda,
        &b"shop".to_vec(),
        &b"uri".to_vec(),
    );
    assert_eq!(second, Err(DealError::AlreadyInitialized));
    assert_eq!(pda.data, before);
}

#[test]
fn register_merchant_validates_inputs() {
    let owner = key(1);
    let (addr, _) = derive_merchant_pda(&owner, &PROGRAM_ID);
    let mut pda = plain(addr);
    let long_name = vec![b'x'; 65];
    assert_eq!(
        Processor::process_register_merchant(
            &PROGRAM_ID,
            &signer(owner),
            &mut pda,
            &long_name,
            &b"u".to_vec()
        ),
        Err(DealError::InvalidInput)
    );
    let long_uri = vec![b'x'; 201];
    assert_eq!(
        Processor::process_register_merchant(
            &PROGRAM_ID,
            &signer(owner),
            &mut pda,
            &b"n".to_vec(),
            &long_uri
        ),
        Err(DealError::InvalidInput)
    );
    assert_eq!(
        Processor::process_register_merchant(
            &PROGRAM_ID,
            &plain(owner),
            &mut pda,
            &b"n".to_vec(),
            &b"u".to_vec()
        ),
        Err(DealError::Unauthorized)
    );
    let mut wrong = plain(key(8));
    assert_eq!(
        Processor::process_register_merchant(
            &PROGRAM_ID,
            &signer(owner),
            &mut wrong,
            &b"n".to_vec(),
            &b"u".to_vec()
        ),
        Err(DealError::PdaDerivationMismatch)
    );
}

#[test]
fn set_collection_mint_updates_merchant() {
    let owner = key(1);
    let payer = signer(owner);
    let mut pda = registered_merchant(owner);
    let acts = Processor::process_set_collection_mint(&PROGRAM_ID, &payer, &mut pda, &key(9))
        .unwrap();
    assert!(acts.is_empty());
    let m = decode_merchant(&pda.data).unwrap();
    assert_eq!(m.collection_mint, key(9));
    assert_eq!(m.name, b"shop".to_vec());
    assert_eq!(pda.data.len(), Merchant::space());
}

#[test]
fn create_deal_starts_at_zero_and_counts_merchant_deals() {
    let owner = key(1);
    let payer = signer(owner);
    let mut merchant = registered_merchant(owner);
    let (deal_addr, bump) = derive_deal_pda(&owner, 7, &PROGRAM_ID);
    let mut deal = plain(deal_addr);
    let acts = Processor::process_create_deal(
        &PROGRAM_ID,
        &payer,
        &mut merchant,
        &mut deal,
        7,
        &b"title".to_vec(),
        &b"desc".to_vec(),
        25,
        1_800_000_000,
        3,
        &b"img".to_vec(),
        &b"meta".to_vec(),
    )
    .unwrap();
    assert_eq!(
        acts,
        vec![Action::CreateAccount { payer: owner, address: deal_addr, space: 1065, bump }]
    );
    let d = decode_deal(&deal.data).unwrap();
    assert_eq!(d.minted, 0);
    assert_eq!(d.total_supply, 3);
    assert_eq!(d.deal_id, 7);
    let m = decode_merchant(&merchant.data).unwrap();
    assert_eq!(m.total_deals, 1);
    // replay against the populated deal slot is refused
    let second = Processor::process_create_deal(
        &PROGRAM_ID,
        &payer,
        &mut merchant,
        &mut deal,
        7,
        &b"title".to_vec(),
        &b"desc".to_vec(),
        25,
        1_800_000_000,
        3,
        &b"img".to_vec(),
        &b"meta".to_vec(),
    );
    assert_eq!(second, Err(DealError::AlreadyInitialized));
}

#[test]
fn mint_coupon_counts_to_supply_then_sells_out() {
    let owner = key(1);
    let user = signer(key(2));
    let merchant = registered_merchant(owner);
    let mut deal = deal_account(owner, 7, 3, 0);
    for expected in 1..=3u32 {
        Processor::process_mint_coupon(&PROGRAM_ID, &user, &merchant, &mut deal, 7).unwrap();
        assert_eq!(decode_deal(&deal.data).unwrap().minted, expected);
    }
    let next = Processor::process_mint_coupon(&PROGRAM_ID, &user, &merchant, &mut deal, 7);
    assert_eq!(next, Err(DealError::DealSoldOut));
    assert_eq!(decode_deal(&deal.data).unwrap().minted, 3);
}

#[test]
fn verify_and_count_checks_before_counting() {
    let owner = key(1);
    let user = signer(key(2));
    let merchant = registered_merchant(owner);
    let mut deal = deal_account(owner, 7, 2, 2);
    let r = Processor::process_verify_and_count_mint(&PROGRAM_ID, &user, &merchant, &mut deal, 7);
    assert_eq!(r, Err(DealError::DealSoldOut));
    let mut open_deal = deal_account(owner, 8, 2, 1);
    Processor::process_verify_and_count_mint(&PROGRAM_ID, &user, &merchant, &mut open_deal, 8)
        .unwrap();
    assert_eq!(decode_deal(&open_deal.data).unwrap().minted, 2);
}

#[test]
fn mint_policies_differ_at_counter_ceiling() {
    let owner = key(1);
    let user = signer(key(2));
    let merchant = registered_merchant(owner);
    // counter at its ceiling: the post-check policy trips on the counter,
    // the pre-check policy reports the sell-out it sees first
    let mut full = deal_account(owner, 7, u32::MAX, u32::MAX);
    assert_eq!(
        Processor::process_mint_coupon(&PROGRAM_ID, &user, &merchant, &mut full, 7),
        Err(DealError::Overflow)
    );
    assert_eq!(
        Processor::process_verify_and_count_mint(&PROGRAM_ID, &user, &merchant, &mut full, 7),
        Err(DealError::DealSoldOut)
    );
}

#[test]
fn redeem_coupon_is_one_time() {
    let user = signer(key(2));
    let mint = key(5);
    let (addr, bump) = derive_redeem_pda(&mint, &PROGRAM_ID);
    let mut log = plain(addr);
    let acts = Processor::process_redeem_coupon(&PROGRAM_ID, &user, &mut log, &mint, 1234).unwrap();
    assert_eq!(
        acts,
        vec![Action::CreateAccount { payer: key(2), address: addr, space: 72, bump }]
    );
    let l = decode_redeem_log(&log.data).unwrap();
    assert_eq!(l.token_mint, mint);
    assert_eq!(l.user, key(2));
    assert_eq!(l.redeemed_at, 1234);
    let second = Processor::process_redeem_coupon(&PROGRAM_ID, &user, &mut log, &mint, 9999);
    assert_eq!(second, Err(DealError::AlreadyRedeemed));
    assert_eq!(decode_redeem_log(&log.data).unwrap().redeemed_at, 1234);
}

#[test]
fn redeem_and_burn_burns_then_logs_once() {
    let user = signer(key(2));
    let user_token = plain(key(3));
    let mint = key(5);
    let mint_ai = plain(mint);
    let (addr, bump) = derive_redeem_pda(&mint, &PROGRAM_ID);
    let mut log = plain(addr);
    let acts = Processor::process_redeem_and_burn(
        &PROGRAM_ID,
        &user,
        &user_token,
        &mint_ai,
        &mut log,
        &mint,
        55,
    )
    .unwrap();
    assert_eq!(
        acts,
        vec![
            Action::BurnToken { account: key(3), mint, authority: key(2), amount: 1 },
            Action::CreateAccount { payer: key(2), address: addr, space: 72, bump },
        ]
    );
    assert_eq!(decode_redeem_log(&log.data).unwrap().redeemed_at, 55);
    let second = Processor::process_redeem_and_burn(
        &PROGRAM_ID,
        &user,
        &user_token,
        &mint_ai,
        &mut log,
        &mint,
        56,
    );
    assert_eq!(second, Err(DealError::AlreadyRedeemed));
    // a claimed mint that does not match the mint account is invalid input
    let mut fresh = plain(derive_redeem_pda(&key(6), &PROGRAM_ID).0);
    let r = Processor::process_redeem_and_burn(
        &PROGRAM_ID,
        &user,
        &user_token,
        &mint_ai,
        &mut fresh,
        &key(6),
        57,
    );
    assert_eq!(r, Err(DealError::InvalidInput));
}

#[test]
fn add_review_checks_rating_and_is_one_time() {
    let owner = key(1);
    let user = signer(key(2));
    let merchant = registered_merchant(owner);
    let deal = deal_account(owner, 7, 5, 0);
    let (raddr, _) = derive_review_pda(&deal.address, &key(2), &PROGRAM_ID);
    let mut review = plain(raddr);
    for bad in [0u8, 6u8] {
        let r = Processor::process_add_review(
            &PROGRAM_ID,
            &user,
            &merchant,
            &deal,
            &mut review,
            7,
            bad,
            &b"c".to_vec(),
            10,
        );
        assert_eq!(r, Err(DealError::InvalidInput));
    }
    Processor::process_add_review(
        &PROGRAM_ID,
        &user,
        &merchant,
        &deal,
        &mut review,
        7,
        5,
        &b"great".to_vec(),
        10,
    )
    .unwrap();
    let v = decode_review(&review.data).unwrap();
    assert_eq!(v.rating, 5);
    assert_eq!(v.comment, b"great".to_vec());
    assert_eq!(v.deal, deal.address);
    assert_eq!(v.created_at, 10);
    let again = Processor::process_add_review(
        &PROGRAM_ID,
        &user,
        &merchant,
        &deal,
        &mut review,
        7,
        3,
        &b"again".to_vec(),
        11,
    );
    assert_eq!(again, Err(DealError::AlreadyInitialized));
}

#[test]
fn list_then_buy_moves_listing_rent_and_token() {
    let seller_key = key(1);
    let buyer_key = key(2);
    let nft_mint = plain(key(3));
    let seller_token = plain(key(4));
    let escrow_token = plain(key(5));
    let buyer_token = plain(key(6));
    let (laddr, lbump) = derive_listing_pda(&nft_mint.address, &seller_key, &PROGRAM_ID);
    let mut listing = plain(laddr);
    let acts = Processor::process_list_nft(
        &PROGRAM_ID,
        &signer(seller_key),
        &mut listing,
        &nft_mint,
        &seller_token,
        &escrow_token,
        500,
        99,
    )
    .unwrap();
    assert_eq!(
        acts,
        vec![
            Action::CreateAccount { payer: seller_key, address: laddr, space: 80, bump: lbump },
            Action::TransferToken { from: key(4), to: key(5), authority: seller_key, amount: 1 },
        ]
    );
    let stored = decode_listing(&listing.data).unwrap();
    assert_eq!(stored.seller, seller_key);
    assert_eq!(stored.price, 500);

    listing.lamports = 111;
    let mut seller = plain(seller_key);
    seller.lamports = 1000;
    let (eaddr, _) = derive_escrow_pda(&nft_mint.address, &PROGRAM_ID);
    let escrow_pda_ai = plain(eaddr);
    let acts = Processor::process_buy_nft(
        &PROGRAM_ID,
        &signer(buyer_key),
        &mut seller,
        &mut listing,
        &nft_mint,
        &escrow_pda_ai,
        &escrow_token,
        &buyer_token,
    )
    .unwrap();
    assert_eq!(
        acts,
        vec![
            Action::TransferLamports { from: buyer_key, to: seller_key, amount: 500 },
            Action::TransferToken { from: key(5), to: key(6), authority: eaddr, amount: 1 },
        ]
    );
    assert_eq!(seller.lamports, 1111);
    assert_eq!(listing.lamports, 0);
    assert_eq!(listing.data, vec![0u8; 80]);
}

#[test]
fn buy_nft_rejects_tampered_seller() {
    let seller_key = key(1);
    let nft_mint = plain(key(3));
    let (laddr, _) = derive_listing_pda(&nft_mint.address, &seller_key, &PROGRAM_ID);
    let mut listing = plain(laddr);
    // a listing whose stored seller was replaced out of band
    listing.data = encode_listing(&Listing {
        seller: key(9),
        nft_mint: key(3),
        price: 500,
        created_at: 99,
    });
    let mut seller = plain(seller_key);
    let (eaddr, _) = derive_escrow_pda(&nft_mint.address, &PROGRAM_ID);
    let r = Processor::process_buy_nft(
        &PROGRAM_ID,
        &signer(key(2)),
        &mut seller,
        &mut listing,
        &nft_mint,
        &plain(eaddr),
        &plain(key(5)),
        &plain(key(6)),
    );
    assert_eq!(r, Err(DealError::Unauthorized));
}

#[test]
fn process_dispatches_and_validates_requests() {
    let owner = key(1);
    let (maddr, _) = derive_merchant_pda(&owner, &PROGRAM_ID);
    let data = encode_instruction(&DealInstruction::RegisterMerchant {
        name: b"shop".to_vec(),
        uri: b"uri".to_vec(),
    });
    let mut accounts = vec![signer(owner), plain(maddr), plain(key(0))];
    let acts = Processor::process(&PROGRAM_ID, &mut accounts, &data, 0).unwrap();
    assert_eq!(acts.len(), 1);
    let m = decode_merchant(&accounts[1].data).unwrap();
    assert_eq!(m.total_deals, 0);
    // an unknown tag is an invalid instruction
    let r = Processor::process(&PROGRAM_ID, &mut accounts, &vec![99u8], 0);
    assert_eq!(r, Err(DealError::InvalidInstruction));
    // a missing account is a validation failure, not a panic
    let mut short = vec![signer(owner)];
    let r = Processor::process(&PROGRAM_ID, &mut short, &data, 0);
    assert_eq!(r, Err(DealError::InvalidInput));
}

#[test]
fn process_mints_through_the_dispatcher() {
    let owner = key(1);
    let user = key(2);
    let merchant = registered_merchant(owner);
    let deal = deal_account(owner, 7, 1, 0);
    let data = encode_instruction(&DealInstruction::MintCouponNft { deal_id: 7 });
    let mut accounts = vec![signer(user), merchant, deal];
    Processor::process(&PROGRAM_ID, &mut accounts, &data, 0).unwrap();
    assert_eq!(decode_deal(&accounts[2].data).unwrap().minted, 1);
    let r = Processor::process(&PROGRAM_ID, &mut accounts, &data, 0);
    assert_eq!(r, Err(DealError::DealSoldOut));
}

#[test]
fn assert_len_enforces_caps() {
    assert!(Processor::assert_len(&vec![0u8; 64], 64).is_ok());
    assert_eq!(
        Processor::assert_len(&vec![0u8; 65], 64),
        Err(DealError::InvalidInput)
    );
}

#[test]
fn process_lists_and_buys_through_the_dispatcher() {
    let seller_key = key(1);
    let buyer_key = key(2);
    let nft_mint_key = key(3);
    let (laddr, _) = derive_listing_pda(&nft_mint_key, &seller_key, &PROGRAM_ID);
    let (eaddr, _) = derive_escrow_pda(&nft_mint_key, &PROGRAM_ID);
    let token_program = plain(key(10));
    let system = plain(key(0));

    let list_data = encode_instruction(&DealInstruction::ListNft { price: 500 });
    let mut accounts = vec![
        signer(seller_key),
        plain(laddr),
        plain(nft_mint_key),
        plain(key(4)),
        plain(key(5)),
        token_program.clone(),
        system.clone(),
    ];
    let acts = Processor::process(&PROGRAM_ID, &mut accounts, &list_data, 99).unwrap();
    assert_eq!(acts.len(), 2);
    let listing = accounts[1].clone();
    assert_eq!(decode_listing(&listing.data).unwrap().price, 500);

    let buy_data = encode_instruction(&DealInstruction::BuyNft);
    let mut listing_with_rent = listing;
    listing_with_rent.lamports = 111;
    let mut seller = plain(seller_key);
    seller.lamports = 1000;
    let mut accounts = vec![
        signer(buyer_key),
        seller,
        listing_with_rent,
        plain(nft_mint_key),
        plain(eaddr),
        plain(key(5)),
        plain(key(6)),
        token_program,
        system,
    ];
    let acts = Processor::process(&PROGRAM_ID, &mut accounts, &buy_data, 100).unwrap();
    assert_eq!(acts.len(), 2);
    assert_eq!(accounts[1].lamports, 1111);
    assert_eq!(accounts[2].lamports, 0);
    assert_eq!(accounts[2].data, vec![0u8; 80]);
}

#[test]
fn process_sets_collection_mint_through_the_dispatcher() {
    let owner = key(1);
    let merchant = registered_merchant(owner);
    let data = encode_instruction(&DealInstruction::SetCollectionMint { collection_mint: key(9) });
    let mut accounts = vec![signer(owner), merchant];
    let acts = Processor::process(&PROGRAM_ID, &mut accounts, &data, 0).unwrap();
    assert!(acts.is_empty());
    assert_eq!(decode_merchant(&accounts[1].data).unwrap().collection_mint, key(9));
}

#[test]
fn process_redeems_through_the_dispatcher() {
    let user = key(2);
    let mint = key(5);
    let (addr, _) = derive_redeem_pda(&mint, &PROGRAM_ID);
    let data = encode_instruction(&DealInstruction::RedeemCoupon { mint });
    let mut accounts = vec![signer(user), plain(addr), plain(key(0))];
    Processor::process(&PROGRAM_ID, &mut accounts, &data, 321).unwrap();
    assert_eq!(decode_redeem_log(&accounts[1].data).unwrap().redeemed_at, 321);
    let r = Processor::process(&PROGRAM_ID, &mut accounts, &data, 322);
    assert_eq!(r, Err(DealError::AlreadyRedeemed));
}

#[test]
fn list_nft_rejects_relisting() {
    let seller_key = key(1);
    let nft_mint = plain(key(3));
    let seller_token = plain(key(4));
    let escrow_token = plain(key(5));
    let (laddr, _) = derive_listing_pda(&nft_mint.address, &seller_key, &PROGRAM_ID);
    let mut listing = plain(laddr);
    Processor::process_list_nft(
        &PROGRAM_ID,
        &signer(seller_key),
        &mut listing,
        &nft_mint,
        &seller_token,
        &escrow_token,
        500,
        99,
    )
    .unwrap();
    let before = listing.data.clone();
    let second = Processor::process_list_nft(
        &PROGRAM_ID,
        &signer(seller_key),
        &mut listing,
        &nft_mint,
        &seller_token,
        &escrow_token,
        700,
        100,
    );
    assert_eq!(second, Err(DealError::AlreadyInitialized));
    assert_eq!(listing.data, before);
}
