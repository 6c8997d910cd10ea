use deal_platform::cli::rpc_url;
use deal_platform::codec::{
    decode_deal, decode_listing, decode_merchant, decode_redeem_log, decode_review, encode_deal,
    encode_listing, encode_merchant, encode_redeem_log, encode_review,
};
use deal_platform::error::DealError;
use deal_platform::instruction::{decode_instruction, encode_instruction, DealInstruction};
use deal_platform::state::{Deal, Listing, Merchant, RedeemLog, Review};

fn key(b: u8) -> [u8; 32] {
    [b; 32]
}

fn sample_merchant() -> Merchant {
    Merchant {
        merchant: key(7),
        name: b"ab".to_vec(),
        uri: b"c".to_vec(),
        total_deals: 5,
        collection_mint: key(9),
    }
}

fn sample_deal() -> Deal {
    Deal {
        deal_id: 3,
        merchant: key(7),
        title: b"t".to_vec(),
        description: b"dd".to_vec(),
        discount_percent: 15,
        expiry: -5,
        total_supply: 10,
        minted: 4,
        image_uri: b"img".to_vec(),
        metadata_uri: b"meta".to_vec(),
    }
}

#[test]
fn merchant_round_trip() {
    let m = sample_merchant();
    let bytes = encode_merchant(&m);
    assert_eq!(bytes.len(), 76 + 2 + 1);
    let back = decode_merchant(&bytes).unwrap();
    assert_eq!(back, m);
}

#[test]
fn merchant_exact_bytes() {
    let m = sample_merchant();
    let bytes = encode_merchant(&m);
    let mut expected = vec![7u8; 32];
    expected.extend_from_slice(&[2, 0, 0, 0, 97, 98]);
    expected.extend_from_slice(&[1, 0, 0, 0, 99]);
    expected.extend_from_slice(&[5, 0, 0, 0]);
    expected.extend_from_slice(&[9u8; 32]);
    assert_eq!(bytes, expected);
}

#[test]
fn merchant_decode_ignores_trailing_zeros() {
    let m = sample_merchant();
    let mut bytes = encode_merchant(&m);
    bytes.resize(340, 0);
    let back = decode_merchant(&bytes).unwrap();
    assert_eq!(back, m);
}

#[test]
fn merchant_decode_truncated_fails() {
    let m = sample_merchant();
    let bytes = encode_merchant(&m);
    for k in 0..bytes.len() {
        let cut = bytes[..k].to_vec();
        assert_eq!(decode_merchant(&cut), Err(DealError::InvalidInput));
    }
}

#[test]
fn deal_round_trip_with_negative_expiry() {
    let d = sample_deal();
    let bytes = encode_deal(&d);
    assert_eq!(bytes.len(), 73 + 1 + 2 + 3 + 4);
    let back = decode_deal(&bytes).unwrap();
    assert_eq!(back, d);
    assert_eq!(back.expiry, -5);
}

#[test]
fn deal_decode_truncated_fails() {
    let d = sample_deal();
    let bytes = encode_deal(&d);
    for k in 0..bytes.len() {
        let cut = bytes[..k].to_vec();
        assert_eq!(decode_deal(&cut), Err(DealError::InvalidInput));
    }
}

#[test]
fn review_round_trip() {
    let r = Review {
        user: key(1),
        deal: key(2),
        rating: 4,
        comment: b"nice deal".to_vec(),
        created_at: 1_700_000_000,
    };
    let bytes = encode_review(&r);
    assert_eq!(bytes.len(), 77 + 9);
    assert_eq!(decode_review(&bytes).unwrap(), r);
    let cut = bytes[..bytes.len() - 1].to_vec();
    assert_eq!(decode_review(&cut), Err(DealError::InvalidInput));
}

#[test]
fn redeem_log_round_trip() {
    let l = RedeemLog { token_mint: key(3), user: key(4), redeemed_at: 77 };
    let bytes = encode_redeem_log(&l);
    assert_eq!(bytes.len(), 72);
    assert_eq!(decode_redeem_log(&bytes).unwrap(), l);
    let cut = bytes[..71].to_vec();
    assert_eq!(decode_redeem_log(&cut), Err(DealError::InvalidInput));
}

#[test]
fn listing_round_trip() {
    let l = Listing { seller: key(5), nft_mint: key(6), price: 1_000, created_at: 42 };
    let bytes = encode_listing(&l);
    assert_eq!(bytes.len(), 80);
    assert_eq!(decode_listing(&bytes).unwrap(), l);
    let cut = bytes[..79].to_vec();
    assert_eq!(decode_listing(&cut), Err(DealError::InvalidInput));
}

#[test]
fn instruction_register_merchant_exact_bytes() {
    let ix = DealInstruction::RegisterMerchant { name: b"ab".to_vec(), uri: b"c".to_vec() };
    let bytes = encode_instruction(&ix);
    assert_eq!(bytes, vec![0u8, 2, 0, 0, 0, 97, 98, 1, 0, 0, 0, 99]);
    assert_eq!(decode_instruction(&bytes).unwrap(), ix);
}

#[test]
fn instruction_round_trips() {
    let cases = vec![
        DealInstruction::RegisterMerchant { name: b"n".to_vec(), uri: b"u".to_vec() },
        DealInstruction::CreateDeal {
            deal_id: 9,
            title: b"t".to_vec(),
            description: b"d".to_vec(),
            discount_percent: 50,
            expiry: -1,
            total_supply: 2,
            image_uri: b"i".to_vec(),
            metadata_uri: b"m".to_vec(),
        },
        DealInstruction::MintCouponNft { deal_id: 9 },
        DealInstruction::RedeemCoupon { mint: [8; 32] },
        DealInstruction::AddReview { deal_id: 9, rating: 5, comment: b"ok".to_vec() },
        DealInstruction::VerifyAndCountMint { deal_id: 9, mint: [8; 32] },
        DealInstruction::RedeemAndBurn { mint: [8; 32] },
        DealInstruction::SetCollectionMint { collection_mint: [8; 32] },
        DealInstruction::ListNft { price: 123 },
        DealInstruction::BuyNft,
    ];
    for ix in cases {
        let bytes = encode_instruction(&ix);
        assert_eq!(decode_instruction(&bytes).unwrap(), ix);
    }
}

#[test]
fn instruction_rejects_unknown_tag_and_trailing_bytes() {
    assert_eq!(
        decode_instruction(&vec![10u8]),
        Err(DealError::InvalidInstruction)
    );
    assert_eq!(decode_instruction(&vec![]), Err(DealError::InvalidInstruction));
    let mut bytes = encode_instruction(&DealInstruction::BuyNft);
    bytes.push(0);
    assert_eq!(decode_instruction(&bytes), Err(DealError::InvalidInstruction));
    let good = encode_instruction(&DealInstruction::MintCouponNft { deal_id: 1 });
    let cut = good[..good.len() - 1].to_vec();
    assert_eq!(decode_instruction(&cut), Err(DealError::InvalidInstruction));
}

#[test]
fn record_spaces() {
    assert_eq!(Merchant::space(), 340);
    assert_eq!(Deal::space(), 1065);
    assert_eq!(Review::space(), 357);
    assert_eq!(RedeemLog::space(), 72);
    assert_eq!(Listing::space(), 80);
}

#[test]
fn error_codes_are_stable() {
    assert_eq!(DealError::InvalidInstruction.code(), 0);
    assert_eq!(DealError::PdaDerivationMismatch.code(), 1);
    assert_eq!(DealError::AlreadyInitialized.code(), 2);
    assert_eq!(DealError::Overflow.code(), 3);
    assert_eq!(DealError::Unauthorized.code(), 4);
    assert_eq!(DealError::DealSoldOut.code(), 5);
    assert_eq!(DealError::AlreadyRedeemed.code(), 6);
    assert_eq!(DealError::InvalidInput.code(), 7);
}

#[test]
fn rpc_url_picks_cluster() {
    assert_eq!(rpc_url("localhost"), "http://127.0.0.1:8899");
    assert_eq!(rpc_url("devnet"), "https://api.devnet.solana.com");
    assert_eq!(rpc_url("anything"), "https://api.devnet.solana.com");
}

#[test]
fn merchant_round_trip_at_field_extremes() {
    let empty = Merchant {
        merchant: key(1),
        name: Vec::new(),
        uri: Vec::new(),
        total_deals: 0,
        collection_mint: [0; 32],
    };
    let bytes = encode_merchant(&empty);
    assert_eq!(bytes.len(), 76);
    assert_eq!(decode_merchant(&bytes).unwrap(), empty);

    let full = Merchant {
        merchant: key(1),
        name: vec![b'n'; 64],
        uri: vec![b'u'; 200],
        total_deals: u32::MAX,
        collection_mint: key(2),
    };
    let bytes = encode_merchant(&full);
    assert_eq!(bytes.len(), Merchant::space());
    assert_eq!(decode_merchant(&bytes).unwrap(), full);
}

#[test]
fn deal_round_trip_at_field_extremes() {
    let full = Deal {
        deal_id: u64::MAX,
        merchant: key(1),
        title: vec![b't'; 80],
        description: vec![b'd'; 512],
        discount_percent: 100,
        expiry: i64::MIN,
        total_supply: u32::MAX,
        minted: u32::MAX,
        image_uri: vec![b'i'; 200],
        metadata_uri: vec![b'm'; 200],
    };
    let bytes = encode_deal(&full);
    assert_eq!(bytes.len(), Deal::space());
    let back = decode_deal(&bytes).unwrap();
    assert_eq!(back, full);
    assert_eq!(back.expiry, i64::MIN);
}
