use deal_platform::pda::{
    derive_deal_pda, derive_escrow_pda, derive_listing_pda, derive_merchant_pda, derive_redeem_pda,
    derive_review_pda,
};
use solana_program::pubkey::Pubkey;

const PROGRAM_ID: [u8; 32] = [42; 32];

#[test]
fn merchant_pda_matches_direct_derivation() {
    let owner = [1u8; 32];
    let (addr, bump) = derive_merchant_pda(&owner, &PROGRAM_ID);
    let (expected, expected_bump) = Pubkey::find_program_address(
        &[b"merchant", owner.as_ref()],
        &Pubkey::new_from_array(PROGRAM_ID),
    );
    assert_eq!(addr, expected.to_bytes());
    assert_eq!(bump, expected_bump);
}

#[test]
fn deal_pda_matches_direct_derivation() {
    let owner = [1u8; 32];
    let deal_id: u64 = 77;
    let (addr, bump) = derive_deal_pda(&owner, deal_id, &PROGRAM_ID);
    let (expected, expected_bump) = Pubkey::find_program_address(
        &[b"deal", owner.as_ref(), &deal_id.to_le_bytes()],
        &Pubkey::new_from_array(PROGRAM_ID),
    );
    assert_eq!(addr, expected.to_bytes());
    assert_eq!(bump, expected_bump);
}

#[test]
fn review_pda_matches_direct_derivation() {
    let deal = [3u8; 32];
    let user = [4u8; 32];
    let (addr, _) = derive_review_pda(&deal, &user, &PROGRAM_ID);
    let (expected, _) = Pubkey::find_program_address(
        &[b"review", deal.as_ref(), user.as_ref()],
        &Pubkey::new_from_array(PROGRAM_ID),
    );
    assert_eq!(addr, expected.to_bytes());
}

#[test]
fn redeem_pda_matches_direct_derivation() {
    let mint = [5u8; 32];
    let (addr, _) = derive_redeem_pda(&mint, &PROGRAM_ID);
    let (expected, _) = Pubkey::find_program_address(
        &[b"redeem", mint.as_ref()],
        &Pubkey::new_from_array(PROGRAM_ID),
    );
    assert_eq!(addr, expected.to_bytes());
}

#[test]
fn listing_and_escrow_pdas_match_direct_derivation() {
    let mint = [5u8; 32];
    let seller = [6u8; 32];
    let (laddr, _) = derive_listing_pda(&mint, &seller, &PROGRAM_ID);
    let (expected_l, _) = Pubkey::find_program_address(
        &[b"listing", mint.as_ref(), seller.as_ref()],
        &Pubkey::new_from_array(PROGRAM_ID),
    );
    assert_eq!(laddr, expected_l.to_bytes());
    let (eaddr, _) = derive_escrow_pda(&mint, &PROGRAM_ID);
    let (expected_e, _) = Pubkey::find_program_address(
        &[b"escrow", mint.as_ref()],
        &Pubkey::new_from_array(PROGRAM_ID),
    );
    assert_eq!(eaddr, expected_e.to_bytes());
}

#[test]
fn derivation_is_deterministic() {
    let owner = [7u8; 32];
    let a = derive_merchant_pda(&owner, &PROGRAM_ID);
    let b = derive_merchant_pda(&owner, &PROGRAM_ID);
    assert_eq!(a, b);
}
