use vstd::prelude::*;

use crate::codec::{
    enc_bytes, i64_bytes, lemma_parse_arr32_at, lemma_parse_bytes_at, lemma_parse_i64_at,
    lemma_parse_u32_at, lemma_parse_u64_at, p_arr32, p_bytes, p_i64, p_u32, p_u64, p_u8, push_arr32,
    push_bytes, push_i64, push_u32, push_u64, read_arr32, read_bytes, read_i64, read_u32, read_u64,
    read_u8, u32_bytes, u64_bytes,
};
use crate::error::DealError;

verus! {

/// The closed set of operations a request can select, decoded from a tag byte
/// followed by the length-prefixed encoding of the payload fields.
#[derive(Clone, Debug, PartialEq, Eq)]
pub enum DealInstruction {
    RegisterMerchant { name: Vec<u8>, uri: Vec<u8> },
    CreateDeal {
        deal_id: u64,
        title: Vec<u8>,
        description: Vec<u8>,
        discount_percent: u8,
        expiry: i64,
        total_supply: u32,
        image_uri: Vec<u8>,
        metadata_uri: Vec<u8>,
    },
    MintCouponNft { deal_id: u64 },
    RedeemCoupon { mint: [u8; 32] },
    AddReview { deal_id: u64, rating: u8, comment: Vec<u8> },
    VerifyAndCountMint { deal_id: u64, mint: [u8; 32] },
    RedeemAndBurn { mint: [u8; 32] },
    SetCollectionMint { collection_mint: [u8; 32] },
    ListNft { price: u64 },
    BuyNft,
}

/// Mathematical model of a decoded request.
#[verifier::ext_equal]
pub ghost enum InstructionV {
    RegisterMerchant { name: Seq<u8>, uri: Seq<u8> },
    CreateDeal {
        deal_id: u64,
        title: Seq<u8>,
        description: Seq<u8>,
        discount_percent: u8,
        expiry: i64,
        total_supply: u32,
        image_uri: Seq<u8>,
        metadata_uri: Seq<u8>,
    },
    MintCouponNft { deal_id: u64 },
    RedeemCoupon { mint: Seq<u8> },
    AddReview { deal_id: u64, rating: u8, comment: Seq<u8> },
    VerifyAndCountMint { deal_id: u64, mint: Seq<u8> },
    RedeemAndBurn { mint: Seq<u8> },
    SetCollectionMint { collection_mint: Seq<u8> },
    ListNft { price: u64 },
    BuyNft,
}

impl View for DealInstruction {
    type V = InstructionV;

    open spec fn view(&self) -> InstructionV {
        match self {
            DealInstruction::RegisterMerchant { name, uri } => InstructionV::RegisterMerchant {
                name: name@,
                uri: uri@,
            },
            DealInstruction::CreateDeal {
                deal_id,
                title,
                description,
                discount_percent,
                expiry,
                total_supply,
                image_uri,
                metadata_uri,
            } => InstructionV::CreateDeal {
                deal_id: *deal_id,
                title: title@,
                description: description@,
                discount_percent: *discount_percent,
                expiry: *expiry,
                total_supply: *total_supply,
                image_uri: image_uri@,
                metadata_uri: metadata_uri@,
            },
            DealInstruction::MintCouponNft { deal_id } => InstructionV::MintCouponNft {
                deal_id: *deal_id,
            },
            DealInstruction::RedeemCoupon { mint } => InstructionV::RedeemCoupon { mint: mint@ },
            DealInstruction::AddReview { deal_id, rating, comment } => InstructionV::AddReview {
                deal_id: *deal_id,
                rating: *rating,
                comment: comment@,
            },
            DealInstruction::VerifyAndCountMint { deal_id, mint } => {
                InstructionV::VerifyAndCountMint { deal_id: *deal_id, mint: mint@ }
            },
            DealInstruction::RedeemAndBurn { mint } => InstructionV::RedeemAndBurn { mint: mint@ },
            DealInstruction::SetCollectionMint { collection_mint } => {
                InstructionV::SetCollectionMint { collection_mint: collection_mint@ }
            },
            DealInstruction::ListNft { price } => InstructionV::ListNft { price: *price },
            DealInstruction::BuyNft => InstructionV::BuyNft,
        }
    }
}

/// Payload byte strings must fit their 32-bit length prefix.
pub open spec fn instruction_encodable(v: InstructionV) -> bool {
    match v {
        InstructionV::RegisterMerchant { name, uri } => name.len() < 0x1_0000_0000 && uri.len()
            < 0x1_0000_0000,
        InstructionV::CreateDeal { title, description, image_uri, metadata_uri, .. } => title.len()
            < 0x1_0000_0000 && description.len() < 0x1_0000_0000 && image_uri.len()
            < 0x1_0000_0000 && metadata_uri.len() < 0x1_0000_0000,
        InstructionV::RedeemCoupon { mint } => mint.len() == 32,
        InstructionV::AddReview { comment, .. } => comment.len() < 0x1_0000_0000,
        InstructionV::VerifyAndCountMint { mint, .. } => mint.len() == 32,
        InstructionV::RedeemAndBurn { mint } => mint.len() == 32,
        InstructionV::SetCollectionMint { collection_mint } => collection_mint.len() == 32,
        _ => true,
    }
}

pub open spec fn enc_instruction(v: InstructionV) -> Seq<u8> {
    match v {
        InstructionV::RegisterMerchant { name, uri } => seq![0u8] + enc_bytes(name) + enc_bytes(
            uri,
        ),
        InstructionV::CreateDeal {
            deal_id,
            title,
            description,
            discount_percent,
            expiry,
            total_supply,
            image_uri,
            metadata_uri,
        } => seq![1u8] + u64_bytes(deal_id) + enc_bytes(title) + enc_bytes(description) + seq![
            discount_percent,
        ] + i64_bytes(expiry) + u32_bytes(total_supply) + enc_bytes(image_uri) + enc_bytes(
            metadata_uri,
        ),
        InstructionV::MintCouponNft { deal_id } => seq![2u8] + u64_bytes(deal_id),
        InstructionV::RedeemCoupon { mint } => seq![3u8] + mint,
        InstructionV::AddReview { deal_id, rating, comment } => seq![4u8] + u64_bytes(deal_id)
            + seq![rating] + enc_bytes(comment),
        InstructionV::VerifyAndCountMint { deal_id, mint } => seq![5u8] + u64_bytes(deal_id) + mint,
        InstructionV::RedeemAndBurn { mint } => seq![6u8] + mint,
        InstructionV::SetCollectionMint { collection_mint } => seq![7u8] + collection_mint,
        InstructionV::ListNft { price } => seq![8u8] + u64_bytes(price),
        InstructionV::BuyNft => seq![9u8],
    }
}

pub open spec fn parse_instruction(s: Seq<u8>) -> Option<(InstructionV, int)> {
    match p_u8(s, 0) {
        None => None,
        Some(tag) => {
            if tag == 0 {
                match p_bytes(s, 1) {
                    None => None,
                    Some(name) => {
                        let i1 = 5 + name.len() as int;
                        match p_bytes(s, i1) {
                            None => None,
                            Some(uri) => Some(
                                (InstructionV::RegisterMerchant { name, uri }, i1 + 4 + uri.len()),
                            ),
                        }
                    },
                }
            } else if tag == 1 {
                match p_u64(s, 1) {
                    None => None,
                    Some(deal_id) => match p_bytes(s, 9) {
                        None => None,
                        Some(title) => {
                            let i1 = 13 + title.len() as int;
                            match p_bytes(s, i1) {
                                None => None,
                                Some(description) => {
                                    let i2 = i1 + 4 + description.len() as int;
                                    match p_u8(s, i2) {
                                        None => None,
                                        Some(discount_percent) => match p_i64(s, i2 + 1) {
                                            None => None,
                                            Some(expiry) => match p_u32(s, i2 + 9) {
                                                None => None,
                                                Some(total_supply) => match p_bytes(s, i2 + 13) {
                                                    None => None,
                                                    Some(image_uri) => {
                                                        let i3 = i2 + 17 + image_uri.len() as int;
                                                        match p_bytes(s, i3) {
                                                            None => None,
                                                            Some(metadata_uri) => Some(
                                                                (
                                                                    InstructionV::CreateDeal {
                                                                        deal_id,
                                                                        title,
                                                                        description,
                                                                        discount_percent,
                                                                        expiry,
                                                                        total_supply,
                                                                        image_uri,
                                                                        metadata_uri,
                                                                    },
                                                                    i3 + 4 + metadata_uri.len(),
                                                                ),
                                                            ),
                                                        }
                                                    },
                                                },
                                            },
                                        },
                                    }
                                },
                            }
                        },
                    },
                }
            } else if tag == 2 {
                match p_u64(s, 1) {
                    None => None,
                    Some(deal_id) => Some((InstructionV::MintCouponNft { deal_id }, 9int)),
                }
            } else if tag == 3 {
                match p_arr32(s, 1) {
                    None => None,
                    Some(mint) => Some((InstructionV::RedeemCoupon { mint }, 33int)),
                }
            } else if tag == 4 {
                match p_u64(s, 1) {
                    None => None,
                    Some(deal_id) => match p_u8(s, 9) {
                        None => None,
                        Some(rating) => match p_bytes(s, 10) {
                            None => None,
                            Some(comment) => Some(
                                (
                                    InstructionV::AddReview { deal_id, rating, comment },
                                    14 + comment.len() as int,
                                ),
                            ),
                        },
                    },
                }
            } else if tag == 5 {
                match p_u64(s, 1) {
                    None => None,
                    Some(deal_id) => match p_arr32(s, 9) {
                        None => None,
                        Some(mint) => Some((InstructionV::VerifyAndCountMint { deal_id, mint }, 41int)),
                    },
                }
            } else if tag == 6 {
                match p_arr32(s, 1) {
                    None => None,
                    Some(mint) => Some((InstructionV::RedeemAndBurn { mint }, 33int)),
                }
            } else if tag == 7 {
                match p_arr32(s, 1) {
                    None => None,
                    Some(collection_mint) => Some(
                        (InstructionV::SetCollectionMint { collection_mint }, 33int),
                    ),
                }
            } else if tag == 8 {
                match p_u64(s, 1) {
                    None => None,
                    Some(price) => Some((InstructionV::ListNft { price }, 9int)),
                }
            } else if tag == 9 {
                Some((InstructionV::BuyNft, 1int))
            } else {
                None
            }
        },
    }
}

/// Serializes a request exactly as the deployed callers expect it: the tag
/// byte, then each payload field in declaration order.
pub fn encode_instruction(ix: &DealInstruction) -> (r: Vec<u8>)
    requires
        instruction_encodable(ix@),
    ensures
        r@ == enc_instruction(ix@),
{
    let mut out: Vec<u8> = Vec::new();
    match ix {
        DealInstruction::RegisterMerchant { name, uri } => {
            out.push(0u8);
            push_bytes(&mut out, name);
            push_bytes(&mut out, uri);
        },
        DealInstruction::CreateDeal {
            deal_id,
            title,
            description,
            discount_percent,
            expiry,
            total_supply,
            image_uri,
            metadata_uri,
        } => {
            out.push(1u8);
            push_u64(&mut out, *deal_id);
            push_bytes(&mut out, title);
            push_bytes(&mut out, description);
            out.push(*discount_percent);
            push_i64(&mut out, *expiry);
            push_u32(&mut out, *total_supply);
            push_bytes(&mut out, image_uri);
            push_bytes(&mut out, metadata_uri);
        },
        DealInstruction::MintCouponNft { deal_id } => {
            out.push(2u8);
            push_u64(&mut out, *deal_id);
        },
        DealInstruction::RedeemCoupon { mint } => {
            out.push(3u8);
            push_arr32(&mut out, mint);
        },
        DealInstruction::AddReview { deal_id, rating, comment } => {
            out.push(4u8);
            push_u64(&mut out, *deal_id);
            out.push(*rating);
            push_bytes(&mut out, comment);
        },
        DealInstruction::VerifyAndCountMint { deal_id, mint } => {
            out.push(5u8);
            push_u64(&mut out, *deal_id);
            push_arr32(&mut out, mint);
        },
        DealInstruction::RedeemAndBurn { mint } => {
            out.push(6u8);
            push_arr32(&mut out, mint);
        },
        DealInstruction::SetCollectionMint { collection_mint } => {
            out.push(7u8);
            push_arr32(&mut out, collection_mint);
        },
        DealInstruction::ListNft { price } => {
            out.push(8u8);
            push_u64(&mut out, *price);
        },
        DealInstruction::BuyNft => {
            out.push(9u8);
        },
    }
    assert(out@ =~= enc_instruction(ix@));
    out
}

/// Decodes a request buffer; the whole buffer must be consumed, anything else
/// is an unrecognized request.
pub fn decode_instruction(data: &Vec<u8>) -> (r: Result<DealInstruction, DealError>)
    ensures
        match r {
            Ok(ix) => parse_instruction(data@) == Some((ix@, data@.len() as int)),
            Err(e) => {
                &&& e == DealError::InvalidInstruction
                &&& !(parse_instruction(data@) matches Some(p) && p.1 == data@.len())
            },
        },
{
    proof {
        assert(data@.len() == data.len());
    }
    let tag = match read_u8(data, 0) {
        Some(t) => t,
        None => {
            return Err(DealError::InvalidInstruction);
        },
    };
    let (ix, end): (DealInstruction, usize) = if tag == 0 {
        let name = match read_bytes(data, 1) {
            Some(v) => v,
            None => {
                return Err(DealError::InvalidInstruction);
            },
        };
        let i1: usize = 5 + name.len();
        let uri = match read_bytes(data, i1) {
            Some(v) => v,
            None => {
                return Err(DealError::InvalidInstruction);
            },
        };
        let end = i1 + 4 + uri.len();
        (DealInstruction::RegisterMerchant { name, uri }, end)
    } else if tag == 1 {
        let deal_id = match read_u64(data, 1) {
            Some(x) => x,
            None => {
                return Err(DealError::InvalidInstruction);
            },
        };
        let title = match read_bytes(data, 9) {
            Some(v) => v,
            None => {
                return Err(DealError::InvalidInstruction);
            },
        };
        let i1: usize = 13 + title.len();
        let description = match read_bytes(data, i1) {
            Some(v) => v,
            None => {
                return Err(DealError::InvalidInstruction);
            },
        };
        let i2: usize = i1 + 4 + description.len();
        let discount_percent = match read_u8(data, i2) {
            Some(x) => x,
            None => {
                return Err(DealError::InvalidInstruction);
            },
        };
        let expiry = match read_i64(data, i2 + 1) {
            Some(x) => x,
            None => {
                return Err(DealError::InvalidInstruction);
            },
        };
        let total_supply = match read_u32(data, i2 + 9) {
            Some(x) => x,
            None => {
                return Err(DealError::InvalidInstruction);
            },
        };
        let image_uri = match read_bytes(data, i2 + 13) {
            Some(v) => v,
            None => {
                return Err(DealError::InvalidInstruction);
            },
        };
        let i3: usize = i2 + 17 + image_uri.len();
        let metadata_uri = match read_bytes(data, i3) {
            Some(v) => v,
            None => {
                return Err(DealError::InvalidInstruction);
            },
        };
        let end = i3 + 4 + metadata_uri.len();
        (
            DealInstruction::CreateDeal {
                deal_id,
                title,
                description,
                discount_percent,
                expiry,
                total_supply,
                image_uri,
                metadata_uri,
            },
            end,
        )
    } else if tag == 2 {
        let deal_id = match read_u64(data, 1) {
            Some(x) => x,
            None => {
                return Err(DealError::InvalidInstruction);
            },
        };
        (DealInstruction::MintCouponNft { deal_id }, 9)
    } else if tag == 3 {
        let mint = match read_arr32(data, 1) {
            Some(a) => a,
            None => {
                return Err(DealError::InvalidInstruction);
            },
        };
        (DealInstruction::RedeemCoupon { mint }, 33)
    } else if tag == 4 {
        let deal_id = match read_u64(data, 1) {
            Some(x) => x,
            None => {
                return Err(DealError::InvalidInstruction);
            },
        };
        let rating = match read_u8(data, 9) {
            Some(x) => x,
            None => {
                return Err(DealError::InvalidInstruction);
            },
        };
        let comment = match read_bytes(data, 10) {
            Some(v) => v,
            None => {
                return Err(DealError::InvalidInstruction);
            },
        };
        let end = 14 + comment.len();
        (DealInstruction::AddReview { deal_id, rating, comment }, end)
    } else if tag == 5 {
        let deal_id = match read_u64(data, 1) {
            Some(x) => x,
            None => {
                return Err(DealError::InvalidInstruction);
            },
        };
        let mint = match read_arr32(data, 9) {
            Some(a) => a,
            None => {
                return Err(DealError::InvalidInstruction);
            },
        };
        (DealInstruction::VerifyAndCountMint { deal_id, mint }, 41)
    } else if tag == 6 {
        let mint = match read_arr32(data, 1) {
            Some(a) => a,
            None => {
                return Err(DealError::InvalidInstruction);
            },
        };
        (DealInstruction::RedeemAndBurn { mint }, 33)
    } else if tag == 7 {
        let collection_mint = match read_arr32(data, 1) {
            Some(a) => a,
            None => {
                return Err(DealError::InvalidInstruction);
            },
        };
        (DealInstruction::SetCollectionMint { collection_mint }, 33)
    } else if tag == 8 {
        let price = match read_u64(data, 1) {
            Some(x) => x,
            None => {
                return Err(DealError::InvalidInstruction);
            },
        };
        (DealInstruction::ListNft { price }, 9)
    } else if tag == 9 {
        (DealInstruction::BuyNft, 1)
    } else {
        return Err(DealError::InvalidInstruction);
    };
    if end != data.len() {
        proof {
            let p = parse_instruction(data@)->Some_0;
            assert(p.1 == end);
        }
        return Err(DealError::InvalidInstruction);
    }
    proof {
        let p = parse_instruction(data@)->Some_0;
        assert(p.0 =~= ix@);
    }
    Ok(ix)
}


/// How many bytes each operation's request occupies.
pub open spec fn enc_instruction_len(v: InstructionV) -> int {
    match v {
        InstructionV::RegisterMerchant { name, uri } => 9 + name.len() as int + uri.len() as int,
        InstructionV::CreateDeal { title, description, image_uri, metadata_uri, .. } => 38
            + title.len() as int + description.len() as int + image_uri.len() as int
            + metadata_uri.len() as int,
        InstructionV::MintCouponNft { .. } => 9,
        InstructionV::RedeemCoupon { .. } => 33,
        InstructionV::AddReview { comment, .. } => 14 + comment.len() as int,
        InstructionV::VerifyAndCountMint { .. } => 41,
        InstructionV::RedeemAndBurn { .. } => 33,
        InstructionV::SetCollectionMint { .. } => 33,
        InstructionV::ListNft { .. } => 9,
        InstructionV::BuyNft => 1,
    }
}

/// A serialized request decodes back to the operation it encodes, consuming
/// the whole buffer.
#[verifier::rlimit(100)]
pub proof fn lemma_instruction_round_trip(v: InstructionV)
    requires
        instruction_encodable(v),
    ensures
        parse_instruction(enc_instruction(v)) == Some((v, enc_instruction_len(v))),
{
    let s = enc_instruction(v);
    match v {
        InstructionV::RegisterMerchant { name, uri } => {
            let nl = name.len() as int;
            let ul = uri.len() as int;
            assert(s[0] == 0u8);
            assert(s.subrange(1, 5 + nl) =~= enc_bytes(name));
            lemma_parse_bytes_at(s, 1, name);
            assert(s.subrange(5 + nl, 9 + nl + ul) =~= enc_bytes(uri));
            lemma_parse_bytes_at(s, 5 + nl, uri);
            assert(parse_instruction(s)->Some_0.0 =~= v);
        },
        InstructionV::CreateDeal {
            deal_id,
            title,
            description,
            discount_percent,
            expiry,
            total_supply,
            image_uri,
            metadata_uri,
        } => {
            let tl = title.len() as int;
            let dl = description.len() as int;
            let il = image_uri.len() as int;
            let i2 = 17 + tl + dl;
            assert(s[0] == 1u8);
            assert(s.subrange(1, 9) =~= u64_bytes(deal_id));
            lemma_parse_u64_at(s, 1, deal_id);
            assert(s.subrange(9, 13 + tl) =~= enc_bytes(title));
            lemma_parse_bytes_at(s, 9, title);
            assert(s.subrange(13 + tl, i2) =~= enc_bytes(description));
            lemma_parse_bytes_at(s, 13 + tl, description);
            assert(s[i2] == discount_percent);
            assert(s.subrange(i2 + 1, i2 + 9) =~= i64_bytes(expiry));
            lemma_parse_i64_at(s, i2 + 1, expiry);
            assert(s.subrange(i2 + 9, i2 + 13) =~= u32_bytes(total_supply));
            lemma_parse_u32_at(s, i2 + 9, total_supply);
            assert(s.subrange(i2 + 13, i2 + 17 + il) =~= enc_bytes(image_uri));
            lemma_parse_bytes_at(s, i2 + 13, image_uri);
            let i3 = i2 + 17 + il;
            assert(s.subrange(i3, i3 + 4 + metadata_uri.len() as int) =~= enc_bytes(metadata_uri));
            lemma_parse_bytes_at(s, i3, metadata_uri);
            assert(parse_instruction(s)->Some_0.0 =~= v);
        },
        InstructionV::MintCouponNft { deal_id } => {
            assert(s[0] == 2u8);
            assert(s.subrange(1, 9) =~= u64_bytes(deal_id));
            lemma_parse_u64_at(s, 1, deal_id);
            assert(parse_instruction(s)->Some_0.0 =~= v);
        },
        InstructionV::RedeemCoupon { mint } => {
            assert(s[0] == 3u8);
            assert(s.subrange(1, 33) =~= mint);
            lemma_parse_arr32_at(s, 1, mint);
            assert(parse_instruction(s)->Some_0.0 =~= v);
        },
        InstructionV::AddReview { deal_id, rating, comment } => {
            assert(s[0] == 4u8);
            assert(s.subrange(1, 9) =~= u64_bytes(deal_id));
            lemma_parse_u64_at(s, 1, deal_id);
            assert(s[9] == rating);
            assert(s.subrange(10, 14 + comment.len() as int) =~= enc_bytes(comment));
            lemma_parse_bytes_at(s, 10, comment);
            assert(parse_instruction(s)->Some_0.0 =~= v);
        },
        InstructionV::VerifyAndCountMint { deal_id, mint } => {
            assert(s[0] == 5u8);
            assert(s.subrange(1, 9) =~= u64_bytes(deal_id));
            lemma_parse_u64_at(s, 1, deal_id);
            assert(s.subrange(9, 41) =~= mint);
            lemma_parse_arr32_at(s, 9, mint);
            assert(parse_instruction(s)->Some_0.0 =~= v);
        },
        InstructionV::RedeemAndBurn { mint } => {
            assert(s[0] == 6u8);
            assert(s.subrange(1, 33) =~= mint);
            lemma_parse_arr32_at(s, 1, mint);
            assert(parse_instruction(s)->Some_0.0 =~= v);
        },
        InstructionV::SetCollectionMint { collection_mint } => {
            assert(s[0] == 7u8);
            assert(s.subrange(1, 33) =~= collection_mint);
            lemma_parse_arr32_at(s, 1, collection_mint);
            assert(parse_instruction(s)->Some_0.0 =~= v);
        },
        InstructionV::ListNft { price } => {
            assert(s[0] == 8u8);
            assert(s.subrange(1, 9) =~= u64_bytes(price));
            lemma_parse_u64_at(s, 1, price);
            assert(parse_instruction(s)->Some_0.0 =~= v);
        },
        InstructionV::BuyNft => {
            assert(s[0] == 9u8);
        },
    }
}

} // verus!
