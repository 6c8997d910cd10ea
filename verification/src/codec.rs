use vstd::array::ArrayAdditionalExecFns;
use vstd::prelude::*;

use crate::error::DealError;
use crate::state::{
    Deal, DealV, Listing, ListingV, Merchant, MerchantV, RedeemLog, RedeemLogV, Review, ReviewV,
};

verus! {

// ---------------------------------------------------------------------------
// Little-endian primitives
// ---------------------------------------------------------------------------

pub open spec fn le32(b0: u8, b1: u8, b2: u8, b3: u8) -> u32 {
    (b0 as u32) | ((b1 as u32) << 8) | ((b2 as u32) << 16) | ((b3 as u32) << 24)
}

pub open spec fn u32_bytes(x: u32) -> Seq<u8> {
    seq![
        (x & 0xff) as u8,
        ((x >> 8) & 0xff) as u8,
        ((x >> 16) & 0xff) as u8,
        ((x >> 24) & 0xff) as u8,
    ]
}

pub open spec fn le64(b: Seq<u8>) -> u64
    recommends
        b.len() == 8,
{
    (b[0] as u64) | ((b[1] as u64) << 8) | ((b[2] as u64) << 16) | ((b[3] as u64) << 24) | (
    (b[4] as u64) << 32) | ((b[5] as u64) << 40) | ((b[6] as u64) << 48) | ((b[7] as u64) << 56)
}

pub open spec fn u64_bytes(x: u64) -> Seq<u8> {
    seq![
        (x & 0xff) as u8,
        ((x >> 8) & 0xff) as u8,
        ((x >> 16) & 0xff) as u8,
        ((x >> 24) & 0xff) as u8,
        ((x >> 32) & 0xff) as u8,
        ((x >> 40) & 0xff) as u8,
        ((x >> 48) & 0xff) as u8,
        ((x >> 56) & 0xff) as u8,
    ]
}

/// Two's-complement bit pattern of a signed 64-bit value, as an unsigned one.
pub open spec fn i64_bits(x: i64) -> u64 {
    if x >= 0 {
        x as u64
    } else {
        (x + 0x10000000000000000) as u64
    }
}

/// Signed value of a two's-complement 64-bit pattern.
pub open spec fn bits_i64(u: u64) -> i64 {
    if u < 0x8000000000000000 {
        u as i64
    } else {
        (u - 0x10000000000000000) as i64
    }
}

pub open spec fn i64_bytes(x: i64) -> Seq<u8> {
    u64_bytes(i64_bits(x))
}

pub proof fn lemma_bits_i64_round(x: i64)
    ensures
        bits_i64(i64_bits(x)) == x,
{
}

pub proof fn lemma_le32_round(x: u32)
    ensures
        le32(u32_bytes(x)[0], u32_bytes(x)[1], u32_bytes(x)[2], u32_bytes(x)[3]) == x,
{
    assert(((x & 0xff) as u8 as u32) | ((((x >> 8) & 0xff) as u8 as u32) << 8) | ((((x >> 16)
        & 0xff) as u8 as u32) << 16) | ((((x >> 24) & 0xff) as u8 as u32) << 24) == x)
        by (bit_vector);
}

pub proof fn lemma_le64_round(x: u64)
    ensures
        le64(u64_bytes(x)) == x,
{
    assert(((x & 0xff) as u8 as u64) | ((((x >> 8) & 0xff) as u8 as u64) << 8) | ((((x >> 16)
        & 0xff) as u8 as u64) << 16) | ((((x >> 24) & 0xff) as u8 as u64) << 24) | ((((x >> 32)
        & 0xff) as u8 as u64) << 32) | ((((x >> 40) & 0xff) as u8 as u64) << 40) | ((((x >> 48)
        & 0xff) as u8 as u64) << 48) | ((((x >> 56) & 0xff) as u8 as u64) << 56) == x)
        by (bit_vector);
}

/// What a freshly created slot of `space` bytes holds after a record is
/// written into its front.
pub open spec fn created_data(enc: Seq<u8>, space: int) -> Seq<u8> {
    enc + zeros(space - enc.len())
}

/// A run of zero bytes, the content of freshly allocated storage.
pub open spec fn zeros(n: int) -> Seq<u8> {
    Seq::new(if n >= 0 {
        n as nat
    } else {
        0
    }, |i: int| 0u8)
}

// ---------------------------------------------------------------------------
// Field parsers over a byte sequence. Each reads at a position and fails when
// the buffer is too short, never reading out of bounds.
// ---------------------------------------------------------------------------

pub open spec fn p_u8(s: Seq<u8>, i: int) -> Option<u8> {
    if 0 <= i && i + 1 <= s.len() {
        Some(s[i])
    } else {
        None
    }
}

pub open spec fn p_u32(s: Seq<u8>, i: int) -> Option<u32> {
    if 0 <= i && i + 4 <= s.len() {
        Some(le32(s[i], s[i + 1], s[i + 2], s[i + 3]))
    } else {
        None
    }
}

pub open spec fn p_u64(s: Seq<u8>, i: int) -> Option<u64> {
    if 0 <= i && i + 8 <= s.len() {
        Some(le64(s.subrange(i, i + 8)))
    } else {
        None
    }
}

pub open spec fn p_i64(s: Seq<u8>, i: int) -> Option<i64> {
    match p_u64(s, i) {
        Some(u) => Some(bits_i64(u)),
        None => None,
    }
}

pub open spec fn p_arr32(s: Seq<u8>, i: int) -> Option<Seq<u8>> {
    if 0 <= i && i + 32 <= s.len() {
        Some(s.subrange(i, i + 32))
    } else {
        None
    }
}

/// A length-prefixed byte string: a 32-bit count, then that many bytes.
pub open spec fn p_bytes(s: Seq<u8>, i: int) -> Option<Seq<u8>> {
    match p_u32(s, i) {
        Some(n) => {
            if i + 4 + n <= s.len() {
                Some(s.subrange(i + 4, i + 4 + n))
            } else {
                None
            }
        },
        None => None,
    }
}

pub open spec fn enc_bytes(b: Seq<u8>) -> Seq<u8> {
    u32_bytes(b.len() as u32) + b
}

// ---------------------------------------------------------------------------
// Record encodings
// ---------------------------------------------------------------------------

pub open spec fn enc_merchant(m: MerchantV) -> Seq<u8> {
    m.merchant + enc_bytes(m.name) + enc_bytes(m.uri) + u32_bytes(m.total_deals)
        + m.collection_mint
}

pub open spec fn enc_merchant_len(m: MerchantV) -> int {
    76 + m.name.len() as int + m.uri.len() as int
}

pub open spec fn parse_merchant(s: Seq<u8>) -> Option<(MerchantV, int)> {
    match p_arr32(s, 0) {
        None => None,
        Some(merchant) => match p_bytes(s, 32) {
            None => None,
            Some(name) => {
                let i1 = 36 + name.len() as int;
                match p_bytes(s, i1) {
                    None => None,
                    Some(uri) => {
                        let i2 = i1 + 4 + uri.len() as int;
                        match p_u32(s, i2) {
                            None => None,
                            Some(total_deals) => match p_arr32(s, i2 + 4) {
                                None => None,
                                Some(collection_mint) => Some(
                                    (
                                        MerchantV {
                                            merchant,
                                            name,
                                            uri,
                                            total_deals,
                                            collection_mint,
                                        },
                                        i2 + 36,
                                    ),
                                ),
                            },
                        }
                    },
                }
            },
        },
    }
}

pub open spec fn enc_deal(d: DealV) -> Seq<u8> {
    u64_bytes(d.deal_id) + d.merchant + enc_bytes(d.title) + enc_bytes(d.description) + seq![
        d.discount_percent,
    ] + i64_bytes(d.expiry) + u32_bytes(d.total_supply) + u32_bytes(d.minted) + enc_bytes(
        d.image_uri,
    ) + enc_bytes(d.metadata_uri)
}

pub open spec fn enc_deal_len(d: DealV) -> int {
    73 + d.title.len() as int + d.description.len() as int + d.image_uri.len() as int
        + d.metadata_uri.len() as int
}

pub open spec fn parse_deal(s: Seq<u8>) -> Option<(DealV, int)> {
    match p_u64(s, 0) {
        None => None,
        Some(deal_id) => match p_arr32(s, 8) {
            None => None,
            Some(merchant) => match p_bytes(s, 40) {
                None => None,
                Some(title) => {
                    let i1 = 44 + title.len() as int;
                    match p_bytes(s, i1) {
                        None => None,
                        Some(description) => {
                            let i2 = i1 + 4 + description.len() as int;
                            match p_u8(s, i2) {
                                None => None,
                                Some(discount_percent) => match p_i64(s, i2 + 1) {
                                    None => None,
                                    Some(expiry) => match p_u32(s, i2 + 9) {
                                        None => None,
                                        Some(total_supply) => match p_u32(s, i2 + 13) {
                                            None => None,
                                            Some(minted) => match p_bytes(s, i2 + 17) {
                                                None => None,
                                                Some(image_uri) => {
                                                    let i3 = i2 + 21 + image_uri.len() as int;
                                                    match p_bytes(s, i3) {
                                                        None => None,
                                                        Some(metadata_uri) => Some(
                                                            (
                                                                DealV {
                                                                    deal_id,
                                                                    merchant,
                                                                    title,
                                                                    description,
                                                                    discount_percent,
                                                                    expiry,
                                                                    total_supply,
                                                                    minted,
                                                                    image_uri,
                                                                    metadata_uri,
                                                                },
                                                                i3 + 4 + metadata_uri.len(),
                                                            ),
                                                        ),
                                                    }
                                                },
                                            },
                                        },
                                    },
                                },
                            }
                        },
                    }
                },
            },
        },
    }
}

pub open spec fn enc_review(r: ReviewV) -> Seq<u8> {
    r.user + r.deal + seq![r.rating] + enc_bytes(r.comment) + i64_bytes(r.created_at)
}

pub open spec fn enc_review_len(r: ReviewV) -> int {
    77 + r.comment.len() as int
}

pub open spec fn parse_review(s: Seq<u8>) -> Option<(ReviewV, int)> {
    match p_arr32(s, 0) {
        None => None,
        Some(user) => match p_arr32(s, 32) {
            None => None,
            Some(deal) => match p_u8(s, 64) {
                None => None,
                Some(rating) => match p_bytes(s, 65) {
                    None => None,
                    Some(comment) => {
                        let i1 = 69 + comment.len() as int;
                        match p_i64(s, i1) {
                            None => None,
                            Some(created_at) => Some(
                                (ReviewV { user, deal, rating, comment, created_at }, i1 + 8),
                            ),
                        }
                    },
                },
            },
        },
    }
}

pub open spec fn enc_redeem_log(l: RedeemLogV) -> Seq<u8> {
    l.token_mint + l.user + i64_bytes(l.redeemed_at)
}

pub open spec fn enc_redeem_log_len(l: RedeemLogV) -> int {
    72
}

pub open spec fn parse_redeem_log(s: Seq<u8>) -> Option<(RedeemLogV, int)> {
    match p_arr32(s, 0) {
        None => None,
        Some(token_mint) => match p_arr32(s, 32) {
            None => None,
            Some(user) => match p_i64(s, 64) {
                None => None,
                Some(redeemed_at) => Some((RedeemLogV { token_mint, user, redeemed_at }, 72)),
            },
        },
    }
}

pub open spec fn enc_listing(l: ListingV) -> Seq<u8> {
    l.seller + l.nft_mint + u64_bytes(l.price) + i64_bytes(l.created_at)
}

pub open spec fn enc_listing_len(l: ListingV) -> int {
    80
}

pub open spec fn parse_listing(s: Seq<u8>) -> Option<(ListingV, int)> {
    match p_arr32(s, 0) {
        None => None,
        Some(seller) => match p_arr32(s, 32) {
            None => None,
            Some(nft_mint) => match p_u64(s, 64) {
                None => None,
                Some(price) => match p_i64(s, 72) {
                    None => None,
                    Some(created_at) => Some((ListingV { seller, nft_mint, price, created_at }, 80)),
                },
            },
        },
    }
}

// ---------------------------------------------------------------------------
// Executable writers
// ---------------------------------------------------------------------------

pub fn push_u32(out: &mut Vec<u8>, x: u32)
    ensures
        final(out)@ == old(out)@ + u32_bytes(x),
{
    proof {
        assert(x & 0xff < 256 && (x >> 8) & 0xff < 256 && (x >> 16) & 0xff < 256 && (x >> 24)
            & 0xff < 256) by (bit_vector);
    }
    out.push((x & 0xff) as u8);
    out.push(((x >> 8) & 0xff) as u8);
    out.push(((x >> 16) & 0xff) as u8);
    out.push(((x >> 24) & 0xff) as u8);
    assert(out@ =~= old(out)@ + u32_bytes(x));
}

pub fn push_u64(out: &mut Vec<u8>, x: u64)
    ensures
        final(out)@ == old(out)@ + u64_bytes(x),
{
    proof {
        assert(x & 0xff < 256 && (x >> 8) & 0xff < 256 && (x >> 16) & 0xff < 256 && (x >> 24)
            & 0xff < 256 && (x >> 32) & 0xff < 256 && (x >> 40) & 0xff < 256 && (x >> 48) & 0xff
            < 256 && (x >> 56) & 0xff < 256) by (bit_vector);
    }
    out.push((x & 0xff) as u8);
    out.push(((x >> 8) & 0xff) as u8);
    out.push(((x >> 16) & 0xff) as u8);
    out.push(((x >> 24) & 0xff) as u8);
    out.push(((x >> 32) & 0xff) as u8);
    out.push(((x >> 40) & 0xff) as u8);
    out.push(((x >> 48) & 0xff) as u8);
    out.push(((x >> 56) & 0xff) as u8);
    assert(out@ =~= old(out)@ + u64_bytes(x));
}

/// Two's-complement bit pattern of a signed value, computed without any
/// lossy cast.
pub fn i64_to_bits(x: i64) -> (r: u64)
    ensures
        r == i64_bits(x),
{
    if x >= 0 {
        x as u64
    } else {
        let y: u64 = (-(x + 1)) as u64;
        0xffff_ffff_ffff_ffffu64 - y
    }
}

/// Signed value of a two's-complement bit pattern.
pub fn bits_to_i64(u: u64) -> (r: i64)
    ensures
        r == bits_i64(u),
{
    if u < 0x8000_0000_0000_0000u64 {
        u as i64
    } else {
        let y: u64 = 0xffff_ffff_ffff_ffffu64 - u;
        -(y as i64) - 1
    }
}

pub fn push_i64(out: &mut Vec<u8>, x: i64)
    ensures
        final(out)@ == old(out)@ + i64_bytes(x),
{
    let bits = i64_to_bits(x);
    push_u64(out, bits);
}

pub fn push_arr32(out: &mut Vec<u8>, a: &[u8; 32])
    ensures
        final(out)@ == old(out)@ + a@,
{
    let mut i: usize = 0;
    while i < 32
        invariant
            i <= 32,
            out@ == old(out)@ + a@.subrange(0, i as int),
        decreases 32 - i,
    {
        out.push(a[i]);
        assert(out@ =~= old(out)@ + a@.subrange(0, i + 1));
        i = i + 1;
    }
    assert(out@ =~= old(out)@ + a@);
}

pub fn push_bytes(out: &mut Vec<u8>, b: &Vec<u8>)
    requires
        b@.len() < 0x1_0000_0000,
    ensures
        final(out)@ == old(out)@ + enc_bytes(b@),
{
    push_u32(out, b.len() as u32);
    let ghost mid = out@;
    let mut i: usize = 0;
    while i < b.len()
        invariant
            i <= b@.len(),
            out@ == mid + b@.subrange(0, i as int),
        decreases b@.len() - i,
    {
        out.push(b[i]);
        assert(out@ =~= mid + b@.subrange(0, i + 1));
        i = i + 1;
    }
    assert(out@ =~= old(out)@ + enc_bytes(b@));
}

/// Extends `v` with zero bytes up to `size`, the state of freshly allocated
/// storage beyond the encoded record.
pub fn zero_pad(v: &mut Vec<u8>, size: usize)
    requires
        old(v)@.len() <= size,
    ensures
        final(v)@ == old(v)@ + zeros(size - old(v)@.len()),
        final(v)@.len() == size,
{
    while v.len() < size
        invariant
            v@.len() <= size,
            v@ == old(v)@ + zeros(v@.len() - old(v)@.len()),
        decreases size - v@.len(),
    {
        v.push(0u8);
        assert(v@ =~= old(v)@ + zeros(v@.len() - old(v)@.len()));
    }
}

// ---------------------------------------------------------------------------
// Executable readers. Each mirrors the corresponding field parser exactly.
// ---------------------------------------------------------------------------

pub fn read_u8(data: &Vec<u8>, pos: usize) -> (r: Option<u8>)
    ensures
        r == p_u8(data@, pos as int),
{
    if pos < data.len() {
        Some(data[pos])
    } else {
        None
    }
}

pub fn read_u32(data: &Vec<u8>, pos: usize) -> (r: Option<u32>)
    ensures
        r == p_u32(data@, pos as int),
{
    if pos < data.len() && data.len() - pos >= 4 {
        let b0 = data[pos];
        let b1 = data[pos + 1];
        let b2 = data[pos + 2];
        let b3 = data[pos + 3];
        Some((b0 as u32) | ((b1 as u32) << 8) | ((b2 as u32) << 16) | ((b3 as u32) << 24))
    } else {
        None
    }
}

pub fn read_u64(data: &Vec<u8>, pos: usize) -> (r: Option<u64>)
    ensures
        r == p_u64(data@, pos as int),
{
    if pos < data.len() && data.len() - pos >= 8 {
        let b0 = data[pos];
        let b1 = data[pos + 1];
        let b2 = data[pos + 2];
        let b3 = data[pos + 3];
        let b4 = data[pos + 4];
        let b5 = data[pos + 5];
        let b6 = data[pos + 6];
        let b7 = data[pos + 7];
        let r = (b0 as u64) | ((b1 as u64) << 8) | ((b2 as u64) << 16) | ((b3 as u64) << 24) | (
        (b4 as u64) << 32) | ((b5 as u64) << 40) | ((b6 as u64) << 48) | ((b7 as u64) << 56);
        proof {
            let s = data@.subrange(pos as int, pos as int + 8);
            assert(s[0] == b0 && s[1] == b1 && s[2] == b2 && s[3] == b3 && s[4] == b4 && s[5] == b5
                && s[6] == b6 && s[7] == b7);
        }
        Some(r)
    } else {
        None
    }
}

pub fn read_i64(data: &Vec<u8>, pos: usize) -> (r: Option<i64>)
    ensures
        r == p_i64(data@, pos as int),
{
    match read_u64(data, pos) {
        Some(u) => Some(bits_to_i64(u)),
        None => None,
    }
}

pub fn read_arr32(data: &Vec<u8>, pos: usize) -> (r: Option<[u8; 32]>)
    ensures
        match r {
            Some(a) => p_arr32(data@, pos as int) == Some(a@),
            None => p_arr32(data@, pos as int) is None,
        },
{
    if pos < data.len() && data.len() - pos >= 32 {
        let mut a: [u8; 32] = [0u8; 32];
        let mut i: usize = 0;
        while i < 32
            invariant
                i <= 32,
                pos + 32 <= data@.len(),
                data@.len() <= usize::MAX,
                a@.len() == 32,
                forall|j: int| 0 <= j < i ==> a@[j] == data@[pos + j],
            decreases 32 - i,
        {
            a[i] = data[pos + i];
            i = i + 1;
        }
        assert(a@ =~= data@.subrange(pos as int, pos as int + 32));
        Some(a)
    } else {
        None
    }
}

pub fn read_bytes(data: &Vec<u8>, pos: usize) -> (r: Option<Vec<u8>>)
    ensures
        match r {
            Some(v) => p_bytes(data@, pos as int) == Some(v@),
            None => p_bytes(data@, pos as int) is None,
        },
{
    match read_u32(data, pos) {
        None => None,
        Some(n) => {
            let nu = n as usize;
            if nu <= data.len() - (pos + 4) {
                let mut v: Vec<u8> = Vec::new();
                let mut i: usize = 0;
                while i < nu
                    invariant
                        i <= nu,
                        pos + 4 + nu <= data@.len(),
                        data@.len() <= usize::MAX,
                        v@.len() == i,
                        forall|j: int| 0 <= j < i ==> v@[j] == data@[pos + 4 + j],
                    decreases nu - i,
                {
                    v.push(data[pos + 4 + i]);
                    i = i + 1;
                }
                assert(v@ =~= data@.subrange(pos as int + 4, pos as int + 4 + nu as int));
                Some(v)
            } else {
                None
            }
        },
    }
}

// ---------------------------------------------------------------------------
// Lemmas: a field encoding embedded in a larger buffer parses back to the
// value it encodes.
// ---------------------------------------------------------------------------

pub proof fn lemma_parse_u32_at(s: Seq<u8>, i: int, x: u32)
    requires
        0 <= i,
        i + 4 <= s.len(),
        s.subrange(i, i + 4) == u32_bytes(x),
    ensures
        p_u32(s, i) == Some(x),
{
    assert(s[i] == u32_bytes(x)[0]) by {
        assert(s.subrange(i, i + 4)[0] == s[i]);
    }
    assert(s[i + 1] == u32_bytes(x)[1]) by {
        assert(s.subrange(i, i + 4)[1] == s[i + 1]);
    }
    assert(s[i + 2] == u32_bytes(x)[2]) by {
        assert(s.subrange(i, i + 4)[2] == s[i + 2]);
    }
    assert(s[i + 3] == u32_bytes(x)[3]) by {
        assert(s.subrange(i, i + 4)[3] == s[i + 3]);
    }
    lemma_le32_round(x);
}

pub proof fn lemma_parse_u64_at(s: Seq<u8>, i: int, x: u64)
    requires
        0 <= i,
        i + 8 <= s.len(),
        s.subrange(i, i + 8) == u64_bytes(x),
    ensures
        p_u64(s, i) == Some(x),
{
    lemma_le64_round(x);
}

pub proof fn lemma_parse_i64_at(s: Seq<u8>, i: int, x: i64)
    requires
        0 <= i,
        i + 8 <= s.len(),
        s.subrange(i, i + 8) == i64_bytes(x),
    ensures
        p_i64(s, i) == Some(x),
{
    lemma_parse_u64_at(s, i, i64_bits(x));
    lemma_bits_i64_round(x);
}

pub proof fn lemma_parse_arr32_at(s: Seq<u8>, i: int, a: Seq<u8>)
    requires
        0 <= i,
        a.len() == 32,
        i + 32 <= s.len(),
        s.subrange(i, i + 32) == a,
    ensures
        p_arr32(s, i) == Some(a),
{
}

pub proof fn lemma_parse_bytes_at(s: Seq<u8>, i: int, b: Seq<u8>)
    requires
        0 <= i,
        b.len() < 0x1_0000_0000,
        i + 4 + b.len() <= s.len(),
        s.subrange(i, i + 4 + b.len()) == enc_bytes(b),
    ensures
        p_bytes(s, i) == Some(b),
{
    let n = b.len() as u32;
    let whole = s.subrange(i, i + 4 + b.len());
    assert(s.subrange(i, i + 4) =~= whole.subrange(0, 4));
    assert(whole.subrange(0, 4) =~= u32_bytes(n));
    lemma_parse_u32_at(s, i, n);
    assert(s.subrange(i + 4, i + 4 + n) =~= whole.subrange(4, 4 + b.len() as int));
    assert(whole.subrange(4, 4 + b.len() as int) =~= b);
}

// ---------------------------------------------------------------------------
// Executable record codecs and their round trips
// ---------------------------------------------------------------------------

pub fn encode_merchant(m: &Merchant) -> (r: Vec<u8>)
    requires
        crate::state::merchant_sizes_ok(m@),
    ensures
        r@ == enc_merchant(m@),
        r@.len() == enc_merchant_len(m@),
{
    let mut out: Vec<u8> = Vec::new();
    push_arr32(&mut out, &m.merchant);
    push_bytes(&mut out, &m.name);
    push_bytes(&mut out, &m.uri);
    push_u32(&mut out, m.total_deals);
    push_arr32(&mut out, &m.collection_mint);
    assert(out@ =~= enc_merchant(m@));
    out
}

pub fn decode_merchant(data: &Vec<u8>) -> (r: Result<Merchant, DealError>)
    ensures
        match r {
            Ok(m) => parse_merchant(data@) == Some((m@, enc_merchant_len(m@)))
                && crate::state::merchant_sizes_ok(m@),
            Err(e) => e == DealError::InvalidInput && parse_merchant(data@) is None,
        },
{
    proof {
        assert(data@.len() == data.len());
    }
    let merchant = match read_arr32(data, 0) {
        Some(a) => a,
        None => {
            return Err(DealError::InvalidInput);
        },
    };
    let name = match read_bytes(data, 32) {
        Some(v) => v,
        None => {
            return Err(DealError::InvalidInput);
        },
    };
    let i1: usize = 36 + name.len();
    let uri = match read_bytes(data, i1) {
        Some(v) => v,
        None => {
            return Err(DealError::InvalidInput);
        },
    };
    let i2: usize = i1 + 4 + uri.len();
    let total_deals = match read_u32(data, i2) {
        Some(x) => x,
        None => {
            return Err(DealError::InvalidInput);
        },
    };
    let collection_mint = match read_arr32(data, i2 + 4) {
        Some(a) => a,
        None => {
            return Err(DealError::InvalidInput);
        },
    };
    let m = Merchant { merchant, name, uri, total_deals, collection_mint };
    proof {
        let p = parse_merchant(data@)->Some_0;
        assert(p.0 =~= m@);
    }
    Ok(m)
}

pub proof fn lemma_merchant_round_trip(m: MerchantV, rest: Seq<u8>)
    requires
        crate::state::merchant_valid(m),
    ensures
        parse_merchant(enc_merchant(m) + rest) == Some((m, enc_merchant_len(m))),
{
    let s = enc_merchant(m) + rest;
    let nl = m.name.len() as int;
    let ul = m.uri.len() as int;
    assert(s.subrange(0, 32) =~= m.merchant);
    lemma_parse_arr32_at(s, 0, m.merchant);
    assert(s.subrange(32, 36 + nl) =~= enc_bytes(m.name));
    lemma_parse_bytes_at(s, 32, m.name);
    assert(s.subrange(36 + nl, 40 + nl + ul) =~= enc_bytes(m.uri));
    lemma_parse_bytes_at(s, 36 + nl, m.uri);
    assert(s.subrange(40 + nl + ul, 44 + nl + ul) =~= u32_bytes(m.total_deals));
    lemma_parse_u32_at(s, 40 + nl + ul, m.total_deals);
    assert(s.subrange(44 + nl + ul, 76 + nl + ul) =~= m.collection_mint);
    lemma_parse_arr32_at(s, 44 + nl + ul, m.collection_mint);
    assert(parse_merchant(s)->Some_0.0 =~= m);
}

pub fn encode_deal(d: &Deal) -> (r: Vec<u8>)
    requires
        crate::state::deal_sizes_ok(d@),
    ensures
        r@ == enc_deal(d@),
        r@.len() == enc_deal_len(d@),
{
    let mut out: Vec<u8> = Vec::new();
    push_u64(&mut out, d.deal_id);
    push_arr32(&mut out, &d.merchant);
    push_bytes(&mut out, &d.title);
    push_bytes(&mut out, &d.description);
    out.push(d.discount_percent);
    push_i64(&mut out, d.expiry);
    push_u32(&mut out, d.total_supply);
    push_u32(&mut out, d.minted);
    push_bytes(&mut out, &d.image_uri);
    push_bytes(&mut out, &d.metadata_uri);
    assert(out@ =~= enc_deal(d@));
    out
}

pub fn decode_deal(data: &Vec<u8>) -> (r: Result<Deal, DealError>)
    ensures
        match r {
            Ok(d) => parse_deal(data@) == Some((d@, enc_deal_len(d@)))
                && crate::state::deal_sizes_ok(d@),
            Err(e) => e == DealError::InvalidInput && parse_deal(data@) is None,
        },
{
    proof {
        assert(data@.len() == data.len());
    }
    let deal_id = match read_u64(data, 0) {
        Some(x) => x,
        None => {
            return Err(DealError::InvalidInput);
        },
    };
    let merchant = match read_arr32(data, 8) {
        Some(a) => a,
        None => {
            return Err(DealError::InvalidInput);
        },
    };
    let title = match read_bytes(data, 40) {
        Some(v) => v,
        None => {
            return Err(DealError::InvalidInput);
        },
    };
    let i1: usize = 44 + title.len();
    let description = match read_bytes(data, i1) {
        Some(v) => v,
        None => {
            return Err(DealError::InvalidInput);
        },
    };
    let i2: usize = i1 + 4 + description.len();
    let discount_percent = match read_u8(data, i2) {
        Some(x) => x,
        None => {
            return Err(DealError::InvalidInput);
        },
    };
    let expiry = match read_i64(data, i2 + 1) {
        Some(x) => x,
        None => {
            return Err(DealError::InvalidInput);
        },
    };
    let total_supply = match read_u32(data, i2 + 9) {
        Some(x) => x,
        None => {
            return Err(DealError::InvalidInput);
        },
    };
    let minted = match read_u32(data, i2 + 13) {
        Some(x) => x,
        None => {
            return Err(DealError::InvalidInput);
        },
    };
    let image_uri = match read_bytes(data, i2 + 17) {
        Some(v) => v,
        None => {
            return Err(DealError::InvalidInput);
        },
    };
    let i3: usize = i2 + 21 + image_uri.len();
    let metadata_uri = match read_bytes(data, i3) {
        Some(v) => v,
        None => {
            return Err(DealError::InvalidInput);
        },
    };
    let d = Deal {
        deal_id,
        merchant,
        title,
        description,
        discount_percent,
        expiry,
        total_supply,
        minted,
        image_uri,
        metadata_uri,
    };
    proof {
        let p = parse_deal(data@)->Some_0;
        assert(p.0 =~= d@);
    }
    Ok(d)
}

#[verifier::rlimit(30)]
pub proof fn lemma_deal_round_trip(d: DealV, rest: Seq<u8>)
    requires
        crate::state::deal_valid(d),
    ensures
        parse_deal(enc_deal(d) + rest) == Some((d, enc_deal_len(d))),
{
    let s = enc_deal(d) + rest;
    let tl = d.title.len() as int;
    let dl = d.description.len() as int;
    let il = d.image_uri.len() as int;
    let i2 = 48 + tl + dl;
    assert(s.subrange(0, 8) =~= u64_bytes(d.deal_id));
    lemma_parse_u64_at(s, 0, d.deal_id);
    assert(s.subrange(8, 40) =~= d.merchant);
    lemma_parse_arr32_at(s, 8, d.merchant);
    assert(s.subrange(40, 44 + tl) =~= enc_bytes(d.title));
    lemma_parse_bytes_at(s, 40, d.title);
    assert(s.subrange(44 + tl, i2) =~= enc_bytes(d.description));
    lemma_parse_bytes_at(s, 44 + tl, d.description);
    assert(s[i2] == d.discount_percent);
    assert(s.subrange(i2 + 1, i2 + 9) =~= i64_bytes(d.expiry));
    lemma_parse_i64_at(s, i2 + 1, d.expiry);
    assert(s.subrange(i2 + 9, i2 + 13) =~= u32_bytes(d.total_supply));
    lemma_parse_u32_at(s, i2 + 9, d.total_supply);
    assert(s.subrange(i2 + 13, i2 + 17) =~= u32_bytes(d.minted));
    lemma_parse_u32_at(s, i2 + 13, d.minted);
    assert(s.subrange(i2 + 17, i2 + 21 + il) =~= enc_bytes(d.image_uri));
    lemma_parse_bytes_at(s, i2 + 17, d.image_uri);
    assert(s.subrange(i2 + 21 + il, enc_deal_len(d)) =~= enc_bytes(d.metadata_uri));
    lemma_parse_bytes_at(s, i2 + 21 + il, d.metadata_uri);
    assert(parse_deal(s)->Some_0.0 =~= d);
}

pub fn encode_review(v: &Review) -> (r: Vec<u8>)
    requires
        crate::state::review_sizes_ok(v@),
    ensures
        r@ == enc_review(v@),
        r@.len() == enc_review_len(v@),
{
    let mut out: Vec<u8> = Vec::new();
    push_arr32(&mut out, &v.user);
    push_arr32(&mut out, &v.deal);
    out.push(v.rating);
    push_bytes(&mut out, &v.comment);
    push_i64(&mut out, v.created_at);
    assert(out@ =~= enc_review(v@));
    out
}

pub fn decode_review(data: &Vec<u8>) -> (r: Result<Review, DealError>)
    ensures
        match r {
            Ok(v) => parse_review(data@) == Some((v@, enc_review_len(v@)))
                && crate::state::review_sizes_ok(v@),
            Err(e) => e == DealError::InvalidInput && parse_review(data@) is None,
        },
{
    proof {
        assert(data@.len() == data.len());
    }
    let user = match read_arr32(data, 0) {
        Some(a) => a,
        None => {
            return Err(DealError::InvalidInput);
        },
    };
    let deal = match read_arr32(data, 32) {
        Some(a) => a,
        None => {
            return Err(DealError::InvalidInput);
        },
    };
    let rating = match read_u8(data, 64) {
        Some(x) => x,
        None => {
            return Err(DealError::InvalidInput);
        },
    };
    let comment = match read_bytes(data, 65) {
        Some(v) => v,
        None => {
            return Err(DealError::InvalidInput);
        },
    };
    let i1: usize = 69 + comment.len();
    let created_at = match read_i64(data, i1) {
        Some(x) => x,
        None => {
            return Err(DealError::InvalidInput);
        },
    };
    let v = Review { user, deal, rating, comment, created_at };
    proof {
        let p = parse_review(data@)->Some_0;
        assert(p.0 =~= v@);
    }
    Ok(v)
}

pub proof fn lemma_review_round_trip(v: ReviewV, rest: Seq<u8>)
    requires
        crate::state::review_valid(v),
    ensures
        parse_review(enc_review(v) + rest) == Some((v, enc_review_len(v))),
{
    let s = enc_review(v) + rest;
    let cl = v.comment.len() as int;
    assert(s.subrange(0, 32) =~= v.user);
    lemma_parse_arr32_at(s, 0, v.user);
    assert(s.subrange(32, 64) =~= v.deal);
    lemma_parse_arr32_at(s, 32, v.deal);
    assert(s[64] == v.rating);
    assert(s.subrange(65, 69 + cl) =~= enc_bytes(v.comment));
    lemma_parse_bytes_at(s, 65, v.comment);
    assert(s.subrange(69 + cl, 77 + cl) =~= i64_bytes(v.created_at));
    lemma_parse_i64_at(s, 69 + cl, v.created_at);
    assert(parse_review(s)->Some_0.0 =~= v);
}

pub fn encode_redeem_log(l: &RedeemLog) -> (r: Vec<u8>)
    ensures
        r@ == enc_redeem_log(l@),
        r@.len() == 72,
{
    let mut out: Vec<u8> = Vec::new();
    push_arr32(&mut out, &l.token_mint);
    push_arr32(&mut out, &l.user);
    push_i64(&mut out, l.redeemed_at);
    assert(out@ =~= enc_redeem_log(l@));
    out
}

pub fn decode_redeem_log(data: &Vec<u8>) -> (r: Result<RedeemLog, DealError>)
    ensures
        match r {
            Ok(l) => parse_redeem_log(data@) == Some((l@, 72int)),
            Err(e) => e == DealError::InvalidInput && parse_redeem_log(data@) is None,
        },
{
    let token_mint = match read_arr32(data, 0) {
        Some(a) => a,
        None => {
            return Err(DealError::InvalidInput);
        },
    };
    let user = match read_arr32(data, 32) {
        Some(a) => a,
        None => {
            return Err(DealError::InvalidInput);
        },
    };
    let redeemed_at = match read_i64(data, 64) {
        Some(x) => x,
        None => {
            return Err(DealError::InvalidInput);
        },
    };
    let l = RedeemLog { token_mint, user, redeemed_at };
    proof {
        let p = parse_redeem_log(data@)->Some_0;
        assert(p.0 =~= l@);
    }
    Ok(l)
}

pub proof fn lemma_redeem_log_round_trip(l: RedeemLogV, rest: Seq<u8>)
    requires
        crate::state::redeem_log_valid(l),
    ensures
        parse_redeem_log(enc_redeem_log(l) + rest) == Some((l, 72int)),
{
    let s = enc_redeem_log(l) + rest;
    assert(s.subrange(0, 32) =~= l.token_mint);
    lemma_parse_arr32_at(s, 0, l.token_mint);
    assert(s.subrange(32, 64) =~= l.user);
    lemma_parse_arr32_at(s, 32, l.user);
    assert(s.subrange(64, 72) =~= i64_bytes(l.redeemed_at));
    lemma_parse_i64_at(s, 64, l.redeemed_at);
    assert(parse_redeem_log(s)->Some_0.0 =~= l);
}

pub fn encode_listing(l: &Listing) -> (r: Vec<u8>)
    ensures
        r@ == enc_listing(l@),
        r@.len() == 80,
{
    let mut out: Vec<u8> = Vec::new();
    push_arr32(&mut out, &l.seller);
    push_arr32(&mut out, &l.nft_mint);
    push_u64(&mut out, l.price);
    push_i64(&mut out, l.created_at);
    assert(out@ =~= enc_listing(l@));
    out
}

pub fn decode_listing(data: &Vec<u8>) -> (r: Result<Listing, DealError>)
    ensures
        match r {
            Ok(l) => parse_listing(data@) == Some((l@, 80int)),
            Err(e) => e == DealError::InvalidInput && parse_listing(data@) is None,
        },
{
    let seller = match read_arr32(data, 0) {
        Some(a) => a,
        None => {
            return Err(DealError::InvalidInput);
        },
    };
    let nft_mint = match read_arr32(data, 32) {
        Some(a) => a,
        None => {
            return Err(DealError::InvalidInput);
        },
    };
    let price = match read_u64(data, 64) {
        Some(x) => x,
        None => {
            return Err(DealError::InvalidInput);
        },
    };
    let created_at = match read_i64(data, 72) {
        Some(x) => x,
        None => {
            return Err(DealError::InvalidInput);
        },
    };
    let l = Listing { seller, nft_mint, price, created_at };
    proof {
        let p = parse_listing(data@)->Some_0;
        assert(p.0 =~= l@);
    }
    Ok(l)
}

pub proof fn lemma_listing_round_trip(l: ListingV, rest: Seq<u8>)
    requires
        crate::state::listing_valid(l),
    ensures
        parse_listing(enc_listing(l) + rest) == Some((l, 80int)),
{
    let s = enc_listing(l) + rest;
    assert(s.subrange(0, 32) =~= l.seller);
    lemma_parse_arr32_at(s, 0, l.seller);
    assert(s.subrange(32, 64) =~= l.nft_mint);
    lemma_parse_arr32_at(s, 32, l.nft_mint);
    assert(s.subrange(64, 72) =~= u64_bytes(l.price));
    lemma_parse_u64_at(s, 64, l.price);
    assert(s.subrange(72, 80) =~= i64_bytes(l.created_at));
    lemma_parse_i64_at(s, 72, l.created_at);
    assert(parse_listing(s)->Some_0.0 =~= l);
}


/// Overwrites the front of a stored record in place: the new encoding,
/// then whatever trailed it in the slot.
pub fn overwrite_front(tail_src: &Vec<u8>, front: Vec<u8>) -> (r: Vec<u8>)
    requires
        front@.len() <= tail_src@.len(),
    ensures
        r@ == front@ + tail_src@.skip(front@.len() as int),
{
    let ghost f = front@;
    let mut out = front;
    let mut i: usize = out.len();
    while i < tail_src.len()
        invariant
            f.len() <= i <= tail_src@.len(),
            out@ == f + tail_src@.subrange(f.len() as int, i as int),
        decreases tail_src@.len() - i,
    {
        out.push(tail_src[i]);
        assert(out@ =~= f + tail_src@.subrange(f.len() as int, i + 1));
        i = i + 1;
    }
    assert(out@ =~= f + tail_src@.skip(f.len() as int));
    out
}


// The length of each encoding, as a closed form.
pub proof fn lemma_enc_merchant_len(m: MerchantV)
    requires
        m.merchant.len() == 32,
        m.collection_mint.len() == 32,
    ensures
        enc_merchant(m).len() == 76 + m.name.len() + m.uri.len(),
{
}

pub proof fn lemma_enc_deal_len(d: DealV)
    requires
        d.merchant.len() == 32,
    ensures
        enc_deal(d).len() == 73 + d.title.len() + d.description.len() + d.image_uri.len()
            + d.metadata_uri.len(),
{
}

pub proof fn lemma_enc_review_len(r: ReviewV)
    requires
        r.user.len() == 32,
        r.deal.len() == 32,
    ensures
        enc_review(r).len() == 77 + r.comment.len(),
{
}

pub proof fn lemma_enc_redeem_log_len(l: RedeemLogV)
    requires
        l.token_mint.len() == 32,
        l.user.len() == 32,
    ensures
        enc_redeem_log(l).len() == 64 + 8,
{
}

pub proof fn lemma_enc_listing_len(l: ListingV)
    requires
        l.seller.len() == 32,
        l.nft_mint.len() == 32,
    ensures
        enc_listing(l).len() == 72 + 8,
{
}

} // verus!
