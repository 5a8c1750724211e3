use solana_betting_dapp::claim::ClaimAccount;
use solana_betting_dapp::claim::Side;
use solana_betting_dapp::odds::price_odds;
use solana_betting_dapp::payout::compute_payout;

#[test]
fn compute_payout_exact_unit_case() {
    let (net, fee) = compute_payout(1000, 1000);
    assert_eq!(net, 985);
    assert_eq!(fee, 15);
}

#[test]
fn compute_payout_floors_each_step() {
    // gross = floor(999 * 1500 / 1000) = 1498, fee = floor(1498 * 15 / 1000) = 22
    let (net, fee) = compute_payout(999, 1500);
    assert_eq!(fee, 22);
    assert_eq!(net, 1476);
}

#[test]
fn compute_payout_zero_stake() {
    assert_eq!(compute_payout(0, 1000), (0, 0));
}

#[test]
fn first_contributor_always_priced_at_1000() {
    assert_eq!(price_odds(0, 0), 1000);
    assert_eq!(price_odds(0, 123_456), 1000);
    let (mut claim, _) = ClaimAccount::create_claim(
        1,
        &b"first odds".to_vec(),
        0,
        1000,
        String::new(),
        String::new(),
    );
    // The creator seeds side A at 1000; the first joiner of side B gets 1000 too.
    assert_eq!(claim.side_a.entries[0].odds, 1000);
    claim.join_pool(Side::B, 2, 500).unwrap();
    assert_eq!(claim.side_b.entries[0].odds, 1000);
}

#[test]
fn odds_follow_pool_ratio_with_floor() {
    assert_eq!(price_odds(1000, 1500), 1500);
    assert_eq!(price_odds(500, 1800), 3600);
    // floor(1900 * 1000 / 1300) = 1461
    assert_eq!(price_odds(1300, 1900), 1461);

    let (mut claim, _) = ClaimAccount::create_claim(
        1,
        &b"ratio odds".to_vec(),
        0,
        1000,
        String::new(),
        String::new(),
    );
    claim.join_pool(Side::B, 2, 500).unwrap();
    claim.join_pool(Side::A, 3, 300).unwrap();
    assert_eq!(claim.side_a.entries[1].odds, 1500);
    claim.join_pool(Side::B, 4, 100).unwrap();
    assert_eq!(claim.side_b.entries[1].odds, 3600);
    claim.join_pool(Side::A, 5, 7).unwrap();
    assert_eq!(claim.side_a.entries[2].odds, 1461);
    // Earlier entries keep the odds locked at their own join time.
    assert_eq!(claim.side_a.entries[0].odds, 1000);
    assert_eq!(claim.side_a.entries[1].odds, 1500);
    assert_eq!(claim.side_b.entries[0].odds, 1000);
}

#[test]
fn totals_equal_sum_of_transferred_amounts() {
    let (mut claim, funding) = ClaimAccount::create_claim(
        1,
        &b"conservation".to_vec(),
        0,
        1000,
        String::new(),
        String::new(),
    );
    let mut transferred: u64 = funding.amount;
    for (side, who, amount) in [
        (Side::B, 2, 500),
        (Side::A, 3, 250),
        (Side::B, 4, 125),
        (Side::A, 5, 0),
        (Side::B, 6, 999),
    ] {
        let t = claim.join_pool(side, who, amount).unwrap();
        assert_eq!(t.amount, amount);
        transferred += t.amount;
    }
    let (total_a, total_b) = claim.get_pool_totals();
    assert_eq!(total_a + total_b, transferred);
    let stakes_a: u64 = claim.side_a.entries.iter().map(|e| e.stake).sum();
    let stakes_b: u64 = claim.side_b.entries.iter().map(|e| e.stake).sum();
    assert_eq!(total_a, stakes_a);
    assert_eq!(total_b, stakes_b);
    assert_eq!(claim.total_of(Side::A), total_a);
    assert_eq!(claim.total_of(Side::B), total_b);
}

#[test]
fn fingerprint_is_sha256_of_the_text() {
    let (claim, _) = ClaimAccount::create_claim(
        1,
        &b"hello".to_vec(),
        0,
        10,
        String::new(),
        String::new(),
    );
    let expected: [u8; 32] = [
        0x2c, 0xf2, 0x4d, 0xba, 0x5f, 0xb0, 0xa3, 0x0e, 0x26, 0xe8, 0x3b, 0x2a, 0xc5, 0xb9,
        0xe2, 0x9e, 0x1b, 0x16, 0x1e, 0x5c, 0x1f, 0xa7, 0x42, 0x5e, 0x73, 0x04, 0x33, 0x62,
        0x93, 0x8b, 0x98, 0x24,
    ];
    assert_eq!(claim.claim_text_hash, expected);
}

#[test]
fn fingerprint_of_empty_text() {
    let (claim, _) = ClaimAccount::create_claim(
        1,
        &Vec::new(),
        0,
        10,
        String::new(),
        String::new(),
    );
    let expected: [u8; 32] = [
        0xe3, 0xb0, 0xc4, 0x42, 0x98, 0xfc, 0x1c, 0x14, 0x9a, 0xfb, 0xf4, 0xc8, 0x99, 0x6f,
        0xb9, 0x24, 0x27, 0xae, 0x41, 0xe4, 0x64, 0x9b, 0x93, 0x4c, 0xa4, 0x95, 0x99, 0x1b,
        0x78, 0x52, 0xb8, 0x55,
    ];
    assert_eq!(claim.claim_text_hash, expected);
}

#[test]
fn different_texts_fingerprint_differently() {
    let (first, _) =
        ClaimAccount::create_claim(1, &b"alpha".to_vec(), 0, 10, String::new(), String::new());
    let (second, _) =
        ClaimAccount::create_claim(1, &b"beta".to_vec(), 0, 10, String::new(), String::new());
    assert_ne!(first.claim_text_hash, second.claim_text_hash);
}
