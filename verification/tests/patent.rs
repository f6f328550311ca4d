use custody_core::identity::Identity;
use custody_core::patent_nft::{normalize_patent_id, PatentNFTError, ProgramState};

fn id(b: u8) -> Identity {
    Identity { bytes: [b; 32] }
}

fn fresh(price: u64) -> ProgramState {
    ProgramState::initialize(id(1), price, 500, 0)
}

fn mint_ok(s: &mut ProgramState, payer: u8, balance: u64, patent: &str) -> u64 {
    s.mint_patent_nft(
        id(payer),
        balance,
        patent.to_string(),
        "Patent".to_string(),
        "PAT".to_string(),
        "https://example.com/meta.json".to_string(),
        id(9),
    )
    .unwrap()
    .token_id
}

#[test]
fn digest_is_sha256_of_normalized_identifier() {
    // The registry keys identifiers by the SHA-256 of their normalized
    // form: "us-1 234" normalizes to "US1234".
    let digest = normalize_patent_id("us-1 234");
    let expected = anchor_lang::solana_program::hash::hash("US1234".as_bytes()).to_bytes();
    assert_eq!(digest, expected);

    let mut s = fresh(100);
    mint_ok(&mut s, 2, 1000, "us-1 234");
    assert_eq!(s.registry[0].patent_hash, expected);
    assert_eq!(s.registry[0].patent_number, "us-1 234");
    assert_eq!(s.registry[0].owner, id(2));
}

#[test]
fn respellings_of_one_identifier_share_one_slot() {
    let mut s = fresh(100);
    let t = mint_ok(&mut s, 2, 1000, "us-1234");
    assert_eq!(t, 1);

    let e = s
        .mint_patent_nft(
            id(3),
            1000,
            "U S 1234".to_string(),
            "Patent".to_string(),
            "PAT".to_string(),
            "https://example.com/meta.json".to_string(),
            id(10),
        )
        .unwrap_err();
    assert_eq!(e, PatentNFTError::PatentAlreadyMinted);
    assert_eq!(s.registry.len(), 1);
    assert_eq!(s.next_token_id, 2);
}

#[test]
fn unicode_whitespace_is_dropped() {
    let a = normalize_patent_id("A\u{00A0}B\u{2003}c");
    let b = normalize_patent_id("ABC");
    assert_eq!(a, b);
}

#[test]
fn distinct_identifiers_get_distinct_slots() {
    let mut s = fresh(100);
    assert_eq!(mint_ok(&mut s, 2, 1000, "US-1"), 1);
    assert_eq!(mint_ok(&mut s, 2, 1000, "US-2"), 2);
    assert_eq!(s.registry.len(), 2);
    assert_ne!(s.registry[0].patent_hash, s.registry[1].patent_hash);
}

#[test]
fn input_caps_are_enforced() {
    let mut s = fresh(100);
    let name = "Patent".to_string();
    let sym = "PAT".to_string();
    let uri = "https://example.com".to_string();

    let e = s
        .mint_patent_nft(id(2), 1000, "".to_string(), name.clone(), sym.clone(), uri.clone(), id(9))
        .unwrap_err();
    assert_eq!(e, PatentNFTError::InvalidPatentNumber);

    let e = s
        .mint_patent_nft(id(2), 1000, "x".repeat(51), name.clone(), sym.clone(), uri.clone(), id(9))
        .unwrap_err();
    assert_eq!(e, PatentNFTError::InvalidPatentNumber);

    let e = s
        .mint_patent_nft(id(2), 1000, "US-1".to_string(), "n".repeat(33), sym.clone(), uri.clone(), id(9))
        .unwrap_err();
    assert_eq!(e, PatentNFTError::InvalidName);

    let e = s
        .mint_patent_nft(id(2), 1000, "US-1".to_string(), name.clone(), "s".repeat(11), uri.clone(), id(9))
        .unwrap_err();
    assert_eq!(e, PatentNFTError::InvalidSymbol);

    let e = s
        .mint_patent_nft(id(2), 1000, "US-1".to_string(), name, sym, "u".repeat(201), id(9))
        .unwrap_err();
    assert_eq!(e, PatentNFTError::InvalidUri);

    assert_eq!(s.registry.len(), 0);
    assert_eq!(s.next_token_id, 1);
}

#[test]
fn public_mint_requires_payment() {
    let mut s = fresh(100);
    let e = s
        .mint_patent_nft(
            id(2),
            99,
            "US-1".to_string(),
            "Patent".to_string(),
            "PAT".to_string(),
            "https://example.com".to_string(),
            id(9),
        )
        .unwrap_err();
    assert_eq!(e, PatentNFTError::InsufficientPayment);
    assert_eq!(s.registry.len(), 0);
}

#[test]
fn token_id_counter_never_wraps() {
    let mut s = fresh(100);
    s.next_token_id = u64::MAX;
    let e = s
        .mint_patent_nft(
            id(2),
            1000,
            "US-1".to_string(),
            "Patent".to_string(),
            "PAT".to_string(),
            "https://example.com".to_string(),
            id(9),
        )
        .unwrap_err();
    assert_eq!(e, PatentNFTError::TokenIdOverflow);
    assert_eq!(s.next_token_id, u64::MAX);
    assert_eq!(s.registry.len(), 0);
}

#[test]
fn admin_mint_needs_no_payment_but_needs_admin() {
    let mut s = fresh(1_000_000);
    let e = s
        .mint_patent_admin(
            id(2),
            id(5),
            "US-1".to_string(),
            "Patent".to_string(),
            "PAT".to_string(),
            "https://example.com".to_string(),
            id(9),
        )
        .unwrap_err();
    assert_eq!(e, PatentNFTError::Unauthorized);

    let ev = s
        .mint_patent_admin(
            id(1),
            id(5),
            "US-1".to_string(),
            "Patent".to_string(),
            "PAT".to_string(),
            "https://example.com".to_string(),
            id(9),
        )
        .unwrap();
    assert_eq!(ev.owner, id(5));
    assert_eq!(ev.token_id, 1);
    assert_eq!(s.registry[0].owner, id(5));
}

#[test]
fn update_minting_price_requires_admin() {
    let mut s = fresh(100);
    let e = s.update_minting_price(id(2), 500).unwrap_err();
    assert_eq!(e, PatentNFTError::Unauthorized);
    assert_eq!(s.minting_price, 100);

    let ev = s.update_minting_price(id(1), 500).unwrap();
    assert_eq!(ev.old_price, 100);
    assert_eq!(ev.new_price, 500);
    assert_eq!(s.minting_price, 500);
}

#[test]
fn patent_withdraw_down_to_reserve_exactly() {
    let mut s = fresh(100);
    s.fund(1000).unwrap();

    let e = s.withdraw(id(1), 991, 10).unwrap_err();
    assert_eq!(e, PatentNFTError::InsufficientBalance);
    assert_eq!(s.balance, 1000);

    let ev = s.withdraw(id(1), 990, 10).unwrap();
    assert_eq!(ev.recipient, id(1));
    assert_eq!(ev.amount, 990);
    assert_eq!(s.balance, 10);
}

#[test]
fn withdraw_requires_admin_and_amount() {
    let mut s = fresh(100);
    s.fund(1000).unwrap();

    assert_eq!(s.withdraw(id(2), 1, 0).unwrap_err(), PatentNFTError::Unauthorized);
    assert_eq!(s.withdraw(id(1), 0, 0).unwrap_err(), PatentNFTError::InvalidAmount);
    assert_eq!(s.balance, 1000);
}

#[test]
fn fund_checks_overflow() {
    let mut s = fresh(100);
    s.fund(u64::MAX).unwrap();
    let e = s.fund(1).unwrap_err();
    assert_eq!(e, PatentNFTError::MathOverflow);
    assert_eq!(s.balance, u64::MAX);
}
