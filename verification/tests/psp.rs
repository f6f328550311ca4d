use custody_core::identity::Identity;
use custody_core::psp_token::{PSPTokenError, ProgramState, DECIMALS_FACTOR, MAX_SUPPLY};

fn id(b: u8) -> Identity {
    Identity { bytes: [b; 32] }
}

fn fresh(price: u64) -> ProgramState {
    ProgramState::initialize(id(1), price, 0)
}

#[test]
fn scenario_one_lamport_buys_one_unit() {
    let mut s = fresh(1_000_000_000);
    let ev = s.purchase_tokens(id(2), 1, 0, 10, id(2)).unwrap();
    assert_eq!(ev.amount, 1);
    assert_eq!(ev.sol_paid, 1);
    assert_eq!(ev.buyer, id(2));
    assert_eq!(s.balance, 1);
}

#[test]
fn scenario_zero_units_is_insufficient_payment() {
    let mut s = fresh(2_000_000_000);
    let e = s.purchase_tokens(id(2), 1, 0, 10, id(2)).unwrap_err();
    assert_eq!(e, PSPTokenError::InsufficientPayment);
    assert_eq!(s.balance, 0);
}

#[test]
fn purchase_whole_credit_exact() {
    // One whole credit costs exactly the configured price.
    let mut s = fresh(500);
    let ev = s.purchase_tokens(id(2), 500, 0, 1000, id(2)).unwrap();
    assert_eq!(ev.amount, DECIMALS_FACTOR);
    assert_eq!(s.balance, 500);
}

#[test]
fn purchase_checks_in_order() {
    let mut s = fresh(1_000_000_000);
    s.pause(id(1)).unwrap();
    assert_eq!(
        s.purchase_tokens(id(2), 1, 0, 10, id(2)).unwrap_err(),
        PSPTokenError::ContractPaused
    );
    s.unpause(id(1)).unwrap();

    assert_eq!(
        s.purchase_tokens(id(2), 0, 0, 10, id(2)).unwrap_err(),
        PSPTokenError::InvalidAmount
    );
    // Scaling the amount by the unit factor overflows 64 bits.
    assert_eq!(
        s.purchase_tokens(id(2), u64::MAX / DECIMALS_FACTOR + 1, 0, u64::MAX, id(2))
            .unwrap_err(),
        PSPTokenError::MathOverflow
    );
    // The supply cap holds.
    assert_eq!(
        s.purchase_tokens(id(2), 1, MAX_SUPPLY, 10, id(2)).unwrap_err(),
        PSPTokenError::MaxSupplyExceeded
    );
    // The buyer must cover the payment.
    assert_eq!(
        s.purchase_tokens(id(2), 10, 0, 9, id(2)).unwrap_err(),
        PSPTokenError::InsufficientFunds
    );
    // The receiving token account must belong to the buyer.
    assert_eq!(
        s.purchase_tokens(id(2), 10, 0, 10, id(3)).unwrap_err(),
        PSPTokenError::InvalidTokenAccount
    );
    assert_eq!(s.balance, 0);
}

#[test]
fn purchase_with_zero_price_is_overflow() {
    let mut s = fresh(0);
    let e = s.purchase_tokens(id(2), 1, 0, 10, id(2)).unwrap_err();
    assert_eq!(e, PSPTokenError::MathOverflow);
}

#[test]
fn redeem_round_trip_respects_reserve() {
    let mut s = fresh(1_000_000_000);
    s.purchase_tokens(id(2), 5, 0, 100, id(2)).unwrap();
    assert_eq!(s.balance, 5);

    let ev = s.redeem_tokens(id(2), 3, id(2), 5, 1).unwrap();
    assert_eq!(ev.amount, 3);
    assert_eq!(ev.sol_received, 3);
    assert_eq!(s.balance, 2);

    // Redeeming two more would leave the treasury below the reserve.
    let e = s.redeem_tokens(id(2), 2, id(2), 2, 1).unwrap_err();
    assert_eq!(e, PSPTokenError::InsufficientContractBalance);
    assert_eq!(s.balance, 2);
}

#[test]
fn redeem_checks_ownership_and_balance() {
    let mut s = fresh(1_000_000_000);
    s.purchase_tokens(id(2), 5, 0, 100, id(2)).unwrap();

    assert_eq!(
        s.redeem_tokens(id(2), 0, id(2), 5, 0).unwrap_err(),
        PSPTokenError::InvalidAmount
    );
    assert_eq!(
        s.redeem_tokens(id(2), 3, id(9), 5, 0).unwrap_err(),
        PSPTokenError::InvalidTokenAccount
    );
    assert_eq!(
        s.redeem_tokens(id(2), 6, id(2), 5, 0).unwrap_err(),
        PSPTokenError::InsufficientTokenBalance
    );
    assert_eq!(s.balance, 5);
}

#[test]
fn spender_must_hold_live_authorization() {
    let mut s = fresh(1_000_000_000);

    let e = s.spend_tokens_for(id(2), id(7), 10, id(2), 100).unwrap_err();
    assert_eq!(e, PSPTokenError::UnauthorizedSpender);

    s.set_authorized_spender(id(1), id(7), true).unwrap();
    s.spend_tokens_for(id(2), id(7), 10, id(2), 100).unwrap();

    s.set_authorized_spender(id(1), id(7), false).unwrap();
    let e = s.spend_tokens_for(id(2), id(7), 10, id(2), 100).unwrap_err();
    assert_eq!(e, PSPTokenError::UnauthorizedSpender);
}

#[test]
fn spend_checks_amount_owner_and_balance() {
    let mut s = fresh(1_000_000_000);
    s.set_authorized_spender(id(1), id(7), true).unwrap();

    assert_eq!(
        s.spend_tokens_for(id(2), id(7), 0, id(2), 100).unwrap_err(),
        PSPTokenError::InvalidAmount
    );
    assert_eq!(
        s.spend_tokens_for(id(2), id(7), 10, id(9), 100).unwrap_err(),
        PSPTokenError::InvalidTokenAccount
    );
    assert_eq!(
        s.spend_tokens_for(id(2), id(7), 101, id(2), 100).unwrap_err(),
        PSPTokenError::InsufficientTokenBalance
    );
}

#[test]
fn authorizing_twice_keeps_one_record() {
    let mut s = fresh(1_000_000_000);
    s.set_authorized_spender(id(1), id(7), true).unwrap();
    s.set_authorized_spender(id(1), id(7), true).unwrap();
    assert_eq!(s.spenders.len(), 1);
    assert_eq!(s.spenders[0].spender, id(7));
    assert!(s.spenders[0].authorized);

    s.set_authorized_spender(id(1), id(8), true).unwrap();
    assert_eq!(s.spenders.len(), 2);
}

#[test]
fn set_authorized_spender_requires_admin() {
    let mut s = fresh(1_000_000_000);
    let e = s.set_authorized_spender(id(9), id(7), true).unwrap_err();
    assert_eq!(e, PSPTokenError::Unauthorized);
    assert_eq!(s.spenders.len(), 0);
}

#[test]
fn update_token_price_rules() {
    let mut s = fresh(100);
    assert_eq!(
        s.update_token_price(id(9), 200).unwrap_err(),
        PSPTokenError::Unauthorized
    );
    assert_eq!(
        s.update_token_price(id(1), 0).unwrap_err(),
        PSPTokenError::InvalidAmount
    );
    let ev = s.update_token_price(id(1), 200).unwrap();
    assert_eq!(ev.old_price, 100);
    assert_eq!(ev.new_price, 200);
    assert_eq!(s.token_price_in_lamports, 200);
}

#[test]
fn admin_mint_respects_cap_and_never_wraps() {
    let mut s = fresh(100);
    assert_eq!(s.mint(id(9), 1, 0).unwrap_err(), PSPTokenError::Unauthorized);
    s.mint(id(1), MAX_SUPPLY, 0).unwrap();
    assert_eq!(
        s.mint(id(1), 1, MAX_SUPPLY).unwrap_err(),
        PSPTokenError::MaxSupplyExceeded
    );
    assert_eq!(
        s.mint(id(1), 1, u64::MAX).unwrap_err(),
        PSPTokenError::MathOverflow
    );
}

#[test]
fn psp_withdraw_down_to_reserve_exactly() {
    let mut s = fresh(1_000_000_000);
    s.purchase_tokens(id(2), 5, 0, 100, id(2)).unwrap();
    assert_eq!(s.balance, 5);

    // One more than the withdrawable ceiling breaches the reserve.
    let e = s.withdraw_sol(id(1), 5, 1).unwrap_err();
    assert_eq!(e, PSPTokenError::InsufficientContractBalance);
    assert_eq!(s.balance, 5);

    // Exactly balance minus reserve succeeds and leaves the reserve.
    s.withdraw_sol(id(1), 4, 1).unwrap();
    assert_eq!(s.balance, 1);
}

#[test]
fn psp_withdraw_requires_admin_and_amount() {
    let mut s = fresh(1_000_000_000);
    s.purchase_tokens(id(2), 5, 0, 100, id(2)).unwrap();

    assert_eq!(s.withdraw_sol(id(9), 1, 0).unwrap_err(), PSPTokenError::Unauthorized);
    assert_eq!(s.withdraw_sol(id(1), 0, 0).unwrap_err(), PSPTokenError::InvalidAmount);
    assert_eq!(s.balance, 5);
}

#[test]
fn pause_gates_value_movement_only_for_admin() {
    let mut s = fresh(1_000_000_000);
    assert_eq!(s.pause(id(9)).unwrap_err(), PSPTokenError::Unauthorized);
    assert!(!s.paused);

    s.pause(id(1)).unwrap();
    assert!(s.paused);
    assert_eq!(
        s.redeem_tokens(id(2), 1, id(2), 1, 0).unwrap_err(),
        PSPTokenError::ContractPaused
    );
    assert_eq!(
        s.spend_tokens_for(id(2), id(7), 1, id(2), 1).unwrap_err(),
        PSPTokenError::ContractPaused
    );

    s.unpause(id(1)).unwrap();
    assert!(!s.paused);
}
