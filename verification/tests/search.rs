use custody_core::identity::Identity;
use custody_core::search_payment::{PaymentToken, ProgramState, SearchPaymentError, UserStats};

fn id(b: u8) -> Identity {
    Identity { bytes: [b; 32] }
}

fn fresh() -> ProgramState {
    // authority 1, credit-currency ledger id 5, stable-currency ledger id 6
    ProgramState::initialize(id(1), id(5), id(6), 100, 200, 300, 0)
}

#[test]
fn native_payment_accrues_and_fills_treasury() {
    let mut s = fresh();
    let ev = s.pay_with_sol(id(2), 1000, 42).unwrap();
    assert_eq!(ev.amount, 100);
    assert_eq!(ev.search_credits, 1);
    assert_eq!(ev.payment_method, PaymentToken::SOL);
    assert_eq!(ev.timestamp, 42);
    assert_eq!(s.balance, 100);
    assert_eq!(s.stats.len(), 1);
    assert_eq!(s.stats[0].user, id(2));
    assert_eq!(s.stats[0].sol_paid, 100);
    assert_eq!(s.stats[0].searches_purchased, 1);
}

#[test]
fn second_payment_updates_the_one_record() {
    let mut s = fresh();
    s.pay_with_sol(id(2), 1000, 1).unwrap();
    s.pay_with_sol(id(2), 1000, 2).unwrap();
    assert_eq!(s.stats.len(), 1);
    assert_eq!(s.stats[0].sol_paid, 200);
    assert_eq!(s.stats[0].searches_purchased, 2);
    assert_eq!(s.balance, 200);

    s.pay_with_sol(id(3), 1000, 3).unwrap();
    assert_eq!(s.stats.len(), 2);
    assert_eq!(s.stats[1].user, id(3));
    assert_eq!(s.stats[1].sol_paid, 100);
}

#[test]
fn native_payment_checks() {
    let mut s = fresh();
    assert_eq!(
        s.pay_with_sol(id(2), 99, 0).unwrap_err(),
        SearchPaymentError::InsufficientFunds
    );

    s.pause(id(1)).unwrap();
    assert_eq!(
        s.pay_with_sol(id(2), 1000, 0).unwrap_err(),
        SearchPaymentError::ContractPaused
    );
    s.unpause(id(1)).unwrap();

    let mut unpriced = ProgramState::initialize(id(1), id(5), id(6), 0, 0, 0, 0);
    assert_eq!(
        unpriced.pay_with_sol(id(2), 1000, 0).unwrap_err(),
        SearchPaymentError::PriceNotSet
    );
}

#[test]
fn stable_payment_validates_accounts() {
    let mut s = fresh();
    // user account carries the wrong currency
    assert_eq!(
        s.pay_with_usdc(id(2), id(5), id(2), 1000, id(6), 0).unwrap_err(),
        SearchPaymentError::InvalidTokenAccount
    );
    // service account carries the wrong currency
    assert_eq!(
        s.pay_with_usdc(id(2), id(6), id(2), 1000, id(5), 0).unwrap_err(),
        SearchPaymentError::InvalidTokenAccount
    );
    // paying account does not belong to the user
    assert_eq!(
        s.pay_with_usdc(id(2), id(6), id(3), 1000, id(6), 0).unwrap_err(),
        SearchPaymentError::InvalidTokenAccount
    );
    // price not covered
    assert_eq!(
        s.pay_with_usdc(id(2), id(6), id(2), 199, id(6), 0).unwrap_err(),
        SearchPaymentError::InsufficientFunds
    );
    assert_eq!(s.stats.len(), 0);

    let ev = s.pay_with_usdc(id(2), id(6), id(2), 1000, id(6), 7).unwrap();
    assert_eq!(ev.amount, 200);
    assert_eq!(ev.payment_method, PaymentToken::USDC);
    assert_eq!(s.stats[0].usdc_paid, 200);
    assert_eq!(s.stats[0].sol_paid, 0);
    assert_eq!(s.balance, 0); // token payments do not touch the native treasury
}

#[test]
fn credit_payment_accrues_its_own_total() {
    let mut s = fresh();
    let ev = s.pay_with_psp(id(2), id(5), id(2), 1000, id(5), 7).unwrap();
    assert_eq!(ev.amount, 300);
    assert_eq!(ev.payment_method, PaymentToken::PSP);
    assert_eq!(s.stats[0].psp_paid, 300);
    assert_eq!(s.stats[0].searches_purchased, 1);
}

#[test]
fn accrual_overflow_aborts_whole_payment() {
    let mut s = fresh();
    s.stats.push(UserStats {
        user: id(2),
        sol_paid: u64::MAX,
        usdc_paid: 0,
        psp_paid: 0,
        searches_purchased: 5,
    });
    let e = s.pay_with_sol(id(2), 1000, 0).unwrap_err();
    assert_eq!(e, SearchPaymentError::MathOverflow);
    // nothing committed: neither the treasury nor the record moved
    assert_eq!(s.balance, 0);
    assert_eq!(s.stats[0].sol_paid, u64::MAX);
    assert_eq!(s.stats[0].searches_purchased, 5);
}

#[test]
fn update_search_price_per_currency() {
    let mut s = fresh();
    assert_eq!(
        s.update_search_price(id(9), PaymentToken::SOL, 1).unwrap_err(),
        SearchPaymentError::Unauthorized
    );
    assert_eq!(
        s.update_search_price(id(1), PaymentToken::SOL, 0).unwrap_err(),
        SearchPaymentError::InvalidPrice
    );

    let ev = s.update_search_price(id(1), PaymentToken::USDC, 250).unwrap();
    assert_eq!(ev.token, PaymentToken::USDC);
    assert_eq!(ev.old_price, 200);
    assert_eq!(ev.new_price, 250);
    assert_eq!(s.search_price_in_usdc, 250);
    assert_eq!(s.search_price_in_sol, 100);
    assert_eq!(s.search_price_in_psp, 300);
}

#[test]
fn native_ledger_identity_cannot_be_repointed() {
    let mut s = fresh();
    assert_eq!(
        s.update_token_address(id(9), PaymentToken::USDC, id(8)).unwrap_err(),
        SearchPaymentError::Unauthorized
    );
    assert_eq!(
        s.update_token_address(id(1), PaymentToken::SOL, id(8)).unwrap_err(),
        SearchPaymentError::CannotUpdateSOL
    );

    s.update_token_address(id(1), PaymentToken::USDC, id(8)).unwrap();
    assert_eq!(s.usdc_token_mint, id(8));
    assert_eq!(s.psp_token_mint, id(5));
}

#[test]
fn search_withdraw_down_to_reserve_exactly() {
    let mut s = fresh();
    s.pay_with_sol(id(2), 1000, 0).unwrap();
    assert_eq!(s.balance, 100);

    let e = s.withdraw_sol(id(1), 91, 10).unwrap_err();
    assert_eq!(e, SearchPaymentError::InsufficientBalance);
    assert_eq!(s.balance, 100);

    let ev = s.withdraw_sol(id(1), 90, 10).unwrap();
    assert_eq!(ev.owner, id(1));
    assert_eq!(ev.token, PaymentToken::SOL);
    assert_eq!(ev.amount, 90);
    assert_eq!(s.balance, 10);
}

#[test]
fn search_withdraw_requires_admin_and_amount() {
    let mut s = fresh();
    s.pay_with_sol(id(2), 1000, 0).unwrap();
    assert_eq!(
        s.withdraw_sol(id(9), 1, 0).unwrap_err(),
        SearchPaymentError::Unauthorized
    );
    assert_eq!(
        s.withdraw_sol(id(1), 0, 0).unwrap_err(),
        SearchPaymentError::InvalidAmount
    );
    assert_eq!(s.balance, 100);
}

#[test]
fn token_withdrawals_take_the_whole_balance() {
    let mut s = fresh();
    assert_eq!(
        s.withdraw_usdc(id(9), 500).unwrap_err(),
        SearchPaymentError::Unauthorized
    );
    assert_eq!(
        s.withdraw_usdc(id(1), 0).unwrap_err(),
        SearchPaymentError::InsufficientBalance
    );
    let ev = s.withdraw_usdc(id(1), 500).unwrap();
    assert_eq!(ev.token, PaymentToken::USDC);
    assert_eq!(ev.amount, 500);

    let ev = s.withdraw_psp(id(1), 700).unwrap();
    assert_eq!(ev.token, PaymentToken::PSP);
    assert_eq!(ev.amount, 700);
}
