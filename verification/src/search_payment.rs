//! The metered-access payment service: pay a fixed, admin-set price in
//! one of three currencies for search credits.
//!
//! Each payment moves the configured price from the user to the service
//! (native currency into the treasury custody record, tokens into the
//! service's token accounts) and accrues the user's running totals and a
//! shared credit counter, all with checked arithmetic. Accrual records
//! are created on first payment and updated in place afterwards.

use vstd::prelude::*;

use crate::custody::pda_of;
use crate::identity::Identity;

verus! {

/// Namespace tag of the payment service's configuration record, whose
/// derived identity also controls the treasury custody record.
pub const SEARCH_STATE_TAG: u8 = 4;

/// The currency a payment is made in.
#[derive(Clone, Copy, Debug, PartialEq, Eq, Structural)]
pub enum PaymentToken {
    SOL,
    USDC,
    PSP,
}

/// The payment service's configuration record, its treasury balance, and
/// every per-user accrual record, keyed by the user identity.
#[derive(Debug)]
pub struct ProgramState {
    pub authority: Identity,
    pub psp_token_mint: Identity,
    pub usdc_token_mint: Identity,
    pub search_price_in_sol: u64,
    pub search_price_in_usdc: u64,
    pub search_price_in_psp: u64,
    pub searches_per_payment: u64,
    pub paused: bool,
    pub bump: u8,
    /// The native-currency balance of the treasury custody record. Only
    /// native payments and withdrawals move it; token payments settle in
    /// the service's token accounts, which the external ledger owns.
    pub balance: u64,
    pub stats: Vec<UserStats>,
}

/// One user's accrual record: what the user has paid in each currency and
/// how many search credits the user has purchased.
#[derive(Clone, Copy, Debug)]
pub struct UserStats {
    pub user: Identity,
    pub sol_paid: u64,
    pub usdc_paid: u64,
    pub psp_paid: u64,
    pub searches_purchased: u64,
}

/// Notification of a completed payment.
#[derive(Clone, Copy, Debug)]
pub struct PaymentReceived {
    pub user: Identity,
    pub payment_method: PaymentToken,
    pub amount: u64,
    pub search_credits: u64,
    pub timestamp: i64,
}

/// Notification of a price change.
#[derive(Clone, Copy, Debug)]
pub struct PriceUpdated {
    pub token: PaymentToken,
    pub old_price: u64,
    pub new_price: u64,
}

/// Notification of a completed withdrawal.
#[derive(Clone, Copy, Debug)]
pub struct TokensWithdrawn {
    pub owner: Identity,
    pub token: PaymentToken,
    pub amount: u64,
}

#[derive(Clone, Copy, Debug, PartialEq, Eq, Structural)]
pub enum SearchPaymentError {
    ContractPaused,
    PriceNotSet,
    InvalidPrice,
    InsufficientBalance,
    CannotUpdateSOL,
    InsufficientFunds,
    InvalidTokenAccount,
    MathOverflow,
    InvalidAmount,
    Unauthorized,
}

/// A fresh accrual record with nothing accrued yet.
pub open spec fn zero_stats(user: Identity) -> UserStats {
    UserStats { user, sol_paid: 0, usdc_paid: 0, psp_paid: 0, searches_purchased: 0 }
}

/// Whether some accrual record carries this user.
pub open spec fn has_stats(stats: Seq<UserStats>, user: Identity) -> bool {
    exists|i: int| 0 <= i < stats.len() && stats[i].user == user
}

/// The index of the accrual record of this user; well defined whenever
/// the records are well formed, because at most one record per user
/// exists.
pub open spec fn stats_index(stats: Seq<UserStats>, user: Identity) -> int {
    choose|i: int| 0 <= i < stats.len() && stats[i].user == user
}

/// This user's accrual record, or a fresh one if none exists yet.
pub open spec fn stats_of(stats: Seq<UserStats>, user: Identity) -> UserStats {
    if has_stats(stats, user) {
        stats[stats_index(stats, user)]
    } else {
        zero_stats(user)
    }
}

/// The accrual records after creating this user's record if it is
/// missing: the idempotent creation step of every payment. An existing
/// record is left exactly as it is.
pub open spec fn stats_after_touch(stats: Seq<UserStats>, user: Identity) -> Seq<UserStats> {
    if has_stats(stats, user) {
        stats
    } else {
        stats.push(zero_stats(user))
    }
}

/// The accrual records after one completed payment: the user's record,
/// created if missing, with the paid amount added to the chosen currency
/// total and the credits added to the purchase counter.
pub open spec fn stats_after_pay(
    stats: Seq<UserStats>,
    user: Identity,
    token: PaymentToken,
    amount: u64,
    credits: u64,
) -> Seq<UserStats> {
    let t = stats_after_touch(stats, user);
    let i = stats_index(t, user);
    let e = t[i];
    let accrued = match token {
        PaymentToken::SOL => (UserStats {
            sol_paid: (e.sol_paid + amount) as u64,
            searches_purchased: (e.searches_purchased + credits) as u64,
            ..e
        }),
        PaymentToken::USDC => (UserStats {
            usdc_paid: (e.usdc_paid + amount) as u64,
            searches_purchased: (e.searches_purchased + credits) as u64,
            ..e
        }),
        PaymentToken::PSP => (UserStats {
            psp_paid: (e.psp_paid + amount) as u64,
            searches_purchased: (e.searches_purchased + credits) as u64,
            ..e
        }),
    };
    t.update(i, accrued)
}

/// What a native-currency payment decides, in the order the checks run.
pub open spec fn pay_sol_result(s: ProgramState, user: Identity, user_balance: u64) -> Result<
    (),
    SearchPaymentError,
> {
    let price = s.search_price_in_sol;
    let st = stats_of(s.stats@, user);
    if s.paused {
        Err(SearchPaymentError::ContractPaused)
    } else if price == 0 {
        Err(SearchPaymentError::PriceNotSet)
    } else if user_balance < price {
        Err(SearchPaymentError::InsufficientFunds)
    } else if s.balance + price > u64::MAX {
        Err(SearchPaymentError::MathOverflow)
    } else if st.sol_paid + price > u64::MAX {
        Err(SearchPaymentError::MathOverflow)
    } else if st.searches_purchased + s.searches_per_payment > u64::MAX {
        Err(SearchPaymentError::MathOverflow)
    } else {
        Ok(())
    }
}

/// What a token payment decides, in the order the checks run: the user's
/// and the service's token accounts must carry the configured currency,
/// the paying account must belong to the user and cover the price, and
/// the accrued totals must not overflow.
pub open spec fn pay_token_result(
    s: ProgramState,
    price: u64,
    configured_mint: Identity,
    user: Identity,
    user_account_mint: Identity,
    user_account_owner: Identity,
    user_account_balance: u64,
    program_account_mint: Identity,
    paid_so_far: u64,
) -> Result<(), SearchPaymentError> {
    let st = stats_of(s.stats@, user);
    if s.paused {
        Err(SearchPaymentError::ContractPaused)
    } else if price == 0 {
        Err(SearchPaymentError::PriceNotSet)
    } else if user_account_mint != configured_mint {
        Err(SearchPaymentError::InvalidTokenAccount)
    } else if program_account_mint != configured_mint {
        Err(SearchPaymentError::InvalidTokenAccount)
    } else if user_account_owner != user {
        Err(SearchPaymentError::InvalidTokenAccount)
    } else if user_account_balance < price {
        Err(SearchPaymentError::InsufficientFunds)
    } else if paid_so_far + price > u64::MAX {
        Err(SearchPaymentError::MathOverflow)
    } else if st.searches_purchased + s.searches_per_payment > u64::MAX {
        Err(SearchPaymentError::MathOverflow)
    } else {
        Ok(())
    }
}

impl ProgramState {
    /// Well-formedness: no two accrual records carry the same user.
    pub open spec fn wf(self) -> bool {
        forall|i: int, j: int|
            0 <= i < j < self.stats.len() ==> self.stats[i].user != self.stats[j].user
    }

    /// Bootstrap the payment service. The caller becomes the admin
    /// authority; one payment buys one search credit; the treasury starts
    /// empty.
    pub fn initialize(
        authority: Identity,
        psp_token_mint: Identity,
        usdc_token_mint: Identity,
        search_price_in_sol: u64,
        search_price_in_usdc: u64,
        search_price_in_psp: u64,
        bump: u8,
    ) -> (state: ProgramState)
        ensures
            state.wf(),
            state.authority == authority,
            state.psp_token_mint == psp_token_mint,
            state.usdc_token_mint == usdc_token_mint,
            state.search_price_in_sol == search_price_in_sol,
            state.search_price_in_usdc == search_price_in_usdc,
            state.search_price_in_psp == search_price_in_psp,
            state.searches_per_payment == 1,
            !state.paused,
            state.bump == bump,
            state.balance == 0,
            state.stats@ == Seq::<UserStats>::empty(),
    {
        ProgramState {
            authority,
            psp_token_mint,
            usdc_token_mint,
            search_price_in_sol,
            search_price_in_usdc,
            search_price_in_psp,
            searches_per_payment: 1,
            paused: false,
            bump,
            balance: 0,
            stats: Vec::new(),
        }
    }

    /// The accrual record of this user, if any.
    fn find_stats(&self, user: &Identity) -> (r: Option<usize>)
        requires
            self.wf(),
        ensures
            match r {
                Some(i) => {
                    &&& i < self.stats@.len()
                    &&& self.stats@[i as int].user == *user
                    &&& i as int == stats_index(self.stats@, *user)
                },
                None => !has_stats(self.stats@, *user),
            },
    {
        let n = self.stats.len();
        let mut i: usize = 0;
        while i < n
            invariant
                self.wf(),
                n == self.stats@.len(),
                i <= n,
                forall|j: int| 0 <= j < i ==> self.stats@[j].user != *user,
            decreases n - i,
        {
            if self.stats[i].user == *user {
                proof {
                    let w = stats_index(self.stats@, *user);
                    assert(0 <= w < self.stats@.len() && self.stats@[w].user == *user);
                    if w != i as int {
                        assert(false);
                    }
                }
                return Some(i);
            }
            i = i + 1;
        }
        None
    }

    /// Accrue one completed payment into the user's record, creating the
    /// record first if it is missing. Only called once every check of the
    /// operation has passed.
    fn accrue(&mut self, user: Identity, token: PaymentToken, amount: u64, credits: u64)
        requires
            old(self).wf(),
            stats_of(old(self).stats@, user).searches_purchased + credits <= u64::MAX,
            token == PaymentToken::SOL ==> stats_of(old(self).stats@, user).sol_paid + amount
                <= u64::MAX,
            token == PaymentToken::USDC ==> stats_of(old(self).stats@, user).usdc_paid + amount
                <= u64::MAX,
            token == PaymentToken::PSP ==> stats_of(old(self).stats@, user).psp_paid + amount
                <= u64::MAX,
        ensures
            final (self).wf(),
            final (self).stats@ == stats_after_pay(old(self).stats@, user, token, amount, credits),
            *final (self) == (ProgramState { stats: final (self).stats, ..*old(self) }),
    {
        let entry = match self.find_stats(&user) {
            Some(i) => {
                let e = self.stats[i];
                let accrued = match token {
                    PaymentToken::SOL => UserStats {
                        sol_paid: e.sol_paid + amount,
                        searches_purchased: e.searches_purchased + credits,
                        ..e
                    },
                    PaymentToken::USDC => UserStats {
                        usdc_paid: e.usdc_paid + amount,
                        searches_purchased: e.searches_purchased + credits,
                        ..e
                    },
                    PaymentToken::PSP => UserStats {
                        psp_paid: e.psp_paid + amount,
                        searches_purchased: e.searches_purchased + credits,
                        ..e
                    },
                };
                vstd::pervasive::VecAdditionalExecFns::set(&mut self.stats, i, accrued);
                proof {
                    let t = stats_after_touch(old(self).stats@, user);
                    assert(t == old(self).stats@);
                    assert(stats_index(t, user) == i as int);
                    assert(self.stats@ =~= stats_after_pay(
                        old(self).stats@,
                        user,
                        token,
                        amount,
                        credits,
                    ));
                }
            },
            None => {
                let e = UserStats { user, sol_paid: 0, usdc_paid: 0, psp_paid: 0, searches_purchased: 0 };
                let accrued = match token {
                    PaymentToken::SOL => UserStats {
                        sol_paid: amount,
                        searches_purchased: credits,
                        ..e
                    },
                    PaymentToken::USDC => UserStats {
                        usdc_paid: amount,
                        searches_purchased: credits,
                        ..e
                    },
                    PaymentToken::PSP => UserStats {
                        psp_paid: amount,
                        searches_purchased: credits,
                        ..e
                    },
                };
                let ghost n = self.stats@.len() as int;
                self.stats.push(accrued);
                proof {
                    let pre = old(self).stats@;
                    let t = stats_after_touch(pre, user);
                    assert(t == pre.push(zero_stats(user)));
                    assert(t[n].user == user);
                    assert(has_stats(t, user));
                    let w = stats_index(t, user);
                    assert(0 <= w < t.len() && t[w].user == user);
                    if w != n {
                        assert(pre[w].user == user);
                        assert(false);
                    }
                    assert(self.stats@ =~= stats_after_pay(pre, user, token, amount, credits));
                    assert forall|i: int, j: int|
                        0 <= i < j < self.stats@.len() implies self.stats@[i].user
                        != self.stats@[j].user by {
                        if j == n {
                            assert(self.stats@[i].user != user) by {
                                if pre[i].user == user {
                                    assert(has_stats(pre, user));
                                }
                            }
                        }
                    }
                }
            },
        };
    }

    /// Pay for search credits in the native currency. The price moves
    /// from the user into the treasury custody record, and the user's
    /// totals and credits accrue, all or nothing.
    pub fn pay_with_sol(&mut self, user: Identity, user_balance: u64, timestamp: i64) -> (r: Result<
        PaymentReceived,
        SearchPaymentError,
    >)
        requires
            old(self).wf(),
        ensures
            final (self).wf(),
            final (self).authority == old(self).authority,
            final (self).psp_token_mint == old(self).psp_token_mint,
            final (self).usdc_token_mint == old(self).usdc_token_mint,
            final (self).search_price_in_sol == old(self).search_price_in_sol,
            final (self).search_price_in_usdc == old(self).search_price_in_usdc,
            final (self).search_price_in_psp == old(self).search_price_in_psp,
            final (self).searches_per_payment == old(self).searches_per_payment,
            final (self).paused == old(self).paused,
            final (self).bump == old(self).bump,
            match r {
                Ok(ev) => {
                    &&& pay_sol_result(*old(self), user, user_balance) == Ok::<
                        (),
                        SearchPaymentError,
                    >(())
                    &&& final (self).balance == old(self).balance + old(self).search_price_in_sol
                    &&& final (self).stats@ == stats_after_pay(
                        old(self).stats@,
                        user,
                        PaymentToken::SOL,
                        old(self).search_price_in_sol,
                        old(self).searches_per_payment,
                    )
                    &&& ev == (PaymentReceived {
                        user,
                        payment_method: PaymentToken::SOL,
                        amount: old(self).search_price_in_sol,
                        search_credits: old(self).searches_per_payment,
                        timestamp,
                    })
                },
                Err(e) => {
                    &&& pay_sol_result(*old(self), user, user_balance) == Err::<
                        (),
                        SearchPaymentError,
                    >(e)
                    &&& *final (self) == *old(self)
                },
            },
    {
        if self.paused {
            return Err(SearchPaymentError::ContractPaused);
        }
        let price = self.search_price_in_sol;
        if price == 0 {
            return Err(SearchPaymentError::PriceNotSet);
        }
        if user_balance < price {
            return Err(SearchPaymentError::InsufficientFunds);
        }
        let new_balance = match self.balance.checked_add(price) {
            Some(v) => v,
            None => {
                return Err(SearchPaymentError::MathOverflow);
            },
        };
        let st = match self.find_stats(&user) {
            Some(i) => self.stats[i],
            None => UserStats { user, sol_paid: 0, usdc_paid: 0, psp_paid: 0, searches_purchased: 0 },
        };
        if st.sol_paid.checked_add(price).is_none() {
            return Err(SearchPaymentError::MathOverflow);
        }
        if st.searches_purchased.checked_add(self.searches_per_payment).is_none() {
            return Err(SearchPaymentError::MathOverflow);
        }
        let credits = self.searches_per_payment;
        self.balance = new_balance;
        self.accrue(user, PaymentToken::SOL, price, credits);
        Ok(
            PaymentReceived {
                user,
                payment_method: PaymentToken::SOL,
                amount: price,
                search_credits: credits,
                timestamp,
            },
        )
    }

    /// Pay for search credits in the stable currency. The price moves
    /// from the user's token account to the service's, and the user's
    /// totals and credits accrue, all or nothing.
    pub fn pay_with_usdc(
        &mut self,
        user: Identity,
        user_account_mint: Identity,
        user_account_owner: Identity,
        user_account_balance: u64,
        program_account_mint: Identity,
        timestamp: i64,
    ) -> (r: Result<PaymentReceived, SearchPaymentError>)
        requires
            old(self).wf(),
        ensures
            final (self).wf(),
            final (self).authority == old(self).authority,
            final (self).psp_token_mint == old(self).psp_token_mint,
            final (self).usdc_token_mint == old(self).usdc_token_mint,
            final (self).search_price_in_sol == old(self).search_price_in_sol,
            final (self).search_price_in_usdc == old(self).search_price_in_usdc,
            final (self).search_price_in_psp == old(self).search_price_in_psp,
            final (self).searches_per_payment == old(self).searches_per_payment,
            final (self).paused == old(self).paused,
            final (self).bump == old(self).bump,
            final (self).balance == old(self).balance,
            match r {
                Ok(ev) => {
                    &&& pay_token_result(
                        *old(self),
                        old(self).search_price_in_usdc,
                        old(self).usdc_token_mint,
                        user,
                        user_account_mint,
                        user_account_owner,
                        user_account_balance,
                        program_account_mint,
                        stats_of(old(self).stats@, user).usdc_paid,
                    ) == Ok::<(), SearchPaymentError>(())
                    &&& final (self).stats@ == stats_after_pay(
                        old(self).stats@,
                        user,
                        PaymentToken::USDC,
                        old(self).search_price_in_usdc,
                        old(self).searches_per_payment,
                    )
                    &&& ev == (PaymentReceived {
                        user,
                        payment_method: PaymentToken::USDC,
                        amount: old(self).search_price_in_usdc,
                        search_credits: old(self).searches_per_payment,
                        timestamp,
                    })
                },
                Err(e) => {
                    &&& pay_token_result(
                        *old(self),
                        old(self).search_price_in_usdc,
                        old(self).usdc_token_mint,
                        user,
                        user_account_mint,
                        user_account_owner,
                        user_account_balance,
                        program_account_mint,
                        stats_of(old(self).stats@, user).usdc_paid,
                    ) == Err::<(), SearchPaymentError>(e)
                    &&& *final (self) == *old(self)
                },
            },
    {
        if self.paused {
            return Err(SearchPaymentError::ContractPaused);
        }
        let price = self.search_price_in_usdc;
        if price == 0 {
            return Err(SearchPaymentError::PriceNotSet);
        }
        if user_account_mint != self.usdc_token_mint {
            return Err(SearchPaymentError::InvalidTokenAccount);
        }
        if program_account_mint != self.usdc_token_mint {
            return Err(SearchPaymentError::InvalidTokenAccount);
        }
        if user_account_owner != user {
            return Err(SearchPaymentError::InvalidTokenAccount);
        }
        if user_account_balance < price {
            return Err(SearchPaymentError::InsufficientFunds);
        }
        let st = match self.find_stats(&user) {
            Some(i) => self.stats[i],
            None => UserStats { user, sol_paid: 0, usdc_paid: 0, psp_paid: 0, searches_purchased: 0 },
        };
        if st.usdc_paid.checked_add(price).is_none() {
            return Err(SearchPaymentError::MathOverflow);
        }
        if st.searches_purchased.checked_add(self.searches_per_payment).is_none() {
            return Err(SearchPaymentError::MathOverflow);
        }
        let credits = self.searches_per_payment;
        self.accrue(user, PaymentToken::USDC, price, credits);
        Ok(
            PaymentReceived {
                user,
                payment_method: PaymentToken::USDC,
                amount: price,
                search_credits: credits,
                timestamp,
            },
        )
    }

    /// Pay for search credits in the credit currency. The price moves
    /// from the user's token account to the service's, and the user's
    /// totals and credits accrue, all or nothing.
    pub fn pay_with_psp(
        &mut self,
        user: Identity,
        user_account_mint: Identity,
        user_account_owner: Identity,
        user_account_balance: u64,
        program_account_mint: Identity,
        timestamp: i64,
    ) -> (r: Result<PaymentReceived, SearchPaymentError>)
        requires
            old(self).wf(),
        ensures
            final (self).wf(),
            final (self).authority == old(self).authority,
            final (self).psp_token_mint == old(self).psp_token_mint,
            final (self).usdc_token_mint == old(self).usdc_token_mint,
            final (self).search_price_in_sol == old(self).search_price_in_sol,
            final (self).search_price_in_usdc == old(self).search_price_in_usdc,
            final (self).search_price_in_psp == old(self).search_price_in_psp,
            final (self).searches_per_payment == old(self).searches_per_payment,
            final (self).paused == old(self).paused,
            final (self).bump == old(self).bump,
            final (self).balance == old(self).balance,
            match r {
                Ok(ev) => {
                    &&& pay_token_result(
                        *old(self),
                        old(self).search_price_in_psp,
                        old(self).psp_token_mint,
                        user,
                        user_account_mint,
                        user_account_owner,
                        user_account_balance,
                        program_account_mint,
                        stats_of(old(self).stats@, user).psp_paid,
                    ) == Ok::<(), SearchPaymentError>(())
                    &&& final (self).stats@ == stats_after_pay(
                        old(self).stats@,
                        user,
                        PaymentToken::PSP,
                        old(self).search_price_in_psp,
                        old(self).searches_per_payment,
                    )
                    &&& ev == (PaymentReceived {
                        user,
                        payment_method: PaymentToken::PSP,
                        amount: old(self).search_price_in_psp,
                        search_credits: old(self).searches_per_payment,
                        timestamp,
                    })
                },
                Err(e) => {
                    &&& pay_token_result(
                        *old(self),
                        old(self).search_price_in_psp,
                        old(self).psp_token_mint,
                        user,
                        user_account_mint,
                        user_account_owner,
                        user_account_balance,
                        program_account_mint,
                        stats_of(old(self).stats@, user).psp_paid,
                    ) == Err::<(), SearchPaymentError>(e)
                    &&& *final (self) == *old(self)
                },
            },
    {
        if self.paused {
            return Err(SearchPaymentError::ContractPaused);
        }
        let price = self.search_price_in_psp;
        if price == 0 {
            return Err(SearchPaymentError::PriceNotSet);
        }
        if user_account_mint != self.psp_token_mint {
            return Err(SearchPaymentError::InvalidTokenAccount);
        }
        if program_account_mint != self.psp_token_mint {
            return Err(SearchPaymentError::InvalidTokenAccount);
        }
        if user_account_owner != user {
            return Err(SearchPaymentError::InvalidTokenAccount);
        }
        if user_account_balance < price {
            return Err(SearchPaymentError::InsufficientFunds);
        }
        let st = match self.find_stats(&user) {
            Some(i) => self.stats[i],
            None => UserStats { user, sol_paid: 0, usdc_paid: 0, psp_paid: 0, searches_purchased: 0 },
        };
        if st.psp_paid.checked_add(price).is_none() {
            return Err(SearchPaymentError::MathOverflow);
        }
        if st.searches_purchased.checked_add(self.searches_per_payment).is_none() {
            return Err(SearchPaymentError::MathOverflow);
        }
        let credits = self.searches_per_payment;
        self.accrue(user, PaymentToken::PSP, price, credits);
        Ok(
            PaymentReceived {
                user,
                payment_method: PaymentToken::PSP,
                amount: price,
                search_credits: credits,
                timestamp,
            },
        )
    }

    /// Set the price of one payment in the chosen currency. Admin only;
    /// zero is rejected.
    pub fn update_search_price(
        &mut self,
        caller: Identity,
        payment_token: PaymentToken,
        new_price: u64,
    ) -> (r: Result<PriceUpdated, SearchPaymentError>)
        requires
            old(self).wf(),
        ensures
            final (self).wf(),
            final (self).authority == old(self).authority,
            final (self).psp_token_mint == old(self).psp_token_mint,
            final (self).usdc_token_mint == old(self).usdc_token_mint,
            final (self).searches_per_payment == old(self).searches_per_payment,
            final (self).paused == old(self).paused,
            final (self).bump == old(self).bump,
            final (self).balance == old(self).balance,
            final (self).stats@ == old(self).stats@,
            match r {
                Ok(ev) => {
                    &&& caller == old(self).authority
                    &&& new_price > 0
                    &&& (payment_token == PaymentToken::SOL ==> final (self).search_price_in_sol
                        == new_price && ev.old_price == old(self).search_price_in_sol
                        && final (self).search_price_in_usdc == old(self).search_price_in_usdc
                        && final (self).search_price_in_psp == old(self).search_price_in_psp)
                    &&& (payment_token == PaymentToken::USDC ==> final (self).search_price_in_usdc
                        == new_price && ev.old_price == old(self).search_price_in_usdc
                        && final (self).search_price_in_sol == old(self).search_price_in_sol
                        && final (self).search_price_in_psp == old(self).search_price_in_psp)
                    &&& (payment_token == PaymentToken::PSP ==> final (self).search_price_in_psp
                        == new_price && ev.old_price == old(self).search_price_in_psp
                        && final (self).search_price_in_sol == old(self).search_price_in_sol
                        && final (self).search_price_in_usdc == old(self).search_price_in_usdc)
                    &&& ev == (PriceUpdated {
                        token: payment_token,
                        old_price: ev.old_price,
                        new_price,
                    })
                },
                Err(e) => {
                    &&& *final (self) == *old(self)
                    &&& (e == SearchPaymentError::Unauthorized <==> caller != old(self).authority)
                    &&& (e == SearchPaymentError::InvalidPrice <==> caller == old(self).authority
                        && new_price == 0)
                    &&& (e == SearchPaymentError::Unauthorized || e
                        == SearchPaymentError::InvalidPrice)
                },
            },
    {
        if caller != self.authority {
            return Err(SearchPaymentError::Unauthorized);
        }
        if new_price == 0 {
            return Err(SearchPaymentError::InvalidPrice);
        }
        let old_price: u64;
        match payment_token {
            PaymentToken::SOL => {
                old_price = self.search_price_in_sol;
                self.search_price_in_sol = new_price;
            },
            PaymentToken::USDC => {
                old_price = self.search_price_in_usdc;
                self.search_price_in_usdc = new_price;
            },
            PaymentToken::PSP => {
                old_price = self.search_price_in_psp;
                self.search_price_in_psp = new_price;
            },
        }
        Ok(PriceUpdated { token: payment_token, old_price, new_price })
    }

    /// Repoint the ledger identity of a token currency. Admin only; the
    /// native currency has no ledger identity to repoint and is refused.
    pub fn update_token_address(
        &mut self,
        caller: Identity,
        payment_token: PaymentToken,
        new_address: Identity,
    ) -> (r: Result<(), SearchPaymentError>)
        requires
            old(self).wf(),
        ensures
            final (self).wf(),
            final (self).authority == old(self).authority,
            final (self).search_price_in_sol == old(self).search_price_in_sol,
            final (self).search_price_in_usdc == old(self).search_price_in_usdc,
            final (self).search_price_in_psp == old(self).search_price_in_psp,
            final (self).searches_per_payment == old(self).searches_per_payment,
            final (self).paused == old(self).paused,
            final (self).bump == old(self).bump,
            final (self).balance == old(self).balance,
            final (self).stats@ == old(self).stats@,
            match r {
                Ok(u) => {
                    &&& caller == old(self).authority
                    &&& payment_token != PaymentToken::SOL
                    &&& (payment_token == PaymentToken::USDC ==> final (self).usdc_token_mint
                        == new_address && final (self).psp_token_mint == old(self).psp_token_mint)
                    &&& (payment_token == PaymentToken::PSP ==> final (self).psp_token_mint
                        == new_address && final (self).usdc_token_mint == old(
                        self,
                    ).usdc_token_mint)
                },
                Err(e) => {
                    &&& *final (self) == *old(self)
                    &&& (e == SearchPaymentError::Unauthorized <==> caller != old(self).authority)
                    &&& (e == SearchPaymentError::CannotUpdateSOL <==> caller == old(
                        self,
                    ).authority && payment_token == PaymentToken::SOL)
                    &&& (e == SearchPaymentError::Unauthorized || e
                        == SearchPaymentError::CannotUpdateSOL)
                },
            },
    {
        if caller != self.authority {
            return Err(SearchPaymentError::Unauthorized);
        }
        match payment_token {
            PaymentToken::SOL => Err(SearchPaymentError::CannotUpdateSOL),
            PaymentToken::USDC => {
                self.usdc_token_mint = new_address;
                Ok(())
            },
            PaymentToken::PSP => {
                self.psp_token_mint = new_address;
                Ok(())
            },
        }
    }

    /// Withdraw native currency from the treasury custody record. Admin
    /// only; the withdrawal must leave at least the reserved minimum
    /// balance the host requires of the record at call time.
    pub fn withdraw_sol(&mut self, caller: Identity, amount: u64, min_balance: u64) -> (r: Result<
        TokensWithdrawn,
        SearchPaymentError,
    >)
        requires
            old(self).wf(),
        ensures
            final (self).wf(),
            final (self).authority == old(self).authority,
            final (self).psp_token_mint == old(self).psp_token_mint,
            final (self).usdc_token_mint == old(self).usdc_token_mint,
            final (self).search_price_in_sol == old(self).search_price_in_sol,
            final (self).search_price_in_usdc == old(self).search_price_in_usdc,
            final (self).search_price_in_psp == old(self).search_price_in_psp,
            final (self).searches_per_payment == old(self).searches_per_payment,
            final (self).paused == old(self).paused,
            final (self).bump == old(self).bump,
            final (self).stats@ == old(self).stats@,
            final (self).balance <= old(self).balance,
            match r {
                Ok(ev) => {
                    &&& caller == old(self).authority
                    &&& amount > 0
                    &&& amount + min_balance <= u64::MAX
                    &&& old(self).balance >= amount + min_balance
                    &&& final (self).balance == old(self).balance - amount
                    &&& final (self).balance >= min_balance
                    &&& ev == (TokensWithdrawn {
                        owner: caller,
                        token: PaymentToken::SOL,
                        amount,
                    })
                },
                Err(e) => {
                    &&& *final (self) == *old(self)
                    &&& (e == SearchPaymentError::Unauthorized <==> caller != old(self).authority)
                    &&& (e == SearchPaymentError::InvalidAmount <==> caller == old(self).authority
                        && amount == 0)
                    &&& (e == SearchPaymentError::MathOverflow <==> caller == old(self).authority
                        && amount > 0 && amount + min_balance > u64::MAX)
                    &&& (e == SearchPaymentError::InsufficientBalance <==> caller == old(
                        self,
                    ).authority && amount > 0 && amount + min_balance <= u64::MAX && old(
                        self,
                    ).balance < amount + min_balance)
                    &&& (e == SearchPaymentError::Unauthorized || e
                        == SearchPaymentError::InvalidAmount || e
                        == SearchPaymentError::MathOverflow || e
                        == SearchPaymentError::InsufficientBalance)
                },
            },
    {
        if caller != self.authority {
            return Err(SearchPaymentError::Unauthorized);
        }
        if amount == 0 {
            return Err(SearchPaymentError::InvalidAmount);
        }
        let needed = match amount.checked_add(min_balance) {
            Some(v) => v,
            None => {
                return Err(SearchPaymentError::MathOverflow);
            },
        };
        if self.balance < needed {
            return Err(SearchPaymentError::InsufficientBalance);
        }
        self.balance = self.balance - amount;
        Ok(TokensWithdrawn { owner: caller, token: PaymentToken::SOL, amount })
    }

    /// Withdraw the whole stable-currency balance of the service's token
    /// account to the admin's. Admin only; the host executes the token
    /// leg under the service's derived identity.
    pub fn withdraw_usdc(&mut self, caller: Identity, program_token_balance: u64) -> (r: Result<
        TokensWithdrawn,
        SearchPaymentError,
    >)
        requires
            old(self).wf(),
        ensures
            final (self).wf(),
            *final (self) == *old(self),
            match r {
                Ok(ev) => {
                    &&& caller == old(self).authority
                    &&& program_token_balance > 0
                    &&& ev == (TokensWithdrawn {
                        owner: caller,
                        token: PaymentToken::USDC,
                        amount: program_token_balance,
                    })
                },
                Err(e) => {
                    &&& (e == SearchPaymentError::Unauthorized <==> caller != old(self).authority)
                    &&& (e == SearchPaymentError::InsufficientBalance <==> caller == old(
                        self,
                    ).authority && program_token_balance == 0)
                    &&& (e == SearchPaymentError::Unauthorized || e
                        == SearchPaymentError::InsufficientBalance)
                },
            },
    {
        if caller != self.authority {
            return Err(SearchPaymentError::Unauthorized);
        }
        if program_token_balance == 0 {
            return Err(SearchPaymentError::InsufficientBalance);
        }
        Ok(TokensWithdrawn { owner: caller, token: PaymentToken::USDC, amount: program_token_balance })
    }

    /// Withdraw the whole credit-currency balance of the service's token
    /// account to the admin's. Admin only; the host executes the token
    /// leg under the service's derived identity.
    pub fn withdraw_psp(&mut self, caller: Identity, program_token_balance: u64) -> (r: Result<
        TokensWithdrawn,
        SearchPaymentError,
    >)
        requires
            old(self).wf(),
        ensures
            final (self).wf(),
            *final (self) == *old(self),
            match r {
                Ok(ev) => {
                    &&& caller == old(self).authority
                    &&& program_token_balance > 0
                    &&& ev == (TokensWithdrawn {
                        owner: caller,
                        token: PaymentToken::PSP,
                        amount: program_token_balance,
                    })
                },
                Err(e) => {
                    &&& (e == SearchPaymentError::Unauthorized <==> caller != old(self).authority)
                    &&& (e == SearchPaymentError::InsufficientBalance <==> caller == old(
                        self,
                    ).authority && program_token_balance == 0)
                    &&& (e == SearchPaymentError::Unauthorized || e
                        == SearchPaymentError::InsufficientBalance)
                },
            },
    {
        if caller != self.authority {
            return Err(SearchPaymentError::Unauthorized);
        }
        if program_token_balance == 0 {
            return Err(SearchPaymentError::InsufficientBalance);
        }
        Ok(TokensWithdrawn { owner: caller, token: PaymentToken::PSP, amount: program_token_balance })
    }

    /// Engage the circuit breaker: all payments fail while paused. Admin
    /// only.
    pub fn pause(&mut self, caller: Identity) -> (r: Result<(), SearchPaymentError>)
        requires
            old(self).wf(),
        ensures
            final (self).wf(),
            final (self).authority == old(self).authority,
            final (self).balance == old(self).balance,
            final (self).stats@ == old(self).stats@,
            final (self).search_price_in_sol == old(self).search_price_in_sol,
            final (self).search_price_in_usdc == old(self).search_price_in_usdc,
            final (self).search_price_in_psp == old(self).search_price_in_psp,
            match r {
                Ok(u) => caller == old(self).authority && final (self).paused,
                Err(e) => {
                    &&& *final (self) == *old(self)
                    &&& e == SearchPaymentError::Unauthorized
                    &&& caller != old(self).authority
                },
            },
    {
        if caller != self.authority {
            return Err(SearchPaymentError::Unauthorized);
        }
        self.paused = true;
        Ok(())
    }

    /// Release the circuit breaker. Admin only.
    pub fn unpause(&mut self, caller: Identity) -> (r: Result<(), SearchPaymentError>)
        requires
            old(self).wf(),
        ensures
            final (self).wf(),
            final (self).authority == old(self).authority,
            final (self).balance == old(self).balance,
            final (self).stats@ == old(self).stats@,
            final (self).search_price_in_sol == old(self).search_price_in_sol,
            final (self).search_price_in_usdc == old(self).search_price_in_usdc,
            final (self).search_price_in_psp == old(self).search_price_in_psp,
            match r {
                Ok(u) => caller == old(self).authority && !final (self).paused,
                Err(e) => {
                    &&& *final (self) == *old(self)
                    &&& e == SearchPaymentError::Unauthorized
                    &&& caller != old(self).authority
                },
            },
    {
        if caller != self.authority {
            return Err(SearchPaymentError::Unauthorized);
        }
        self.paused = false;
        Ok(())
    }

    /// The derived custody identity and bump nonce of the payment
    /// service's configuration record: the address that holds the
    /// treasury.
    pub fn state_address(program: &Identity) -> (r: Option<(Identity, u8)>)
        ensures
            match r {
                Some(p) => pda_of(SEARCH_STATE_TAG, Seq::<u8>::empty(), program@) == Some(
                    (p.0@, p.1),
                ),
                None => pda_of(SEARCH_STATE_TAG, Seq::<u8>::empty(), program@) is None,
            },
    {
        let disc: Vec<u8> = Vec::new();
        crate::custody::find_derived_address(SEARCH_STATE_TAG, &disc, program)
    }
}

/// Idempotence of accrual-record creation: creating a user's record when
/// it already exists changes nothing, and the existing totals are kept,
/// never reset.
pub proof fn lemma_touch_idempotent(pre: Seq<UserStats>, user: Identity)
    requires
        forall|i: int, j: int| 0 <= i < j < pre.len() ==> pre[i].user != pre[j].user,
    ensures
        stats_after_touch(stats_after_touch(pre, user), user) =~= stats_after_touch(pre, user),
        stats_of(stats_after_touch(pre, user), user) == stats_of(pre, user),
{
    let t = stats_after_touch(pre, user);
    if has_stats(pre, user) {
        assert(t == pre);
    } else {
        let n = pre.len() as int;
        assert(t == pre.push(zero_stats(user)));
        assert(t[n].user == user);
        assert(has_stats(t, user));
        let w = stats_index(t, user);
        assert(0 <= w < t.len() && t[w].user == user);
        if w != n {
            assert(pre[w].user == user);
            assert(false);
        }
        assert(stats_of(t, user) == zero_stats(user));
    }
}

} // verus!
