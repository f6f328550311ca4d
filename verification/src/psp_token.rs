//! The convertible-credit service: buy credit units with currency, redeem
//! them back, or let an authorized delegate spend and burn a user's units.
//!
//! Purchases move currency into the service's treasury custody record and
//! mint credit units; redemptions burn units first and only then pay out,
//! and never leave the treasury below the reserved minimum balance the
//! host requires of the record at call time. The credit unit is scaled by
//! a factor of one billion against the configured price per unit.

use vstd::prelude::*;

use crate::custody::pda_of;
use crate::identity::Identity;

verus! {

/// Namespace tag of the credit service's configuration record, whose
/// derived identity also controls the treasury custody record.
pub const PSP_STATE_TAG: u8 = 2;

/// Credit units per whole credit: the scaling factor of the unit.
pub const DECIMALS_FACTOR: u64 = 1_000_000_000;

/// The largest credit supply ever allowed: ten million whole credits.
pub const MAX_SUPPLY: u64 = 10_000_000_000_000_000;

/// The credit service's configuration record, its treasury balance, and
/// every delegate authorization record, keyed by the delegate identity.
#[derive(Debug)]
pub struct ProgramState {
    pub authority: Identity,
    pub token_price_in_lamports: u64,
    pub paused: bool,
    pub bump: u8,
    /// The currency balance of the treasury custody record. It grows by
    /// exactly the amount of each purchase and shrinks by exactly the
    /// payout of each redemption or withdrawal.
    pub balance: u64,
    pub spenders: Vec<SpenderState>,
}

/// A delegate authorization record: whether this delegate may spend and
/// burn users' credit units through the service.
#[derive(Clone, Copy, Debug)]
pub struct SpenderState {
    pub spender: Identity,
    pub authorized: bool,
}

/// Notification of a completed purchase.
#[derive(Clone, Copy, Debug)]
pub struct TokensPurchased {
    pub buyer: Identity,
    pub amount: u64,
    pub sol_paid: u64,
}

/// Notification of a completed redemption.
#[derive(Clone, Copy, Debug)]
pub struct TokensRedeemed {
    pub user: Identity,
    pub amount: u64,
    pub sol_received: u64,
}

/// Notification of a price change.
#[derive(Clone, Copy, Debug)]
pub struct PriceUpdated {
    pub old_price: u64,
    pub new_price: u64,
}

#[derive(Clone, Copy, Debug, PartialEq, Eq, Structural)]
pub enum PSPTokenError {
    ContractPaused,
    InvalidAmount,
    InsufficientPayment,
    MathOverflow,
    MaxSupplyExceeded,
    InsufficientContractBalance,
    UnauthorizedSpender,
    InsufficientFunds,
    InvalidTokenAccount,
    InsufficientTokenBalance,
    Unauthorized,
}

/// The credit units bought by a currency amount at a price per whole
/// credit: the amount scaled up by the unit factor, truncated once by the
/// division. Meaningful only for a positive price.
pub open spec fn token_amount_of(sol_amount: u64, price: u64) -> int {
    (sol_amount * DECIMALS_FACTOR) / (price as int)
}

/// The currency value of a number of credit units at a price per whole
/// credit: the inverse of the purchase formula, truncated once.
pub open spec fn sol_value_of(token_amount: u64, price: u64) -> int {
    (token_amount * price) / (DECIMALS_FACTOR as int)
}

/// Whether some authorization record carries this delegate.
pub open spec fn has_spender(spenders: Seq<SpenderState>, spender: Identity) -> bool {
    exists|i: int| 0 <= i < spenders.len() && spenders[i].spender == spender
}

/// The index of the authorization record of this delegate; well defined
/// whenever the records are well formed, because at most one record per
/// delegate exists.
pub open spec fn spender_index(spenders: Seq<SpenderState>, spender: Identity) -> int {
    choose|i: int| 0 <= i < spenders.len() && spenders[i].spender == spender
}

/// Whether this delegate holds a live authorization.
pub open spec fn spender_authorized(spenders: Seq<SpenderState>, spender: Identity) -> bool {
    has_spender(spenders, spender) && spenders[spender_index(spenders, spender)].authorized
}

/// What a purchase decides, in the order the checks run: either the credit
/// units to mint, or the error that aborts the whole operation.
pub open spec fn purchase_result(
    s: ProgramState,
    sol_amount: u64,
    current_supply: u64,
    buyer: Identity,
    buyer_balance: u64,
    buyer_token_account_owner: Identity,
) -> Result<u64, PSPTokenError> {
    let price = s.token_price_in_lamports;
    let tok = token_amount_of(sol_amount, price);
    if s.paused {
        Err(PSPTokenError::ContractPaused)
    } else if sol_amount == 0 {
        Err(PSPTokenError::InvalidAmount)
    } else if sol_amount * DECIMALS_FACTOR > u64::MAX || price == 0 {
        Err(PSPTokenError::MathOverflow)
    } else if tok == 0 {
        Err(PSPTokenError::InsufficientPayment)
    } else if current_supply + tok > u64::MAX {
        Err(PSPTokenError::MathOverflow)
    } else if current_supply + tok > MAX_SUPPLY {
        Err(PSPTokenError::MaxSupplyExceeded)
    } else if buyer_balance < sol_amount {
        Err(PSPTokenError::InsufficientFunds)
    } else if buyer_token_account_owner != buyer {
        Err(PSPTokenError::InvalidTokenAccount)
    } else if s.balance + sol_amount > u64::MAX {
        Err(PSPTokenError::MathOverflow)
    } else {
        Ok(tok as u64)
    }
}

/// What a redemption decides, in the order the checks run: either the
/// currency payout, or the error that aborts the whole operation.
pub open spec fn redeem_result(
    s: ProgramState,
    token_amount: u64,
    user: Identity,
    user_token_account_owner: Identity,
    user_token_balance: u64,
    min_balance: u64,
) -> Result<u64, PSPTokenError> {
    let price = s.token_price_in_lamports;
    let sol = sol_value_of(token_amount, price);
    if s.paused {
        Err(PSPTokenError::ContractPaused)
    } else if token_amount == 0 {
        Err(PSPTokenError::InvalidAmount)
    } else if token_amount * price > u64::MAX {
        Err(PSPTokenError::MathOverflow)
    } else if user_token_account_owner != user {
        Err(PSPTokenError::InvalidTokenAccount)
    } else if user_token_balance < token_amount {
        Err(PSPTokenError::InsufficientTokenBalance)
    } else if sol + min_balance > u64::MAX {
        Err(PSPTokenError::MathOverflow)
    } else if s.balance < sol + min_balance {
        Err(PSPTokenError::InsufficientContractBalance)
    } else {
        Ok(sol as u64)
    }
}

/// What a delegated spend decides, in the order the checks run: either
/// nothing (the host then moves and burns the units), or the error that
/// aborts the whole operation.
pub open spec fn spend_result(
    s: ProgramState,
    amount: u64,
    user: Identity,
    spender: Identity,
    user_token_account_owner: Identity,
    user_token_balance: u64,
) -> Result<(), PSPTokenError> {
    if s.paused {
        Err(PSPTokenError::ContractPaused)
    } else if amount == 0 {
        Err(PSPTokenError::InvalidAmount)
    } else if !spender_authorized(s.spenders@, spender) {
        Err(PSPTokenError::UnauthorizedSpender)
    } else if user_token_account_owner != user {
        Err(PSPTokenError::InvalidTokenAccount)
    } else if user_token_balance < amount {
        Err(PSPTokenError::InsufficientTokenBalance)
    } else {
        Ok(())
    }
}

impl ProgramState {
    /// Well-formedness: no two authorization records carry the same
    /// delegate.
    pub open spec fn wf(self) -> bool {
        forall|i: int, j: int|
            0 <= i < j < self.spenders.len() ==> self.spenders[i].spender
                != self.spenders[j].spender
    }

    /// Bootstrap the credit service. The caller becomes the admin
    /// authority; the treasury starts empty.
    pub fn initialize(authority: Identity, token_price_in_lamports: u64, bump: u8) -> (state:
        ProgramState)
        ensures
            state.wf(),
            state.authority == authority,
            state.token_price_in_lamports == token_price_in_lamports,
            !state.paused,
            state.bump == bump,
            state.balance == 0,
            state.spenders@ == Seq::<SpenderState>::empty(),
    {
        ProgramState {
            authority,
            token_price_in_lamports,
            paused: false,
            bump,
            balance: 0,
            spenders: Vec::new(),
        }
    }

    /// The authorization record of this delegate, if any.
    fn find_spender(&self, spender: &Identity) -> (r: Option<usize>)
        requires
            self.wf(),
        ensures
            match r {
                Some(i) => {
                    &&& i < self.spenders@.len()
                    &&& self.spenders@[i as int].spender == *spender
                    &&& i as int == spender_index(self.spenders@, *spender)
                },
                None => !has_spender(self.spenders@, *spender),
            },
    {
        let n = self.spenders.len();
        let mut i: usize = 0;
        while i < n
            invariant
                self.wf(),
                n == self.spenders@.len(),
                i <= n,
                forall|j: int| 0 <= j < i ==> self.spenders@[j].spender != *spender,
            decreases n - i,
        {
            if self.spenders[i].spender == *spender {
                proof {
                    let w = spender_index(self.spenders@, *spender);
                    assert(0 <= w < self.spenders@.len() && self.spenders@[w].spender == *spender);
                    if w != i as int {
                        assert(false);
                    }
                }
                return Some(i);
            }
            i = i + 1;
        }
        None
    }

    /// Buy credit units with currency. The amount paid moves into the
    /// treasury custody record and the bought units are minted to the
    /// buyer by the host; the whole operation fails instead when the
    /// computed units are zero, the supply cap would be passed, or any
    /// check fails.
    pub fn purchase_tokens(
        &mut self,
        buyer: Identity,
        sol_amount: u64,
        current_supply: u64,
        buyer_balance: u64,
        buyer_token_account_owner: Identity,
    ) -> (r: Result<TokensPurchased, PSPTokenError>)
        requires
            old(self).wf(),
        ensures
            final (self).wf(),
            final (self).authority == old(self).authority,
            final (self).token_price_in_lamports == old(self).token_price_in_lamports,
            final (self).paused == old(self).paused,
            final (self).bump == old(self).bump,
            final (self).spenders@ == old(self).spenders@,
            final (self).balance >= old(self).balance,
            match r {
                Ok(ev) => {
                    &&& purchase_result(
                        *old(self),
                        sol_amount,
                        current_supply,
                        buyer,
                        buyer_balance,
                        buyer_token_account_owner,
                    ) == Ok::<u64, PSPTokenError>(ev.amount)
                    &&& ev == (TokensPurchased { buyer, amount: ev.amount, sol_paid: sol_amount })
                    &&& ev.amount == token_amount_of(
                        sol_amount,
                        old(self).token_price_in_lamports,
                    )
                    &&& ev.amount > 0
                    &&& current_supply + ev.amount <= MAX_SUPPLY
                    &&& final (self).balance == old(self).balance + sol_amount
                },
                Err(e) => {
                    &&& purchase_result(
                        *old(self),
                        sol_amount,
                        current_supply,
                        buyer,
                        buyer_balance,
                        buyer_token_account_owner,
                    ) == Err::<u64, PSPTokenError>(e)
                    &&& *final (self) == *old(self)
                },
            },
    {
        if self.paused {
            return Err(PSPTokenError::ContractPaused);
        }
        if sol_amount == 0 {
            return Err(PSPTokenError::InvalidAmount);
        }
        let scaled = match sol_amount.checked_mul(DECIMALS_FACTOR) {
            Some(v) => v,
            None => {
                return Err(PSPTokenError::MathOverflow);
            },
        };
        let token_amount = match scaled.checked_div(self.token_price_in_lamports) {
            Some(v) => v,
            None => {
                return Err(PSPTokenError::MathOverflow);
            },
        };
        if token_amount == 0 {
            return Err(PSPTokenError::InsufficientPayment);
        }
        let new_supply = match current_supply.checked_add(token_amount) {
            Some(v) => v,
            None => {
                return Err(PSPTokenError::MathOverflow);
            },
        };
        if new_supply > MAX_SUPPLY {
            return Err(PSPTokenError::MaxSupplyExceeded);
        }
        if buyer_balance < sol_amount {
            return Err(PSPTokenError::InsufficientFunds);
        }
        if buyer_token_account_owner != buyer {
            return Err(PSPTokenError::InvalidTokenAccount);
        }
        let new_balance = match self.balance.checked_add(sol_amount) {
            Some(v) => v,
            None => {
                return Err(PSPTokenError::MathOverflow);
            },
        };
        self.balance = new_balance;
        Ok(TokensPurchased { buyer, amount: token_amount, sol_paid: sol_amount })
    }

    /// Redeem credit units for currency. The units are burned by the host
    /// before any currency leaves custody; the payout then leaves the
    /// treasury, which always retains at least the reserved minimum
    /// balance the host requires at call time.
    pub fn redeem_tokens(
        &mut self,
        user: Identity,
        token_amount: u64,
        user_token_account_owner: Identity,
        user_token_balance: u64,
        min_balance: u64,
    ) -> (r: Result<TokensRedeemed, PSPTokenError>)
        requires
            old(self).wf(),
        ensures
            final (self).wf(),
            final (self).authority == old(self).authority,
            final (self).token_price_in_lamports == old(self).token_price_in_lamports,
            final (self).paused == old(self).paused,
            final (self).bump == old(self).bump,
            final (self).spenders@ == old(self).spenders@,
            final (self).balance <= old(self).balance,
            match r {
                Ok(ev) => {
                    &&& redeem_result(
                        *old(self),
                        token_amount,
                        user,
                        user_token_account_owner,
                        user_token_balance,
                        min_balance,
                    ) == Ok::<u64, PSPTokenError>(ev.sol_received)
                    &&& ev == (TokensRedeemed {
                        user,
                        amount: token_amount,
                        sol_received: ev.sol_received,
                    })
                    &&& ev.sol_received == sol_value_of(
                        token_amount,
                        old(self).token_price_in_lamports,
                    )
                    &&& final (self).balance == old(self).balance - ev.sol_received
                    &&& final (self).balance >= min_balance
                },
                Err(e) => {
                    &&& redeem_result(
                        *old(self),
                        token_amount,
                        user,
                        user_token_account_owner,
                        user_token_balance,
                        min_balance,
                    ) == Err::<u64, PSPTokenError>(e)
                    &&& *final (self) == *old(self)
                },
            },
    {
        if self.paused {
            return Err(PSPTokenError::ContractPaused);
        }
        if token_amount == 0 {
            return Err(PSPTokenError::InvalidAmount);
        }
        let scaled = match token_amount.checked_mul(self.token_price_in_lamports) {
            Some(v) => v,
            None => {
                return Err(PSPTokenError::MathOverflow);
            },
        };
        let sol_amount = scaled / DECIMALS_FACTOR;
        if user_token_account_owner != user {
            return Err(PSPTokenError::InvalidTokenAccount);
        }
        if user_token_balance < token_amount {
            return Err(PSPTokenError::InsufficientTokenBalance);
        }
        let needed = match sol_amount.checked_add(min_balance) {
            Some(v) => v,
            None => {
                return Err(PSPTokenError::MathOverflow);
            },
        };
        if self.balance < needed {
            return Err(PSPTokenError::InsufficientContractBalance);
        }
        self.balance = self.balance - sol_amount;
        Ok(TokensRedeemed { user, amount: token_amount, sol_received: sol_amount })
    }

    /// Spend a user's credit units through an authorized delegate: the
    /// host moves the units from the user to the service's own holding
    /// account and burns them there under the service's derived identity,
    /// in one atomic step. No configuration state changes.
    pub fn spend_tokens_for(
        &mut self,
        user: Identity,
        spender: Identity,
        amount: u64,
        user_token_account_owner: Identity,
        user_token_balance: u64,
    ) -> (r: Result<(), PSPTokenError>)
        requires
            old(self).wf(),
        ensures
            final (self).wf(),
            *final (self) == *old(self),
            r == spend_result(
                *old(self),
                amount,
                user,
                spender,
                user_token_account_owner,
                user_token_balance,
            ),
    {
        if self.paused {
            return Err(PSPTokenError::ContractPaused);
        }
        if amount == 0 {
            return Err(PSPTokenError::InvalidAmount);
        }
        let authorized = match self.find_spender(&spender) {
            Some(i) => self.spenders[i].authorized,
            None => false,
        };
        if !authorized {
            return Err(PSPTokenError::UnauthorizedSpender);
        }
        if user_token_account_owner != user {
            return Err(PSPTokenError::InvalidTokenAccount);
        }
        if user_token_balance < amount {
            return Err(PSPTokenError::InsufficientTokenBalance);
        }
        Ok(())
    }

    /// Create or update the authorization record of a delegate. Admin
    /// only. Creates the record on first use and overwrites it afterwards,
    /// so granting or revoking the same delegate twice settles in the same
    /// state as doing it once.
    pub fn set_authorized_spender(&mut self, caller: Identity, spender: Identity, authorized: bool)
        -> (r: Result<(), PSPTokenError>)
        requires
            old(self).wf(),
        ensures
            final (self).wf(),
            final (self).authority == old(self).authority,
            final (self).token_price_in_lamports == old(self).token_price_in_lamports,
            final (self).paused == old(self).paused,
            final (self).bump == old(self).bump,
            final (self).balance == old(self).balance,
            match r {
                Ok(u) => {
                    &&& caller == old(self).authority
                    &&& final (self).spenders@ == spenders_after_set(
                        old(self).spenders@,
                        spender,
                        authorized,
                    )
                    &&& spender_authorized(final (self).spenders@, spender) == authorized
                },
                Err(e) => {
                    &&& *final (self) == *old(self)
                    &&& e == PSPTokenError::Unauthorized
                    &&& caller != old(self).authority
                },
            },
    {
        if caller != self.authority {
            return Err(PSPTokenError::Unauthorized);
        }
        let entry = SpenderState { spender, authorized };
        let found = self.find_spender(&spender);
        match found {
            Some(i) => {
                vstd::pervasive::VecAdditionalExecFns::set(&mut self.spenders, i, entry);
                proof {
                    let s1 = self.spenders@;
                    assert(s1[i as int].spender == spender);
                    assert(has_spender(s1, spender));
                    let w = spender_index(s1, spender);
                    assert(0 <= w < s1.len() && s1[w].spender == spender);
                    if w != i as int {
                        assert(false);
                    }
                }
            },
            None => {
                let ghost n = self.spenders@.len() as int;
                self.spenders.push(entry);
                proof {
                    let s1 = self.spenders@;
                    assert(s1[n].spender == spender);
                    assert(has_spender(s1, spender));
                    let w = spender_index(s1, spender);
                    assert(0 <= w < s1.len() && s1[w].spender == spender);
                    if w != n {
                        assert(old(self).spenders@[w].spender == spender);
                        assert(false);
                    }
                }
            },
        }
        Ok(())
    }

    /// Set the price of a whole credit. Admin only; zero is rejected.
    pub fn update_token_price(&mut self, caller: Identity, new_price: u64) -> (r: Result<
        PriceUpdated,
        PSPTokenError,
    >)
        requires
            old(self).wf(),
        ensures
            final (self).wf(),
            final (self).authority == old(self).authority,
            final (self).paused == old(self).paused,
            final (self).bump == old(self).bump,
            final (self).balance == old(self).balance,
            final (self).spenders@ == old(self).spenders@,
            match r {
                Ok(ev) => {
                    &&& caller == old(self).authority
                    &&& new_price > 0
                    &&& final (self).token_price_in_lamports == new_price
                    &&& ev == (PriceUpdated {
                        old_price: old(self).token_price_in_lamports,
                        new_price,
                    })
                },
                Err(e) => {
                    &&& *final (self) == *old(self)
                    &&& (e == PSPTokenError::Unauthorized <==> caller != old(self).authority)
                    &&& (e == PSPTokenError::InvalidAmount <==> caller == old(self).authority
                        && new_price == 0)
                    &&& (e == PSPTokenError::Unauthorized || e == PSPTokenError::InvalidAmount)
                },
            },
    {
        if caller != self.authority {
            return Err(PSPTokenError::Unauthorized);
        }
        if new_price == 0 {
            return Err(PSPTokenError::InvalidAmount);
        }
        let old_price = self.token_price_in_lamports;
        self.token_price_in_lamports = new_price;
        Ok(PriceUpdated { old_price, new_price })
    }

    /// Mint additional credit units to a chosen account. Admin only; the
    /// supply cap still holds, and the addition to the supply is checked
    /// rather than wrapped. The host executes the mint leg.
    pub fn mint(&mut self, caller: Identity, amount: u64, current_supply: u64) -> (r: Result<
        (),
        PSPTokenError,
    >)
        requires
            old(self).wf(),
        ensures
            final (self).wf(),
            *final (self) == *old(self),
            match r {
                Ok(u) => {
                    &&& caller == old(self).authority
                    &&& current_supply + amount <= MAX_SUPPLY
                },
                Err(e) => {
                    &&& (e == PSPTokenError::Unauthorized <==> caller != old(self).authority)
                    &&& (e == PSPTokenError::MathOverflow <==> caller == old(self).authority
                        && current_supply + amount > u64::MAX)
                    &&& (e == PSPTokenError::MaxSupplyExceeded <==> caller == old(self).authority
                        && current_supply + amount <= u64::MAX && current_supply + amount
                        > MAX_SUPPLY)
                    &&& (e == PSPTokenError::Unauthorized || e == PSPTokenError::MathOverflow || e
                        == PSPTokenError::MaxSupplyExceeded)
                },
            },
    {
        if caller != self.authority {
            return Err(PSPTokenError::Unauthorized);
        }
        let new_supply = match current_supply.checked_add(amount) {
            Some(v) => v,
            None => {
                return Err(PSPTokenError::MathOverflow);
            },
        };
        if new_supply > MAX_SUPPLY {
            return Err(PSPTokenError::MaxSupplyExceeded);
        }
        Ok(())
    }

    /// Withdraw currency from the treasury custody record. Admin only; the
    /// withdrawal must leave at least the reserved minimum balance the
    /// host requires of the record at call time.
    pub fn withdraw_sol(&mut self, caller: Identity, amount: u64, min_balance: u64) -> (r: Result<
        (),
        PSPTokenError,
    >)
        requires
            old(self).wf(),
        ensures
            final (self).wf(),
            final (self).authority == old(self).authority,
            final (self).token_price_in_lamports == old(self).token_price_in_lamports,
            final (self).paused == old(self).paused,
            final (self).bump == old(self).bump,
            final (self).spenders@ == old(self).spenders@,
            final (self).balance <= old(self).balance,
            match r {
                Ok(u) => {
                    &&& caller == old(self).authority
                    &&& amount > 0
                    &&& amount + min_balance <= u64::MAX
                    &&& old(self).balance >= amount + min_balance
                    &&& final (self).balance == old(self).balance - amount
                    &&& final (self).balance >= min_balance
                },
                Err(e) => {
                    &&& *final (self) == *old(self)
                    &&& (e == PSPTokenError::Unauthorized <==> caller != old(self).authority)
                    &&& (e == PSPTokenError::InvalidAmount <==> caller == old(self).authority
                        && amount == 0)
                    &&& (e == PSPTokenError::MathOverflow <==> caller == old(self).authority
                        && amount > 0 && amount + min_balance > u64::MAX)
                    &&& (e == PSPTokenError::InsufficientContractBalance <==> caller == old(
                        self,
                    ).authority && amount > 0 && amount + min_balance <= u64::MAX && old(
                        self,
                    ).balance < amount + min_balance)
                    &&& (e == PSPTokenError::Unauthorized || e == PSPTokenError::InvalidAmount || e
                        == PSPTokenError::MathOverflow || e
                        == PSPTokenError::InsufficientContractBalance)
                },
            },
    {
        if caller != self.authority {
            return Err(PSPTokenError::Unauthorized);
        }
        if amount == 0 {
            return Err(PSPTokenError::InvalidAmount);
        }
        let needed = match amount.checked_add(min_balance) {
            Some(v) => v,
            None => {
                return Err(PSPTokenError::MathOverflow);
            },
        };
        if self.balance < needed {
            return Err(PSPTokenError::InsufficientContractBalance);
        }
        self.balance = self.balance - amount;
        Ok(())
    }

    /// Engage the circuit breaker: all value-moving operations fail while
    /// paused. Admin only.
    pub fn pause(&mut self, caller: Identity) -> (r: Result<(), PSPTokenError>)
        requires
            old(self).wf(),
        ensures
            final (self).wf(),
            final (self).authority == old(self).authority,
            final (self).token_price_in_lamports == old(self).token_price_in_lamports,
            final (self).bump == old(self).bump,
            final (self).balance == old(self).balance,
            final (self).spenders@ == old(self).spenders@,
            match r {
                Ok(u) => caller == old(self).authority && final (self).paused,
                Err(e) => {
                    &&& *final (self) == *old(self)
                    &&& e == PSPTokenError::Unauthorized
                    &&& caller != old(self).authority
                },
            },
    {
        if caller != self.authority {
            return Err(PSPTokenError::Unauthorized);
        }
        self.paused = true;
        Ok(())
    }

    /// Release the circuit breaker. Admin only.
    pub fn unpause(&mut self, caller: Identity) -> (r: Result<(), PSPTokenError>)
        requires
            old(self).wf(),
        ensures
            final (self).wf(),
            final (self).authority == old(self).authority,
            final (self).token_price_in_lamports == old(self).token_price_in_lamports,
            final (self).bump == old(self).bump,
            final (self).balance == old(self).balance,
            final (self).spenders@ == old(self).spenders@,
            match r {
                Ok(u) => caller == old(self).authority && !final (self).paused,
                Err(e) => {
                    &&& *final (self) == *old(self)
                    &&& e == PSPTokenError::Unauthorized
                    &&& caller != old(self).authority
                },
            },
    {
        if caller != self.authority {
            return Err(PSPTokenError::Unauthorized);
        }
        self.paused = false;
        Ok(())
    }

    /// The derived custody identity and bump nonce of the credit service's
    /// configuration record: the address that holds the treasury.
    pub fn state_address(program: &Identity) -> (r: Option<(Identity, u8)>)
        ensures
            match r {
                Some(p) => pda_of(PSP_STATE_TAG, Seq::<u8>::empty(), program@) == Some(
                    (p.0@, p.1),
                ),
                None => pda_of(PSP_STATE_TAG, Seq::<u8>::empty(), program@) is None,
            },
    {
        let disc: Vec<u8> = Vec::new();
        crate::custody::find_derived_address(PSP_STATE_TAG, &disc, program)
    }
}

/// The authorization records after granting or revoking one delegate:
/// the delegate's record overwritten in place if it exists, appended
/// otherwise.
pub open spec fn spenders_after_set(
    pre: Seq<SpenderState>,
    spender: Identity,
    authorized: bool,
) -> Seq<SpenderState> {
    let entry = SpenderState { spender, authorized };
    if has_spender(pre, spender) {
        pre.update(spender_index(pre, spender), entry)
    } else {
        pre.push(entry)
    }
}

/// Idempotence of delegate authorization: granting (or revoking) the same
/// delegate twice with the same flag settles in exactly the state the
/// first grant reached — the record is not duplicated and accrues nothing.
pub proof fn lemma_set_spender_idempotent(
    pre: Seq<SpenderState>,
    spender: Identity,
    authorized: bool,
)
    requires
        forall|i: int, j: int| 0 <= i < j < pre.len() ==> pre[i].spender != pre[j].spender,
    ensures
        spenders_after_set(spenders_after_set(pre, spender, authorized), spender, authorized)
            =~= spenders_after_set(pre, spender, authorized),
{
    let entry = SpenderState { spender, authorized };
    let s1 = spenders_after_set(pre, spender, authorized);
    if has_spender(pre, spender) {
        let w = spender_index(pre, spender);
        assert(0 <= w < pre.len() && pre[w].spender == spender);
        assert(s1[w] == entry);
        assert(has_spender(s1, spender));
        let w1 = spender_index(s1, spender);
        assert(0 <= w1 < s1.len() && s1[w1].spender == spender);
        if w1 != w {
            if w1 < w {
                assert(pre[w1].spender == spender);
                assert(false);
            } else {
                assert(pre[w1].spender == spender);
                assert(false);
            }
        }
        assert(spenders_after_set(s1, spender, authorized) =~= s1);
    } else {
        assert(s1 == pre.push(entry));
        assert(s1[pre.len() as int] == entry);
        assert(has_spender(s1, spender));
        let w1 = spender_index(s1, spender);
        assert(0 <= w1 < s1.len() && s1[w1].spender == spender);
        if w1 < pre.len() {
            assert(pre[w1].spender == spender);
            assert(has_spender(pre, spender));
            assert(false);
        }
        assert(w1 == pre.len());
        assert(spenders_after_set(s1, spender, authorized) =~= s1);
    }
}

} // verus!
