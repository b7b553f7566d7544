//! The pool's record and the arithmetic of a deposit.

use crate::error::ContractError;
use crate::ratio::{lemma_mul_div_floor_positive, lemma_mul_div_floor_same, mul_div, mul_div_floor};
use vstd::prelude::*;

verus! {

/// The pool as a mathematical value.
pub struct PoolStateView {
    /// The native asset that the pool accepts.
    pub native_denom: Seq<char>,
    /// The contract of the paired token.
    pub paired_token_address: Seq<char>,
    /// Native asset held by the pool.
    pub native_reserve: nat,
    /// Liquidity shares issued so far.
    pub share_supply: nat,
}

impl PoolStateView {
    /// A pool that holds nothing and has issued nothing.
    pub open spec fn empty(native_denom: Seq<char>, paired_token_address: Seq<char>) -> Self {
        PoolStateView { native_denom, paired_token_address, native_reserve: 0, share_supply: 0 }
    }

    /// Shares are out exactly when there is a reserve to back them.
    pub open spec fn consistent(self) -> bool {
        (self.share_supply == 0) == (self.native_reserve == 0)
    }

    /// Both amounts fit the stored record.
    pub open spec fn representable(self) -> bool {
        self.native_reserve <= u128::MAX && self.share_supply <= u128::MAX
    }

    /// The shares that a deposit of `amount` earns: the amount itself into a
    /// pool without shares, else the depositor's part of the supply, rounded
    /// down.
    pub open spec fn minted_for(self, amount: nat) -> nat {
        if self.share_supply == 0 {
            amount
        } else {
            mul_div_floor(self.share_supply, amount, self.native_reserve)
        }
    }

    /// The pool once `amount` is in and its shares are out.
    pub open spec fn after_deposit(self, amount: nat) -> Self {
        PoolStateView {
            native_reserve: self.native_reserve + amount,
            share_supply: self.share_supply + self.minted_for(amount),
            ..self
        }
    }

    /// The deposit as a transition: the next pool and the shares minted, or
    /// the reason why there is none.
    pub open spec fn deposit(self, amount: nat) -> Result<(Self, nat), ContractError> {
        if amount == 0 {
            Err(ContractError::InvalidDeposit)
        } else if !self.after_deposit(amount).representable() {
            Err(ContractError::ArithmeticOverflow)
        } else {
            Ok((self.after_deposit(amount), self.minted_for(amount)))
        }
    }

    /// The pool that a run of deposits leaves, each made on what the one
    /// before it left, or the first failure among them.
    pub open spec fn deposit_all(self, amounts: Seq<nat>) -> Result<Self, ContractError>
        decreases amounts.len(),
    {
        if amounts.len() == 0 {
            Ok(self)
        } else {
            match self.deposit_all(amounts.drop_last()) {
                Err(e) => Err(e),
                Ok(pool) => match pool.deposit(amounts.last()) {
                    Err(e) => Err(e),
                    Ok((next, _)) => Ok(next),
                },
            }
        }
    }
}

impl PoolStateView {
    /// A deposit that goes through keeps a consistent pool consistent and
    /// within range, and touches neither the denom nor the token.
    pub proof fn lemma_deposit_keeps_pool_valid(self, amount: nat)
        requires
            self.consistent(),
            self.deposit(amount) is Ok,
        ensures
            self.deposit(amount) matches Ok((next, _)) && next.consistent() && next.representable()
                && next.native_denom == self.native_denom && next.paired_token_address
                == self.paired_token_address,
    {
    }

    /// A deposit that goes through raises the reserve by exactly the amount
    /// sent, and never lowers the share supply.
    pub proof fn lemma_deposit_raises_reserve(self, amount: nat)
        requires
            self.deposit(amount) is Ok,
        ensures
            self.deposit(amount) matches Ok((next, minted)) && next.native_reserve
                == self.native_reserve + amount && next.native_reserve > self.native_reserve
                && next.share_supply == self.share_supply + minted && next.share_supply
                >= self.share_supply,
    {
    }

    /// A deposit earns shares exactly when the pool has none yet or when the
    /// depositor's part of the supply reaches one whole share.
    pub proof fn lemma_minted_positive(self, amount: nat)
        requires
            self.consistent(),
            amount > 0,
        ensures
            self.minted_for(amount) > 0 <==> (self.share_supply == 0 || self.share_supply * amount
                >= self.native_reserve),
    {
        if self.share_supply > 0 {
            lemma_mul_div_floor_positive(self.share_supply, amount, self.native_reserve);
        }
    }

    /// A deposit that goes through raises the share supply strictly, unless
    /// the depositor's part of the supply rounds down to no share at all.
    pub proof fn lemma_deposit_raises_supply(self, amount: nat)
        requires
            self.consistent(),
            self.deposit(amount) is Ok,
            self.share_supply == 0 || self.share_supply * amount >= self.native_reserve,
        ensures
            self.deposit(amount) matches Ok((next, minted)) && minted > 0 && next.share_supply
                > self.share_supply,
    {
        self.lemma_minted_positive(amount);
    }

    /// The first deposit into an empty pool earns as many shares as native
    /// asset was sent, and they are the whole supply afterwards.
    pub proof fn lemma_bootstrap_mints_amount(self, amount: nat)
        requires
            self.share_supply == 0,
            self.native_reserve == 0,
            0 < amount <= u128::MAX,
        ensures
            self.deposit(amount) matches Ok((next, minted)) && minted == amount
                && next == (PoolStateView { native_reserve: amount, share_supply: amount, ..self }),
    {
    }

    /// Where one share is out for each unit of reserve, a deposit earns
    /// exactly its amount, and the pool stays that way.
    pub proof fn lemma_even_pool_mints_amount(self, amount: nat)
        requires
            self.share_supply == self.native_reserve,
            self.deposit(amount) is Ok,
        ensures
            self.deposit(amount) matches Ok((next, minted)) && minted == amount && next.share_supply
                == next.native_reserve && next.share_supply > self.share_supply,
    {
        if self.share_supply > 0 {
            lemma_mul_div_floor_same(self.share_supply, amount);
        }
    }

    /// An empty pool has one share out for each unit of reserve, and so has
    /// every pool that grew from it by deposits: on such a pool each deposit
    /// raises the supply strictly.
    pub proof fn lemma_grown_pool_is_even(self, amounts: Seq<nat>)
        requires
            self.share_supply == self.native_reserve,
        ensures
            self.deposit_all(amounts) matches Ok(pool) ==> pool.share_supply == pool.native_reserve
                && pool.native_reserve >= self.native_reserve,
        decreases amounts.len(),
    {
        if amounts.len() > 0 {
            self.lemma_grown_pool_is_even(amounts.drop_last());
            if let Ok(pool) = self.deposit_all(amounts.drop_last()) {
                if pool.deposit(amounts.last()) is Ok {
                    pool.lemma_even_pool_mints_amount(amounts.last());
                }
            }
        }
    }
}

/// The pool's record: what it accepts, what it holds and what it has issued.
///
/// The fields are private, so a value can only come from [`PoolState::new`],
/// [`PoolState::restore`], [`PoolState::deposit`] or [`PoolState::snapshot`],
/// and each of them hands out a consistent record only: one with shares out
/// exactly when there is a reserve.
#[derive(Debug, PartialEq)]
pub struct PoolState {
    native_denom: String,
    paired_token_address: String,
    native_reserve: u128,
    share_supply: u128,
}

impl View for PoolState {
    type V = PoolStateView;

    closed spec fn view(&self) -> PoolStateView {
        PoolStateView {
            native_denom: self.native_denom@,
            paired_token_address: self.paired_token_address@,
            native_reserve: self.native_reserve as nat,
            share_supply: self.share_supply as nat,
        }
    }
}

impl DeepView for PoolState {
    type V = PoolStateView;

    open spec fn deep_view(&self) -> PoolStateView {
        self@
    }
}

/// The result of [`PoolState::deposit`] as a mathematical value.
pub open spec fn deposit_view(
    res: Result<(PoolState, u128), ContractError>,
) -> Result<(PoolStateView, nat), ContractError> {
    match res {
        Ok((next, minted)) => Ok((next@, minted as nat)),
        Err(e) => Err(e),
    }
}

impl PoolState {
    #[verifier::type_invariant]
    spec fn well_formed(&self) -> bool {
        self@.consistent()
    }

    /// A fresh pool for `native_denom`, paired with the token at
    /// `paired_token_address`.
    pub fn new(native_denom: String, paired_token_address: String) -> (pool: PoolState)
        ensures
            pool@ == PoolStateView::empty(native_denom@, paired_token_address@),
    {
        PoolState { native_denom, paired_token_address, native_reserve: 0, share_supply: 0 }
    }

    /// Rebuilds a pool from a stored record. A record with shares but no
    /// reserve, or with a reserve but no shares, is no pool.
    pub fn restore(
        native_denom: String,
        paired_token_address: String,
        native_reserve: u128,
        share_supply: u128,
    ) -> (res: Result<PoolState, ContractError>)
        ensures
            match res {
                Ok(pool) => pool@ == (PoolStateView {
                    native_denom: native_denom@,
                    paired_token_address: paired_token_address@,
                    native_reserve: native_reserve as nat,
                    share_supply: share_supply as nat,
                }) && pool@.consistent(),
                Err(e) => e == ContractError::StateLoadFailure
                    && (share_supply == 0) != (native_reserve == 0),
            },
    {
        if (share_supply == 0) != (native_reserve == 0) {
            return Err(ContractError::StateLoadFailure);
        }
        Ok(PoolState { native_denom, paired_token_address, native_reserve, share_supply })
    }

    /// Holds the record against the share ledger: the shares on record are
    /// to be the ledger's total supply. A record that says otherwise is not
    /// to be worked on.
    pub fn cross_checked(self, ledger_total_supply: u128) -> (res: Result<PoolState, ContractError>)
        ensures
            match res {
                Ok(pool) => pool == self && self@.share_supply == ledger_total_supply,
                Err(e) => e == ContractError::StateLoadFailure && self@.share_supply
                    != ledger_total_supply,
            },
    {
        if self.share_supply != ledger_total_supply {
            return Err(ContractError::StateLoadFailure);
        }
        Ok(self)
    }

    /// The native asset that the pool accepts.
    pub fn native_denom(&self) -> (denom: &str)
        ensures
            denom@ == self@.native_denom,
    {
        self.native_denom.as_str()
    }

    /// The contract of the paired token.
    pub fn paired_token_address(&self) -> (address: &str)
        ensures
            address@ == self@.paired_token_address,
    {
        self.paired_token_address.as_str()
    }

    /// Native asset held by the pool.
    pub fn native_reserve(&self) -> (reserve: u128)
        ensures
            reserve == self@.native_reserve,
            self@.consistent(),
    {
        proof {
            use_type_invariant(self);
        }
        self.native_reserve
    }

    /// Liquidity shares issued so far.
    pub fn share_supply(&self) -> (supply: u128)
        ensures
            supply == self@.share_supply,
            self@.consistent(),
    {
        proof {
            use_type_invariant(self);
        }
        self.share_supply
    }

    /// A copy of the record as it stands.
    pub fn snapshot(&self) -> (copy: PoolState)
        ensures
            copy@ == self@,
    {
        proof {
            use_type_invariant(self);
        }
        PoolState {
            native_denom: self.native_denom.clone(),
            paired_token_address: self.paired_token_address.clone(),
            native_reserve: self.native_reserve,
            share_supply: self.share_supply,
        }
    }

    /// The pool after a deposit of `amount`, with the shares that the deposit
    /// earns. `self` is not touched: the result is a new record, for the
    /// caller to keep or to drop.
    pub fn deposit(&self, amount: u128) -> (res: Result<(PoolState, u128), ContractError>)
        ensures
            deposit_view(res) == self@.deposit(amount as nat),
    {
        proof {
            use_type_invariant(self);
        }
        if amount == 0 {
            return Err(ContractError::InvalidDeposit);
        }
        let reserve: u128 = match self.native_reserve.checked_add(amount) {
            Some(sum) => sum,
            None => { return Err(ContractError::ArithmeticOverflow); },
        };
        let minted: u128 = if self.share_supply == 0 {
            amount
        } else {
            match mul_div(self.share_supply, amount, self.native_reserve) {
                Some(part) => part,
                None => { return Err(ContractError::ArithmeticOverflow); },
            }
        };
        let supply: u128 = match self.share_supply.checked_add(minted) {
            Some(sum) => sum,
            None => { return Err(ContractError::ArithmeticOverflow); },
        };
        let next = PoolState {
            native_denom: self.native_denom.clone(),
            paired_token_address: self.paired_token_address.clone(),
            native_reserve: reserve,
            share_supply: supply,
        };
        Ok((next, minted))
    }
}

} // verus!
