//! The ledger and its operations.

use crate::account::{AccountId, AllowanceKey, Key};
use crate::effect::Effect;
use crate::model::{
    approve_step, created, delegated_step, destroy_step, issue_step, transfer_step, LedgerView,
};
use crate::table::{lemma_amount_le_sum, Table};
use vstd::prelude::*;

verus! {

/// A byte sequence: the name or the symbol of a token.
pub type Text = ink_prelude::vec::Vec<u8>;

/// Why a call is rejected outright, before any balance is looked at. A host
/// ends the call on such a fault; it is not an answer that the caller can act
/// on.
#[derive(Clone, Copy, Debug, PartialEq, Eq)]
pub enum Fault {
    /// A party to the call is the reserved all-zero identifier.
    ReservedIdentifier,
    /// The caller is not the ledger itself, which alone may issue.
    NotPrivileged,
}

/// The ledger of one token.
pub struct Xrc20 {
    total_supply: u64,
    decimals: u16,
    name: Text,
    symbol: Text,
    balances: Table<AccountId>,
    allowances: Table<AllowanceKey>,
    outbox: Vec<Effect>,
}

impl Xrc20 {
    /// The abstract state.
    pub closed spec fn view(&self) -> LedgerView {
        LedgerView {
            total_supply: self.total_supply,
            decimals: self.decimals,
            name: self.name@,
            symbol: self.symbol@,
            balances: self.balances@,
            allowances: self.allowances@,
            outbox: self.outbox@,
        }
    }

    /// Creates the ledger: the whole initial supply is credited to `caller`,
    /// no allowance exists, and the outbox holds the transfer notification
    /// with no source. `caller` must not be the reserved identifier.
    pub fn new(
        caller: AccountId,
        init_value: u64,
        name: Text,
        symbol: Text,
        decimals: u16,
    ) -> (ledger: Self)
        requires
            !caller.reserved(),
        ensures
            ledger@.wf(),
            created(ledger@, caller, init_value, name@, symbol@, decimals),
    {
        let mut balances: Table<AccountId> = Table::new();
        balances.insert(caller, init_value);
        let mut outbox: Vec<Effect> = Vec::new();
        outbox.push(Effect::Transfer { from: None, to: Some(caller), value: init_value });
        let ledger = Xrc20 {
            total_supply: init_value,
            decimals,
            name,
            symbol,
            balances,
            allowances: Table::new(),
            outbox,
        };
        assert(ledger@.outbox =~= seq![
            Effect::Transfer { from: None, to: Some(caller), value: init_value },
        ]);
        ledger
    }

    /// The number of units in existence.
    pub fn total_supply(&self) -> (r: u64)
        ensures
            r == self@.total_supply,
    {
        self.total_supply
    }

    /// The balance of `owner`, zero if it has none.
    pub fn balance_of(&self, owner: AccountId) -> (r: u64)
        requires
            self@.wf(),
        ensures
            r == self@.balance_of(owner),
    {
        self.balance_of_or_zero(&owner)
    }

    /// The name of the token.
    pub fn name(&self) -> (r: Text)
        ensures
            r@ == self@.name,
    {
        let r = self.name.clone();
        assert(r@ =~= self.name@);
        r
    }

    /// The symbol of the token.
    pub fn symbol(&self) -> (r: Text)
        ensures
            r@ == self@.symbol,
    {
        let r = self.symbol.clone();
        assert(r@ =~= self.symbol@);
        r
    }

    /// The number of decimals to display amounts with.
    pub fn decimals(&self) -> (r: u16)
        ensures
            r == self@.decimals,
    {
        self.decimals
    }

    /// What `owner` currently permits `spender` to move.
    pub fn allowance(&self, owner: AccountId, spender: AccountId) -> (r: u64)
        requires
            self@.wf(),
        ensures
            r == self@.allowance(owner, spender),
    {
        self.allowance_or_zero(&owner, &spender)
    }

    /// Tests the ledger's invariant: no account and no allowance is listed
    /// twice, and the total supply is the sum of all balances. Every ledger
    /// that the operations of this type produce passes.
    pub fn is_consistent(&self) -> (b: bool)
        ensures
            b == self@.wf(),
    {
        if !self.balances.keys_distinct() || !self.allowances.keys_distinct() {
            return false;
        }
        match self.balances.checked_total() {
            Some(sum) => sum == self.total_supply,
            None => false,
        }
    }

    /// The effects that the host has not taken yet, oldest first.
    pub fn effects(&self) -> (r: &Vec<Effect>)
        ensures
            r@ == self@.outbox,
    {
        &self.outbox
    }

    /// Hands the pending effects to the host and empties the outbox. Nothing
    /// else changes.
    pub fn take_effects(&mut self) -> (r: Vec<Effect>)
        ensures
            r@ == old(self)@.outbox,
            final(self)@.outbox == Seq::<Effect>::empty(),
            final(self)@.same_storage(old(self)@),
    {
        let mut taken: Vec<Effect> = Vec::new();
        std::mem::swap(&mut self.outbox, &mut taken);
        taken
    }

    /// Moves `value` from `caller` to `to`. Neither may be the reserved
    /// identifier. Fails, changing nothing, when `caller` holds less than
    /// `value`, or when the balance of `to` would no longer be an amount,
    /// which only a transfer to oneself can bring about.
    pub fn transfer(&mut self, caller: AccountId, to: AccountId, value: u64) -> (ok: bool)
        requires
            old(self)@.wf(),
            !caller.reserved(),
            !to.reserved(),
        ensures
            final(self)@.wf(),
            transfer_step(old(self)@, final(self)@, caller, to, value, ok),
    {
        self.transfer_impl(caller, to, value)
    }

    /// Sets what `caller` permits `spender` to move to `value`, replacing any
    /// earlier allowance. Always succeeds.
    pub fn approve(&mut self, caller: AccountId, spender: AccountId, value: u64) -> (ok: bool)
        requires
            old(self)@.wf(),
        ensures
            ok,
            final(self)@.wf(),
            approve_step(old(self)@, final(self)@, caller, spender, value),
    {
        self.allowances.insert(AllowanceKey { owner: caller, spender }, value);
        self.outbox.push(Effect::Approval { owner: caller, spender, value });
        true
    }

    /// Moves `value` from `from` to `to` on behalf of `from`, within what
    /// `from` permits `caller`. Fails, changing nothing, when the allowance
    /// is below `value` or the transfer itself fails; on success the
    /// allowance goes down by `value`. Where the allowance suffices, neither
    /// `from` nor `to` may be the reserved identifier.
    pub fn transfer_from(&mut self, caller: AccountId, from: AccountId, to: AccountId, value: u64) -> (ok: bool)
        requires
            old(self)@.wf(),
            value <= old(self)@.allowance(from, caller) ==> !from.reserved() && !to.reserved(),
        ensures
            final(self)@.wf(),
            delegated_step(old(self)@, final(self)@, caller, from, to, value, ok),
    {
        let allowance = self.allowance_or_zero(&from, &caller);
        if allowance < value {
            return false;
        }
        if self.transfer_impl(from, to, value) {
            self.allowances.insert(AllowanceKey { owner: from, spender: caller }, allowance - value);
            true
        } else {
            false
        }
    }

    /// Creates `value` new units for `to`. Only the ledger itself may issue:
    /// `caller` must be `ledger_id`, and `to` must not be the reserved
    /// identifier. Fails, changing nothing, when the total supply would no
    /// longer be an amount.
    pub fn issue(&mut self, caller: AccountId, ledger_id: AccountId, to: AccountId, value: u64) -> (ok: bool)
        requires
            old(self)@.wf(),
            !to.reserved(),
            caller == ledger_id,
        ensures
            final(self)@.wf(),
            issue_step(old(self)@, final(self)@, to, value, ok),
    {
        let balance = self.balance_of_or_zero(&to);
        let previous_total = self.total_supply;
        proof {
            lemma_amount_le_sum(self.balances@, to);
        }
        if balance > previous_total {
            return false;
        }
        let new_balance = match balance.checked_add(value) {
            Some(b) => b,
            None => return false,
        };
        let new_total_supply = match previous_total.checked_add(value) {
            Some(b) => b,
            None => return false,
        };
        if value == 0 {
            self.outbox.push(Effect::Issue { to, value });
            return true;
        }
        self.balances.insert(to, new_balance);
        self.total_supply = new_total_supply;
        assert(balance + value == self@.balance_of(to));
        assert(previous_total + value == self@.total_supply);
        self.outbox.push(Effect::Issue { to, value });
        true
    }

    /// Retires `value` units of `caller`, which must not be the reserved
    /// identifier. Fails, changing nothing, when `caller` holds less than
    /// `value`. A destruction of more than zero units also asks the host for
    /// the conversion call.
    pub fn destroy(&mut self, caller: AccountId, value: u64) -> (ok: bool)
        requires
            old(self)@.wf(),
            !caller.reserved(),
        ensures
            final(self)@.wf(),
            destroy_step(old(self)@, final(self)@, caller, value, ok),
    {
        let owner = caller;
        let balance = self.balance_of_or_zero(&owner);
        let previous_total = self.total_supply;
        proof {
            lemma_amount_le_sum(self.balances@, owner);
        }
        if balance > previous_total {
            return false;
        }
        if value > balance {
            return false;
        }
        let new_balance = match balance.checked_sub(value) {
            Some(b) => b,
            None => return false,
        };
        let new_total_supply = match previous_total.checked_sub(value) {
            Some(b) => b,
            None => return false,
        };
        if value == 0 {
            self.outbox.push(Effect::Destroy { owner, value });
            return true;
        }
        self.balances.insert(owner, new_balance);
        self.total_supply = new_total_supply;
        assert(balance - value == self@.balance_of(owner));
        assert(previous_total - value == self@.total_supply);
        self.outbox.push(Effect::Destroy { owner, value });
        self.outbox.push(Effect::ConvertToAsset { owner, value });
        true
    }

    /// The balance of `of`, zero if it has none.
    pub fn balance_of_or_zero(&self, of: &AccountId) -> (r: u64)
        requires
            self@.wf(),
        ensures
            r == self@.balance_of(*of),
    {
        self.balances.get(of)
    }

    /// What `owner` permits `spender` to move, zero if nothing was approved.
    pub fn allowance_or_zero(&self, owner: &AccountId, spender: &AccountId) -> (r: u64)
        requires
            self@.wf(),
        ensures
            r == self@.allowance(*owner, *spender),
    {
        self.allowances.get(&AllowanceKey { owner: *owner, spender: *spender })
    }

    /// Moves `value` from `from` to `to`; neither may be the reserved
    /// identifier. Fails, changing nothing, when `from` holds less than
    /// `value` or the balance of `to` would no longer be an amount. A
    /// transfer to oneself or of nothing writes no balance and still
    /// succeeds with its notification. The two balances together are the
    /// same after a transfer as before.
    pub fn transfer_impl(&mut self, from: AccountId, to: AccountId, value: u64) -> (ok: bool)
        requires
            old(self)@.wf(),
            !from.reserved(),
            !to.reserved(),
        ensures
            final(self)@.wf(),
            transfer_step(old(self)@, final(self)@, from, to, value, ok),
            ok ==> final(self)@.balance_of(from) + final(self)@.balance_of(to) == old(self)@.balance_of(
                from,
            ) + old(self)@.balance_of(to),
    {
        let balance_from = self.balance_of_or_zero(&from);
        let balance_to = self.balance_of_or_zero(&to);
        let ghost previous_balances = balance_from + balance_to;
        if balance_from < value {
            return false;
        }
        let new_balance_from = match balance_from.checked_sub(value) {
            Some(b) => b,
            None => return false,
        };
        let new_balance_to = match balance_to.checked_add(value) {
            Some(b) => b,
            None => return false,
        };
        if from.same(&to) || value == 0 {
            self.outbox.push(Effect::Transfer { from: Some(from), to: Some(to), value });
            return true;
        }
        self.balances.insert(from, new_balance_from);
        self.balances.insert(to, new_balance_to);
        assert(previous_balances == self@.balance_of(from) + self@.balance_of(to));
        self.outbox.push(Effect::Transfer { from: Some(from), to: Some(to), value });
        true
    }

    /// Creates the ledger as [`Xrc20::new`] does, or reports the fault where
    /// `caller` is the reserved identifier.
    pub fn try_new(
        caller: AccountId,
        init_value: u64,
        name: Text,
        symbol: Text,
        decimals: u16,
    ) -> (r: Result<Self, Fault>)
        ensures
            match r {
                Ok(ledger) => {
                    &&& !caller.reserved()
                    &&& ledger@.wf()
                    &&& created(ledger@, caller, init_value, name@, symbol@, decimals)
                },
                Err(fault) => caller.reserved() && fault == Fault::ReservedIdentifier,
            },
    {
        if caller.is_zero() {
            return Err(Fault::ReservedIdentifier);
        }
        Ok(Xrc20::new(caller, init_value, name, symbol, decimals))
    }

    /// Transfers as [`Xrc20::transfer`] does, or reports the fault and
    /// changes nothing where `caller` or `to` is the reserved identifier.
    pub fn try_transfer(&mut self, caller: AccountId, to: AccountId, value: u64) -> (r: Result<
        bool,
        Fault,
    >)
        requires
            old(self)@.wf(),
        ensures
            final(self)@.wf(),
            match r {
                Ok(ok) => {
                    &&& !caller.reserved()
                    &&& !to.reserved()
                    &&& transfer_step(old(self)@, final(self)@, caller, to, value, ok)
                },
                Err(fault) => {
                    &&& caller.reserved() || to.reserved()
                    &&& fault == Fault::ReservedIdentifier
                    &&& final(self)@ == old(self)@
                },
            },
    {
        if caller.is_zero() || to.is_zero() {
            return Err(Fault::ReservedIdentifier);
        }
        Ok(self.transfer(caller, to, value))
    }

    /// Transfers on behalf of `from` as [`Xrc20::transfer_from`] does. Where
    /// the allowance suffices and `from` or `to` is the reserved identifier,
    /// reports the fault and changes nothing; an allowance that does not
    /// suffice is an ordinary failure, whoever the parties are.
    pub fn try_transfer_from(
        &mut self,
        caller: AccountId,
        from: AccountId,
        to: AccountId,
        value: u64,
    ) -> (r: Result<bool, Fault>)
        requires
            old(self)@.wf(),
        ensures
            final(self)@.wf(),
            match r {
                Ok(ok) => {
                    &&& value <= old(self)@.allowance(from, caller) ==> !from.reserved()
                        && !to.reserved()
                    &&& delegated_step(old(self)@, final(self)@, caller, from, to, value, ok)
                },
                Err(fault) => {
                    &&& value <= old(self)@.allowance(from, caller)
                    &&& from.reserved() || to.reserved()
                    &&& fault == Fault::ReservedIdentifier
                    &&& final(self)@ == old(self)@
                },
            },
    {
        if self.allowance_or_zero(&from, &caller) >= value && (from.is_zero() || to.is_zero()) {
            return Err(Fault::ReservedIdentifier);
        }
        Ok(self.transfer_from(caller, from, to, value))
    }

    /// Issues as [`Xrc20::issue`] does, or reports the fault and changes
    /// nothing: the reserved identifier as destination, or else a caller
    /// that is not the ledger itself.
    pub fn try_issue(
        &mut self,
        caller: AccountId,
        ledger_id: AccountId,
        to: AccountId,
        value: u64,
    ) -> (r: Result<bool, Fault>)
        requires
            old(self)@.wf(),
        ensures
            final(self)@.wf(),
            match r {
                Ok(ok) => {
                    &&& !to.reserved()
                    &&& caller == ledger_id
                    &&& issue_step(old(self)@, final(self)@, to, value, ok)
                },
                Err(fault) => {
                    &&& fault == if to.reserved() {
                        Fault::ReservedIdentifier
                    } else {
                        Fault::NotPrivileged
                    }
                    &&& to.reserved() || caller != ledger_id
                    &&& final(self)@ == old(self)@
                },
            },
    {
        if to.is_zero() {
            return Err(Fault::ReservedIdentifier);
        }
        if !caller.same(&ledger_id) {
            return Err(Fault::NotPrivileged);
        }
        Ok(self.issue(caller, ledger_id, to, value))
    }

    /// Destroys as [`Xrc20::destroy`] does, or reports the fault and changes
    /// nothing where `caller` is the reserved identifier.
    pub fn try_destroy(&mut self, caller: AccountId, value: u64) -> (r: Result<bool, Fault>)
        requires
            old(self)@.wf(),
        ensures
            final(self)@.wf(),
            match r {
                Ok(ok) => !caller.reserved() && destroy_step(
                    old(self)@,
                    final(self)@,
                    caller,
                    value,
                    ok,
                ),
                Err(fault) => {
                    &&& caller.reserved()
                    &&& fault == Fault::ReservedIdentifier
                    &&& final(self)@ == old(self)@
                },
            },
    {
        if caller.is_zero() {
            return Err(Fault::ReservedIdentifier);
        }
        Ok(self.destroy(caller, value))
    }
}

} // verus!
