//! The abstract state of a ledger and what each operation does to it.

use crate::account::{AccountId, AllowanceKey};
use crate::effect::Effect;
use crate::table::{amount_at, distinct_keys, sum_amounts};
use vstd::prelude::*;

verus! {

/// The abstract state of a ledger.
pub struct LedgerView {
    /// The number of units in existence.
    pub total_supply: u64,
    /// The number of decimals to display amounts with.
    pub decimals: u16,
    /// The name of the token.
    pub name: Seq<u8>,
    /// The symbol of the token.
    pub symbol: Seq<u8>,
    /// The accounts that were written so far, each with its balance.
    pub balances: Seq<(AccountId, u64)>,
    /// The allowances that were written so far.
    pub allowances: Seq<(AllowanceKey, u64)>,
    /// The effects that the host has not taken yet, oldest first.
    pub outbox: Seq<Effect>,
}

impl LedgerView {
    /// The balance of `account`: zero if it was never written.
    #[verifier::inline]
    pub open spec fn balance_of(self, account: AccountId) -> u64 {
        amount_at(self.balances, account)
    }

    /// What `owner` currently permits `spender` to move: zero if it was never
    /// written.
    #[verifier::inline]
    pub open spec fn allowance(self, owner: AccountId, spender: AccountId) -> u64 {
        amount_at(self.allowances, AllowanceKey { owner, spender })
    }

    /// The sum of all balances.
    pub open spec fn sum_balances(self) -> int {
        sum_amounts(self.balances)
    }

    /// The ledger's invariant: no account and no allowance is listed twice,
    /// and the total supply is the sum of all balances.
    pub open spec fn wf(self) -> bool {
        &&& distinct_keys(self.balances)
        &&& distinct_keys(self.allowances)
        &&& self.total_supply == self.sum_balances()
    }

    /// Name, symbol and decimals are those of `other`.
    pub open spec fn same_metadata(self, other: LedgerView) -> bool {
        &&& self.name == other.name
        &&& self.symbol == other.symbol
        &&& self.decimals == other.decimals
    }

    /// Everything that is persisted is as in `other`: only the outbox may
    /// differ.
    pub open spec fn same_storage(self, other: LedgerView) -> bool {
        &&& self.same_metadata(other)
        &&& self.total_supply == other.total_supply
        &&& self.balances == other.balances
        &&& self.allowances == other.allowances
    }

    /// A transfer of `value` from `from` to `to` goes through: the source
    /// holds at least `value`, and the destination's balance plus `value` is
    /// still an amount.
    pub open spec fn can_transfer(self, from: AccountId, to: AccountId, value: u64) -> bool {
        value <= self.balance_of(from) && self.balance_of(to) + value <= u64::MAX
    }

    /// The balance of `account` after `value` has moved from `from` to `to`.
    pub open spec fn balance_after_transfer(
        self,
        from: AccountId,
        to: AccountId,
        value: u64,
        account: AccountId,
    ) -> int {
        if from == to {
            self.balance_of(account) as int
        } else if account == from {
            self.balance_of(account) - value
        } else if account == to {
            self.balance_of(account) + value
        } else {
            self.balance_of(account) as int
        }
    }
}

/// `state` is the ledger that `caller` creates with the given supply and
/// metadata: the whole supply is the balance of `caller`, nobody else holds
/// anything, no allowance exists, and the outbox holds the one transfer
/// notification that has no source.
pub open spec fn created(
    state: LedgerView,
    caller: AccountId,
    init_value: u64,
    name: Seq<u8>,
    symbol: Seq<u8>,
    decimals: u16,
) -> bool {
    &&& state.total_supply == init_value
    &&& state.name == name
    &&& state.symbol == symbol
    &&& state.decimals == decimals
    &&& forall|a: AccountId| #[trigger]
        state.balance_of(a) == if a == caller {
            init_value
        } else {
            0
        }
    &&& state.allowances == Seq::<(AllowanceKey, u64)>::empty()
    &&& state.outbox == seq![Effect::Transfer { from: None, to: Some(caller), value: init_value }]
}

/// The outbox `post` is the outbox `pre` with exactly one notification
/// added, which nothing but a conversion request follows.
pub open spec fn one_notification_added(pre: Seq<Effect>, post: Seq<Effect>) -> bool {
    &&& post.len() > pre.len()
    &&& post.subrange(0, pre.len() as int) == pre
    &&& post[pre.len() as int].is_notification()
    &&& forall|i: int| pre.len() < i < post.len() ==> !(#[trigger] post[i]).is_notification()
}

/// The transfer notification for `value` units from `from` to `to`.
pub open spec fn transfer_effect(from: AccountId, to: AccountId, value: u64) -> Effect {
    Effect::Transfer { from: Some(from), to: Some(to), value }
}

/// How a transfer of `value` from `from` to `to` that answered `ok` takes the
/// ledger from `pre` to `post`.
pub open spec fn transfer_step(
    pre: LedgerView,
    post: LedgerView,
    from: AccountId,
    to: AccountId,
    value: u64,
    ok: bool,
) -> bool {
    &&& ok == pre.can_transfer(from, to, value)
    &&& if ok {
        &&& post.same_metadata(pre)
        &&& post.total_supply == pre.total_supply
        &&& post.sum_balances() == pre.sum_balances()
        &&& post.allowances == pre.allowances
        &&& post.outbox == pre.outbox.push(transfer_effect(from, to, value))
        &&& (from == to || value == 0) ==> post.balances == pre.balances
        &&& forall|a: AccountId| #[trigger]
            post.balance_of(a) == pre.balance_after_transfer(from, to, value, a)
    } else {
        post == pre
    }
}

/// How a delegated transfer by `spender` of `value` from `from` to `to` that
/// answered `ok` takes the ledger from `pre` to `post`.
pub open spec fn delegated_step(
    pre: LedgerView,
    post: LedgerView,
    spender: AccountId,
    from: AccountId,
    to: AccountId,
    value: u64,
    ok: bool,
) -> bool {
    &&& ok == (value <= pre.allowance(from, spender) && pre.can_transfer(from, to, value))
    &&& if ok {
        &&& post.same_metadata(pre)
        &&& post.total_supply == pre.total_supply
        &&& post.sum_balances() == pre.sum_balances()
        &&& post.outbox == pre.outbox.push(transfer_effect(from, to, value))
        &&& forall|a: AccountId| #[trigger]
            post.balance_of(a) == pre.balance_after_transfer(from, to, value, a)
        &&& forall|o: AccountId, s: AccountId| #[trigger]
            post.allowance(o, s) == if o == from && s == spender {
                pre.allowance(o, s) - value
            } else {
                pre.allowance(o, s) as int
            }
    } else {
        post == pre
    }
}

/// How `owner`'s approval of `spender` for `value` takes the ledger from
/// `pre` to `post`.
pub open spec fn approve_step(
    pre: LedgerView,
    post: LedgerView,
    owner: AccountId,
    spender: AccountId,
    value: u64,
) -> bool {
    &&& post.same_metadata(pre)
    &&& post.total_supply == pre.total_supply
    &&& post.balances == pre.balances
    &&& post.outbox == pre.outbox.push(Effect::Approval { owner, spender, value })
    &&& forall|o: AccountId, s: AccountId| #[trigger]
        post.allowance(o, s) == if o == owner && s == spender {
            value
        } else {
            pre.allowance(o, s)
        }
}

/// How an issuance of `value` to `to` that answered `ok` takes the ledger
/// from `pre` to `post`.
pub open spec fn issue_step(
    pre: LedgerView,
    post: LedgerView,
    to: AccountId,
    value: u64,
    ok: bool,
) -> bool {
    &&& ok == (pre.total_supply + value <= u64::MAX)
    &&& if ok {
        &&& post.same_metadata(pre)
        &&& post.allowances == pre.allowances
        &&& post.total_supply == pre.total_supply + value
        &&& post.sum_balances() == pre.sum_balances() + value
        &&& post.outbox == pre.outbox.push(Effect::Issue { to, value })
        &&& value == 0 ==> post.balances == pre.balances
        &&& forall|a: AccountId| #[trigger]
            post.balance_of(a) == if a == to {
                pre.balance_of(a) + value
            } else {
                pre.balance_of(a) as int
            }
    } else {
        post == pre
    }
}

/// How `owner`'s destruction of `value` that answered `ok` takes the ledger
/// from `pre` to `post`.
pub open spec fn destroy_step(
    pre: LedgerView,
    post: LedgerView,
    owner: AccountId,
    value: u64,
    ok: bool,
) -> bool {
    &&& ok == (value <= pre.balance_of(owner))
    &&& if ok {
        &&& post.same_metadata(pre)
        &&& post.allowances == pre.allowances
        &&& post.total_supply == pre.total_supply - value
        &&& post.sum_balances() == pre.sum_balances() - value
        &&& post.outbox == if value == 0 {
            pre.outbox.push(Effect::Destroy { owner, value })
        } else {
            pre.outbox.push(Effect::Destroy { owner, value }).push(
                Effect::ConvertToAsset { owner, value },
            )
        }
        &&& value == 0 ==> post.balances == pre.balances
        &&& forall|a: AccountId| #[trigger]
            post.balance_of(a) == if a == owner {
                pre.balance_of(a) - value
            } else {
                pre.balance_of(a) as int
            }
    } else {
        post == pre
    }
}

} // verus!
