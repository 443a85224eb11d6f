//! What holds of the ledger's operations, proved from their contracts.

use crate::account::AccountId;
use crate::effect::Effect;
use crate::model::{
    approve_step, created, delegated_step, destroy_step, issue_step, one_notification_added,
    transfer_step, LedgerView,
};
use crate::table::{
    distinct_keys, lemma_amount_absent, lemma_amount_le_sum, lemma_amount_present,
    lemma_sum_by_amounts, lemma_two_amounts_le_sum,
};
use vstd::prelude::*;

verus! {

/// Conservation: after a successful transfer the balances of source and
/// destination together are what they were before.
pub proof fn law_transfer_conserves(
    pre: LedgerView,
    post: LedgerView,
    from: AccountId,
    to: AccountId,
    value: u64,
)
    requires
        transfer_step(pre, post, from, to, value, true),
    ensures
        post.balance_of(from) + post.balance_of(to) == pre.balance_of(from) + pre.balance_of(to),
{
}

/// Conservation holds of a successful delegated transfer too.
pub proof fn law_delegated_transfer_conserves(
    pre: LedgerView,
    post: LedgerView,
    spender: AccountId,
    from: AccountId,
    to: AccountId,
    value: u64,
)
    requires
        delegated_step(pre, post, spender, from, to, value, true),
    ensures
        post.balance_of(from) + post.balance_of(to) == pre.balance_of(from) + pre.balance_of(to),
{
}

/// In a consistent ledger no balance exceeds the total supply.
pub proof fn law_balance_within_supply(state: LedgerView, account: AccountId)
    requires
        state.wf(),
    ensures
        state.balance_of(account) <= state.total_supply,
{
    lemma_amount_le_sum(state.balances, account);
}

/// Whatever a transfer answers, direct or delegated, it takes a ledger whose
/// total supply is the sum of all balances to one of which that holds again.
pub proof fn law_transfer_keeps_supply(
    pre: LedgerView,
    post: LedgerView,
    spender: AccountId,
    from: AccountId,
    to: AccountId,
    value: u64,
    ok: bool,
)
    requires
        pre.total_supply == pre.sum_balances(),
        transfer_step(pre, post, from, to, value, ok) || delegated_step(
            pre,
            post,
            spender,
            from,
            to,
            value,
            ok,
        ),
    ensures
        post.total_supply == post.sum_balances(),
        post.total_supply == pre.total_supply,
{
}

/// An approval touches neither a balance nor the total supply.
pub proof fn law_approve_keeps_supply(
    pre: LedgerView,
    post: LedgerView,
    owner: AccountId,
    spender: AccountId,
    value: u64,
    account: AccountId,
)
    requires
        pre.total_supply == pre.sum_balances(),
        approve_step(pre, post, owner, spender, value),
    ensures
        post.total_supply == post.sum_balances(),
        post.total_supply == pre.total_supply,
        post.balance_of(account) == pre.balance_of(account),
{
}

/// Whatever an issuance or a destruction answers, it takes a ledger whose
/// total supply is the sum of all balances to one of which that holds again.
pub proof fn law_issue_and_destroy_keep_supply(
    pre: LedgerView,
    post: LedgerView,
    account: AccountId,
    value: u64,
    ok: bool,
)
    requires
        pre.total_supply == pre.sum_balances(),
        issue_step(pre, post, account, value, ok) || destroy_step(pre, post, account, value, ok),
    ensures
        post.total_supply == post.sum_balances(),
{
}

/// A newly created ledger's total supply is the sum of all balances: the
/// creator's balance is the only one.
pub proof fn law_created_supply(
    state: LedgerView,
    caller: AccountId,
    init_value: u64,
    name: Seq<u8>,
    symbol: Seq<u8>,
    decimals: u16,
    other: AccountId,
)
    requires
        created(state, caller, init_value, name, symbol, decimals),
        other != caller,
    ensures
        state.balance_of(caller) == state.total_supply,
        state.balance_of(other) == 0,
{
}

/// In a consistent ledger each listed account holds the amount that is
/// listed for it, so that the sum over the listing is the sum of all
/// balances that are not zero by absence.
pub proof fn law_listed_balance(state: LedgerView, i: int)
    requires
        state.wf(),
        0 <= i < state.balances.len(),
    ensures
        state.balance_of(state.balances[i].0) == state.balances[i].1,
{
    lemma_amount_present(state.balances, i);
}

/// An account that is not listed holds nothing.
pub proof fn law_unlisted_balance(state: LedgerView, account: AccountId)
    requires
        forall|i: int| 0 <= i < state.balances.len() ==> state.balances[i].0 != account,
    ensures
        state.balance_of(account) == 0,
{
    lemma_amount_absent(state.balances, account);
}

/// The sum of all balances depends on the balances alone: two ledgers in
/// which every account holds the same have the same sum, however their
/// accounts are listed.
pub proof fn law_sum_of_balances_by_account(one: LedgerView, other: LedgerView)
    requires
        distinct_keys(one.balances),
        distinct_keys(other.balances),
        forall|a: AccountId| one.balance_of(a) == other.balance_of(a),
    ensures
        one.sum_balances() == other.sum_balances(),
{
    lemma_sum_by_amounts(one.balances, other.balances);
}

/// A state that persists the same as a consistent one is consistent.
pub proof fn law_same_storage_consistent(pre: LedgerView, post: LedgerView)
    requires
        pre.wf(),
        post.same_storage(pre),
    ensures
        post.wf(),
{
}

/// A transfer fails and changes nothing whenever the source holds less than
/// the amount.
pub proof fn law_unfunded_transfer_fails(
    pre: LedgerView,
    post: LedgerView,
    from: AccountId,
    to: AccountId,
    value: u64,
    ok: bool,
)
    requires
        transfer_step(pre, post, from, to, value, ok),
        pre.balance_of(from) < value,
    ensures
        !ok,
        post == pre,
{
}

/// In a consistent ledger a transfer between two different accounts
/// succeeds exactly when the source holds the amount: the destination's
/// balance cannot leave the range of amounts.
pub proof fn law_funded_transfer_succeeds(
    pre: LedgerView,
    post: LedgerView,
    from: AccountId,
    to: AccountId,
    value: u64,
    ok: bool,
)
    requires
        pre.wf(),
        from != to,
        transfer_step(pre, post, from, to, value, ok),
    ensures
        ok == (value <= pre.balance_of(from)),
{
    lemma_two_amounts_le_sum(pre.balances, from, to);
}

/// A delegated transfer fails and changes nothing whenever the allowance is
/// below the amount. On success the allowance goes down by exactly the
/// amount, and stays an amount.
pub proof fn law_delegated_transfer_within_allowance(
    pre: LedgerView,
    post: LedgerView,
    spender: AccountId,
    from: AccountId,
    to: AccountId,
    value: u64,
    ok: bool,
)
    requires
        delegated_step(pre, post, spender, from, to, value, ok),
    ensures
        pre.allowance(from, spender) < value ==> !ok && post == pre,
        ok ==> value <= pre.allowance(from, spender),
        ok ==> post.allowance(from, spender) == pre.allowance(from, spender) - value,
        !ok ==> post == pre,
{
}

/// An approval overwrites: after two approvals of the same spender by the
/// same owner the allowance is the second amount, whatever the first was.
pub proof fn law_approve_overwrites(
    first: LedgerView,
    second: LedgerView,
    third: LedgerView,
    owner: AccountId,
    spender: AccountId,
    earlier: u64,
    later: u64,
)
    requires
        approve_step(first, second, owner, spender, earlier),
        approve_step(second, third, owner, spender, later),
    ensures
        second.allowance(owner, spender) == earlier,
        third.allowance(owner, spender) == later,
{
}

/// Issuing nothing succeeds, publishes its notification and leaves what is
/// persisted as it was.
pub proof fn law_issue_of_nothing(pre: LedgerView, post: LedgerView, to: AccountId, ok: bool)
    requires
        issue_step(pre, post, to, 0, ok),
    ensures
        ok,
        post.same_storage(pre),
        post.outbox == pre.outbox.push(Effect::Issue { to, value: 0 }),
{
}

/// Destroying nothing succeeds, publishes its notification, asks for no
/// conversion and leaves what is persisted as it was.
pub proof fn law_destroy_of_nothing(pre: LedgerView, post: LedgerView, owner: AccountId, ok: bool)
    requires
        destroy_step(pre, post, owner, 0, ok),
    ensures
        ok,
        post.same_storage(pre),
        post.outbox == pre.outbox.push(Effect::Destroy { owner, value: 0 }),
{
}

/// Issuance and destruction move the total supply and the balance of the
/// account by the same amount, so that the two stay in step.
pub proof fn law_supply_follows_balance(
    pre: LedgerView,
    issued: LedgerView,
    destroyed: LedgerView,
    account: AccountId,
    value: u64,
)
    requires
        issue_step(pre, issued, account, value, true),
        destroy_step(pre, destroyed, account, value, true),
    ensures
        issued.total_supply - pre.total_supply == issued.balance_of(account) - pre.balance_of(account),
        pre.total_supply - destroyed.total_supply == pre.balance_of(account) - destroyed.balance_of(
            account,
        ),
{
}

/// Every successful transfer, direct or delegated, publishes exactly one
/// notification; a failed one publishes nothing.
pub proof fn law_transfer_notifies_once(
    pre: LedgerView,
    post: LedgerView,
    spender: AccountId,
    from: AccountId,
    to: AccountId,
    value: u64,
    ok: bool,
)
    requires
        transfer_step(pre, post, from, to, value, ok) || delegated_step(
            pre,
            post,
            spender,
            from,
            to,
            value,
            ok,
        ),
    ensures
        ok ==> one_notification_added(pre.outbox, post.outbox),
        !ok ==> post.outbox == pre.outbox,
{
    if ok {
        assert(post.outbox.subrange(0, pre.outbox.len() as int) =~= pre.outbox);
    }
}

/// Every approval publishes exactly one notification.
pub proof fn law_approve_notifies_once(
    pre: LedgerView,
    post: LedgerView,
    owner: AccountId,
    spender: AccountId,
    value: u64,
)
    requires
        approve_step(pre, post, owner, spender, value),
    ensures
        one_notification_added(pre.outbox, post.outbox),
{
    assert(post.outbox.subrange(0, pre.outbox.len() as int) =~= pre.outbox);
}

/// Every successful issuance or destruction publishes exactly one
/// notification, also where the amount is zero; a failed one publishes
/// nothing.
pub proof fn law_issue_and_destroy_notify_once(
    pre: LedgerView,
    post: LedgerView,
    account: AccountId,
    value: u64,
    ok: bool,
)
    requires
        issue_step(pre, post, account, value, ok) || destroy_step(pre, post, account, value, ok),
    ensures
        ok ==> one_notification_added(pre.outbox, post.outbox),
        !ok ==> post.outbox == pre.outbox,
{
    if ok {
        assert(post.outbox.subrange(0, pre.outbox.len() as int) =~= pre.outbox);
    }
}

} // verus!
