//! What an operation asks the hosting environment to do once it has
//! committed: the notifications to publish and the outbound conversion call.

use crate::account::AccountId;
use vstd::prelude::*;

verus! {

/// An entry of the ledger's outbox. The first four are notifications for
/// external observers; the last is the request for the cross-system call that
/// follows a destruction.
#[derive(Clone, Copy, Debug, PartialEq, Eq)]
#[allow(inconsistent_fields)]
pub enum Effect {
    /// `value` units moved from `from` to `to`. At construction `from` is
    /// `None`: the initial supply comes from nowhere.
    Transfer { from: Option<AccountId>, to: Option<AccountId>, value: u64 },
    /// `owner` set the allowance of `spender` to `value`.
    Approval { owner: AccountId, spender: AccountId, value: u64 },
    /// `value` new units were credited to `to`.
    Issue { to: AccountId, value: u64 },
    /// `owner` retired `value` units.
    Destroy { owner: AccountId, value: u64 },
    /// `value` units retired by `owner` are to be converted into the
    /// equivalent asset elsewhere. The host makes the call and discards its
    /// result: a failure does not undo the destruction.
    ConvertToAsset { owner: AccountId, value: u64 },
}

impl Effect {
    /// The effect is a notification, not the conversion request.
    pub open spec fn is_notification(&self) -> bool {
        !(*self is ConvertToAsset)
    }
}

} // verus!
