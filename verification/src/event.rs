//! What the registry reports of each change, for whoever observes it.

use crate::ident::{AccountId, Name};
use vstd::prelude::*;

verus! {

/// A name was registered.
#[derive(Clone, Copy, Debug, PartialEq, Eq, Structural)]
pub struct Register {
    /// The name that was registered.
    pub name: Name,
    /// The account that made the call.
    pub from: AccountId,
}

/// A name went from one owner to another.
#[derive(Clone, Copy, Debug, PartialEq, Eq, Structural)]
pub struct Transfer {
    /// The name that changed hands.
    pub name: Name,
    /// The account that made the call.
    pub from: AccountId,
    /// The owner before the call, if the name had one.
    pub old_owner: Option<AccountId>,
    /// The owner after the call.
    pub new_owner: AccountId,
}

/// The administrator handed the office to another account.
#[derive(Clone, Copy, Debug, PartialEq, Eq, Structural)]
pub struct TransferAdmin {
    /// The account that made the call: the administrator until then.
    pub from: AccountId,
    /// The administrator from then on.
    pub new_admin: AccountId,
}

} // verus!
