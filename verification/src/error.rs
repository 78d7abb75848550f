//! Why the registry refuses a call.

use vstd::prelude::*;

verus! {

/// The reasons for which a call is refused. A refused call changes nothing.
#[derive(Clone, Copy, Debug, PartialEq, Eq, Structural)]
pub enum Error {
    /// The name already has an owner.
    NameAlreadyExists,
    /// The account that would receive the name already has one.
    AccountAlreadyHasName,
    /// The account that gives the name away is not its owner.
    CallerIsNotOwner,
    /// The caller is not the administrator.
    CallerIsNotAdmin,
}

} // verus!
