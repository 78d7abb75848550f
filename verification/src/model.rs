//! The registry as a mathematical object: what it holds, when a call is
//! refused, and what a call that is not refused changes.
//!
//! The contracts of [`crate::registry::P2pNameService`] are stated over the
//! functions of this module, and the laws at its end are proved of them.

use crate::error::Error;
use crate::ident::{AccountId, Name};
use vstd::prelude::*;

verus! {

/// What a registry holds.
///
/// Both maps are meant to be total, as those of a registry's view are. A name
/// with no owner on record maps to the zero account, an account with no name
/// on record to the zero name; a record that is cleared and one that was
/// never made are the same thing.
#[verifier::ext_equal]
pub struct RegistryState {
    /// The owner on record for each name.
    pub owners: Map<Name, AccountId>,
    /// The name on record for each account.
    pub names: Map<AccountId, Name>,
    /// The administrator.
    pub admin: AccountId,
}

impl RegistryState {
    /// The registry with nothing on record, under the administrator `admin`.
    pub open spec fn fresh(admin: AccountId) -> RegistryState {
        RegistryState {
            owners: Map::total(|name: Name| AccountId::zero()),
            names: Map::total(|account: AccountId| Name::zero()),
            admin,
        }
    }

    /// Both maps are total: every name and every account has a record, if
    /// only a zero one.
    pub open spec fn is_total(self) -> bool {
        &&& forall|name: Name| self.owners.dom().contains(name)
        &&& forall|account: AccountId| self.names.dom().contains(account)
    }

    /// The owner on record for `name`, or the zero account.
    pub open spec fn owner_of(self, name: Name) -> AccountId {
        self.owners[name]
    }

    /// The name on record for `account`, or the zero name.
    pub open spec fn name_of(self, account: AccountId) -> Name {
        self.names[account]
    }

    /// The owner on record for `name`, if there is one.
    pub open spec fn recorded_owner(self, name: Name) -> Option<AccountId> {
        if self.owner_of(name) == AccountId::zero() {
            None
        } else {
            Some(self.owner_of(name))
        }
    }

    /// `name` is owned: it has an owner on record, and that owner's name on
    /// record is `name`. A record with no record to answer it does not count.
    pub open spec fn name_has_owner(self, name: Name) -> bool {
        &&& self.owner_of(name) != AccountId::zero()
        &&& self.name_of(self.owner_of(name)) == name
    }

    /// `account` owns a name: it has a name on record, and that name's owner
    /// on record is `account`.
    pub open spec fn account_has_name(self, account: AccountId) -> bool {
        &&& self.name_of(account) != Name::zero()
        &&& self.owner_of(self.name_of(account)) == account
    }

    /// The registry with `account` on record as the owner of `name`, and
    /// `name` as the name of `account`.
    pub open spec fn linked(self, account: AccountId, name: Name) -> RegistryState {
        RegistryState {
            owners: self.owners.insert(name, account),
            names: self.names.insert(account, name),
            admin: self.admin,
        }
    }

    /// The registry with the owner of `name` and the name of `account` cleared.
    pub open spec fn unlinked(self, account: AccountId, name: Name) -> RegistryState {
        RegistryState {
            owners: self.owners.insert(name, AccountId::zero()),
            names: self.names.insert(account, Name::zero()),
            admin: self.admin,
        }
    }

    /// The registry with `name` taken from the owner it has on record and
    /// given to `to`, both records of the old owner cleared.
    pub open spec fn moved(self, name: Name, to: AccountId) -> RegistryState {
        self.unlinked(self.owner_of(name), name).linked(to, name)
    }

    /// The registry with `owner` on record as the owner of `name`, and the
    /// names on record as they were.
    pub open spec fn with_owner(self, name: Name, owner: AccountId) -> RegistryState {
        RegistryState { owners: self.owners.insert(name, owner), names: self.names, admin: self.admin }
    }

    /// The registry with `name` on record as the name of `account`, and the
    /// owners on record as they were.
    pub open spec fn with_name(self, account: AccountId, name: Name) -> RegistryState {
        RegistryState { owners: self.owners, names: self.names.insert(account, name), admin: self.admin }
    }

    /// The registry with each name of `records` given the owner beside it,
    /// one after the other, so that a later record of a name replaces an
    /// earlier one.
    pub open spec fn with_owners(self, records: Seq<(Name, AccountId)>) -> RegistryState
        decreases records.len(),
    {
        if records.len() == 0 {
            self
        } else {
            self.with_owners(records.drop_last()).with_owner(records.last().0, records.last().1)
        }
    }

    /// The registry with each account of `records` given the name beside it,
    /// one after the other, so that a later record of an account replaces an
    /// earlier one.
    pub open spec fn with_names(self, records: Seq<(AccountId, Name)>) -> RegistryState
        decreases records.len(),
    {
        if records.len() == 0 {
            self
        } else {
            self.with_names(records.drop_last()).with_name(records.last().0, records.last().1)
        }
    }

    /// The registry under the administrator `admin`, with the same records.
    pub open spec fn with_admin(self, admin: AccountId) -> RegistryState {
        RegistryState { owners: self.owners, names: self.names, admin }
    }

    /// Why `name` cannot be registered to `target`, if it cannot: the name is
    /// owned, or else the target owns a name.
    pub open spec fn register_refusal(self, target: AccountId, name: Name) -> Option<Error> {
        if self.name_has_owner(name) {
            Some(Error::NameAlreadyExists)
        } else if self.account_has_name(target) {
            Some(Error::AccountAlreadyHasName)
        } else {
            None
        }
    }

    /// Why `caller` cannot register `name` to `to` by authority, if it
    /// cannot: the caller is not the administrator, or else the registration
    /// itself is refused.
    pub open spec fn force_register_refusal(
        self,
        caller: AccountId,
        name: Name,
        to: AccountId,
    ) -> Option<Error> {
        if caller != self.admin {
            Some(Error::CallerIsNotAdmin)
        } else {
            self.register_refusal(to, name)
        }
    }

    /// Why `name` cannot go from `from` to `to`, if it cannot: `from` is not
    /// the owner on record for `name`, or else `to` owns a name.
    pub open spec fn transfer_refusal(self, from: AccountId, name: Name, to: AccountId) -> Option<
        Error,
    > {
        if from != self.owner_of(name) {
            Some(Error::CallerIsNotOwner)
        } else if self.account_has_name(to) {
            Some(Error::AccountAlreadyHasName)
        } else {
            None
        }
    }

    /// Why `caller` cannot move `name` from `from` to `to` by authority, if it
    /// cannot: the caller is not the administrator, or else the transfer from
    /// `from` is refused.
    pub open spec fn force_transfer_refusal(
        self,
        caller: AccountId,
        name: Name,
        from: AccountId,
        to: AccountId,
    ) -> Option<Error> {
        if caller != self.admin {
            Some(Error::CallerIsNotAdmin)
        } else {
            self.transfer_refusal(from, name, to)
        }
    }

    /// Why `caller` cannot hand the administration on, if it cannot: it is
    /// not the administrator.
    pub open spec fn transfer_admin_refusal(self, caller: AccountId) -> Option<Error> {
        if caller != self.admin {
            Some(Error::CallerIsNotAdmin)
        } else {
            None
        }
    }

    /// The two maps answer each other, and the zero name and the zero account
    /// are on record for nothing.
    pub open spec fn consistent(self) -> bool {
        &&& self.owner_of(Name::zero()) == AccountId::zero()
        &&& self.name_of(AccountId::zero()) == Name::zero()
        &&& forall|name: Name|
            #![trigger self.owners[name]]
            self.owner_of(name) != AccountId::zero() ==> self.name_of(self.owner_of(name)) == name
        &&& forall|account: AccountId|
            #![trigger self.names[account]]
            self.name_of(account) != Name::zero() ==> self.owner_of(self.name_of(account))
                == account
    }

    /// A registry with nothing on record is consistent.
    pub proof fn lemma_fresh_consistent(admin: AccountId)
        ensures
            RegistryState::fresh(admin).consistent(),
    {
    }

    /// Changing the administrator leaves a consistent registry consistent.
    pub proof fn lemma_with_admin_consistent(self, admin: AccountId)
        requires
            self.consistent(),
        ensures
            self.with_admin(admin).consistent(),
    {
    }

    /// A registration that is not refused leaves a consistent registry
    /// consistent exactly when it does not pair a reserved value with an
    /// ordinary one: when `name` is the zero name if and only if `account` is
    /// the zero account.
    pub proof fn lemma_linked_consistent(self, account: AccountId, name: Name)
        requires
            self.consistent(),
            self.register_refusal(account, name) is None,
        ensures
            self.linked(account, name).consistent() <==> ((name == Name::zero()) == (account
                == AccountId::zero())),
    {
        let after = self.linked(account, name);
        if (name == Name::zero()) == (account == AccountId::zero()) {
            assert forall|n: Name| after.owner_of(n) != AccountId::zero() implies after.name_of(
                #[trigger] after.owners[n],
            ) == n by {
                if n != name {
                    assert(self.owners[n] != account);
                }
            }
            assert forall|a: AccountId| after.name_of(a) != Name::zero() implies after.owner_of(
                #[trigger] after.names[a],
            ) == a by {
                if a != account {
                    assert(self.names[a] != name);
                }
            }
        }
    }

    /// A transfer that is not refused leaves a consistent registry consistent
    /// exactly when it does not pair a reserved value with an ordinary one:
    /// when `name` is the zero name if and only if `to` is the zero account.
    pub proof fn lemma_moved_consistent(self, name: Name, to: AccountId)
        requires
            self.consistent(),
            self.transfer_refusal(self.owner_of(name), name, to) is None,
        ensures
            self.moved(name, to).consistent() <==> ((name == Name::zero()) == (to
                == AccountId::zero())),
    {
        let owner = self.owner_of(name);
        let after = self.moved(name, to);
        if (name == Name::zero()) == (to == AccountId::zero()) {
            assert forall|n: Name| after.owner_of(n) != AccountId::zero() implies after.name_of(
                #[trigger] after.owners[n],
            ) == n by {
                if n != name {
                    assert(self.owners[n] != to);
                    assert(self.owners[n] != owner);
                }
            }
            assert forall|a: AccountId| after.name_of(a) != Name::zero() implies after.owner_of(
                #[trigger] after.names[a],
            ) == a by {
                if a != to && a != owner {
                    assert(self.names[a] != name);
                }
            }
        }
    }

    /// In a consistent registry the two directions agree: the owner on record
    /// for a name has that name on record, and the name on record for an
    /// account has that account as its owner.
    pub proof fn lemma_bijection(self, name: Name, account: AccountId)
        requires
            self.consistent(),
        ensures
            self.owner_of(name) != AccountId::zero() ==> self.name_of(self.owner_of(name)) == name,
            self.name_of(account) != Name::zero() ==> self.owner_of(self.name_of(account))
                == account,
    {
    }

    /// In a consistent registry, a name is owned exactly when it has an owner
    /// on record, and an account owns a name exactly when it has a name on
    /// record.
    pub proof fn lemma_owned_iff_on_record(self, name: Name, account: AccountId)
        requires
            self.consistent(),
        ensures
            self.name_has_owner(name) <==> self.owner_of(name) != AccountId::zero(),
            self.account_has_name(account) <==> self.name_of(account) != Name::zero(),
    {
    }

    /// In a consistent registry an account is on record as the owner of at
    /// most one name.
    pub proof fn lemma_single_name_per_account(self, account: AccountId, first: Name, second: Name)
        requires
            self.consistent(),
            account != AccountId::zero(),
            self.owner_of(first) == account,
            self.owner_of(second) == account,
        ensures
            first == second,
    {
    }

    /// In a consistent registry a name is on record as the name of at most
    /// one account.
    pub proof fn lemma_single_owner_per_name(self, name: Name, first: AccountId, second: AccountId)
        requires
            self.consistent(),
            name != Name::zero(),
            self.name_of(first) == name,
            self.name_of(second) == name,
        ensures
            first == second,
    {
    }

    /// In any registry, consistent or not, an account owns at most one name
    /// and a name is owned by at most one account.
    pub proof fn lemma_ownership_is_one_to_one(
        self,
        account: AccountId,
        other: AccountId,
        name: Name,
        second: Name,
    )
        ensures
            self.name_has_owner(name) && self.name_has_owner(second) && self.owner_of(name)
                == self.owner_of(second) ==> name == second,
            self.account_has_name(account) && self.account_has_name(other) && self.name_of(account)
                == self.name_of(other) ==> account == other,
    {
    }
}

} // verus!
