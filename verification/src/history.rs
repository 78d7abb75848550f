//! Calls, and the registries that sequences of calls lead to.
//!
//! A registry is reached from an empty one by a sequence of calls. This
//! module names the calls, says what each does to a registry, and proves that
//! every registry so reached is consistent, as long as no call on the way
//! gave the zero name to an ordinary account or an ordinary name to the zero
//! account.

use crate::error::Error;
use crate::ident::{AccountId, Name};
use crate::model::RegistryState;
use vstd::prelude::*;

verus! {

/// A call that may change a registry, with the account that makes it.
pub enum Call {
    /// `caller` registers `name` for itself.
    Register { caller: AccountId, name: Name },
    /// `caller` registers `name` for `to`, as the administrator.
    ForceRegister { caller: AccountId, name: Name, to: AccountId },
    /// `caller` gives its name `name` to `to`.
    Transfer { caller: AccountId, name: Name, to: AccountId },
    /// `caller` moves `name` from `from` to `to`, as the administrator.
    ForceTransfer { caller: AccountId, name: Name, from: AccountId, to: AccountId },
    /// `caller` hands the administration to `new_admin`.
    TransferAdmin { caller: AccountId, new_admin: AccountId },
}

impl Call {
    /// Why `state` refuses the call, if it does.
    pub open spec fn refusal(self, state: RegistryState) -> Option<Error> {
        match self {
            Call::Register { caller, name } => state.register_refusal(caller, name),
            Call::ForceRegister { caller, name, to } => state.force_register_refusal(
                caller,
                name,
                to,
            ),
            Call::Transfer { caller, name, to } => state.transfer_refusal(caller, name, to),
            Call::ForceTransfer { caller, name, from, to } => state.force_transfer_refusal(
                caller,
                name,
                from,
                to,
            ),
            Call::TransferAdmin { caller, new_admin } => state.transfer_admin_refusal(caller),
        }
    }

    /// The call is about `name`: it reads or writes the owner on record for it.
    pub open spec fn touches_name(self, name: Name) -> bool {
        match self {
            Call::Register { caller, name: mine } => name == mine,
            Call::ForceRegister { caller, name: mine, to } => name == mine,
            Call::Transfer { caller, name: mine, to } => name == mine,
            Call::ForceTransfer { caller, name: mine, from, to } => name == mine,
            Call::TransferAdmin { caller, new_admin } => false,
        }
    }

    /// The call is about `account`: it reads or writes the name on record for
    /// it. The administrator is not touched in this sense, nor is a caller
    /// who only lends authority.
    pub open spec fn touches_account(self, account: AccountId) -> bool {
        match self {
            Call::Register { caller, name } => account == caller,
            Call::ForceRegister { caller, name, to } => account == to,
            Call::Transfer { caller, name, to } => account == caller || account == to,
            Call::ForceTransfer { caller, name, from, to } => account == from || account == to,
            Call::TransferAdmin { caller, new_admin } => false,
        }
    }

    /// The call does not pair a reserved value with an ordinary one: the
    /// name it is about is the zero name if and only if the account that
    /// would receive the name is the zero account.
    pub open spec fn respects_reserved(self) -> bool {
        match self {
            Call::Register { caller, name } => (name == Name::zero()) == (caller
                == AccountId::zero()),
            Call::ForceRegister { caller, name, to } => (name == Name::zero()) == (to
                == AccountId::zero()),
            Call::Transfer { caller, name, to } => (name == Name::zero()) == (to
                == AccountId::zero()),
            Call::ForceTransfer { caller, name, from, to } => (name == Name::zero()) == (to
                == AccountId::zero()),
            Call::TransferAdmin { caller, new_admin } => true,
        }
    }
}

impl RegistryState {
    /// The registry after `call`: unchanged if the call is refused, and
    /// otherwise with the change that the call asks for.
    pub open spec fn after(self, call: Call) -> RegistryState {
        if call.refusal(self) is Some {
            self
        } else {
            match call {
                Call::Register { caller, name } => self.linked(caller, name),
                Call::ForceRegister { caller, name, to } => self.linked(to, name),
                Call::Transfer { caller, name, to } => self.moved(name, to),
                Call::ForceTransfer { caller, name, from, to } => self.moved(name, to),
                Call::TransferAdmin { caller, new_admin } => self.with_admin(new_admin),
            }
        }
    }

    /// The two registries have the same administrator and the same records
    /// where `call` looks: for the name and the accounts it touches, and for
    /// what answers those records.
    pub open spec fn same_where_read(self, other: RegistryState, call: Call) -> bool {
        &&& self.admin == other.admin
        &&& forall|name: Name|
            #![trigger call.touches_name(name)]
            call.touches_name(name) ==> {
                &&& self.owner_of(name) == other.owner_of(name)
                &&& self.name_of(self.owner_of(name)) == other.name_of(self.owner_of(name))
            }
        &&& forall|account: AccountId|
            #![trigger call.touches_account(account)]
            call.touches_account(account) ==> {
                &&& self.name_of(account) == other.name_of(account)
                &&& self.owner_of(self.name_of(account)) == other.owner_of(self.name_of(account))
            }
    }

    /// The registry after the calls `calls`, made in order.
    pub open spec fn after_all(self, calls: Seq<Call>) -> RegistryState
        decreases calls.len(),
    {
        if calls.len() == 0 {
            self
        } else {
            self.after_all(calls.drop_last()).after(calls.last())
        }
    }

    /// Each of the calls `calls`, made in order from this registry, is
    /// refused or respects the reserved values.
    pub open spec fn runs_clean(self, calls: Seq<Call>) -> bool
        decreases calls.len(),
    {
        calls.len() == 0 || {
            let before = self.after_all(calls.drop_last());
            &&& self.runs_clean(calls.drop_last())
            &&& (calls.last().refusal(before) is Some || calls.last().respects_reserved())
        }
    }

    /// A call leaves a consistent registry consistent exactly when it is
    /// refused or respects the reserved values.
    pub proof fn lemma_after_consistent(self, call: Call)
        requires
            self.consistent(),
        ensures
            self.after(call).consistent() <==> (call.refusal(self) is Some
                || call.respects_reserved()),
    {
        if call.refusal(self) is None {
            match call {
                Call::Register { caller, name } => {
                    self.lemma_linked_consistent(caller, name);
                },
                Call::ForceRegister { caller, name, to } => {
                    self.lemma_linked_consistent(to, name);
                },
                Call::Transfer { caller, name, to } => {
                    self.lemma_moved_consistent(name, to);
                },
                Call::ForceTransfer { caller, name, from, to } => {
                    self.lemma_moved_consistent(name, to);
                },
                Call::TransferAdmin { caller, new_admin } => {
                    self.lemma_with_admin_consistent(new_admin);
                },
            }
        }
    }

    /// Every registry reached from an empty one is consistent, as long as
    /// each call on the way was refused or respected the reserved values.
    pub proof fn lemma_reachable_consistent(deployer: AccountId, calls: Seq<Call>)
        requires
            RegistryState::fresh(deployer).runs_clean(calls),
        ensures
            RegistryState::fresh(deployer).after_all(calls).consistent(),
        decreases calls.len(),
    {
        if calls.len() == 0 {
            RegistryState::lemma_fresh_consistent(deployer);
        } else {
            RegistryState::lemma_reachable_consistent(deployer, calls.drop_last());
            RegistryState::fresh(deployer).after_all(calls.drop_last()).lemma_after_consistent(
                calls.last(),
            );
        }
    }

    /// In every registry reached from an empty one by calls that were
    /// refused or respected the reserved values, the two directions agree:
    /// the owner on record for a name has that name on record, and the name
    /// on record for an account has that account as its owner.
    pub proof fn lemma_reachable_bijection(
        deployer: AccountId,
        calls: Seq<Call>,
        name: Name,
        account: AccountId,
    )
        requires
            RegistryState::fresh(deployer).runs_clean(calls),
        ensures
            ({
                let reached = RegistryState::fresh(deployer).after_all(calls);
                &&& reached.owner_of(name) != AccountId::zero() ==> reached.name_of(
                    reached.owner_of(name),
                ) == name
                &&& reached.name_of(account) != Name::zero() ==> reached.owner_of(
                    reached.name_of(account),
                ) == account
            }),
    {
        RegistryState::lemma_reachable_consistent(deployer, calls);
        RegistryState::fresh(deployer).after_all(calls).lemma_bijection(name, account);
    }

    /// A call looks only at the administrator, at the records of the name and
    /// the accounts it touches, and at the records that answer them. Two
    /// registries that agree there refuse it alike or accept it alike, and
    /// agree afterwards on what it touches.
    pub proof fn lemma_call_is_local(self, other: RegistryState, call: Call)
        requires
            self.same_where_read(other, call),
        ensures
            call.refusal(self) == call.refusal(other),
            self.after(call).admin == other.after(call).admin,
            forall|name: Name|
                #![trigger call.touches_name(name)]
                call.touches_name(name) ==> self.after(call).owner_of(name) == other.after(
                    call,
                ).owner_of(name),
            forall|account: AccountId|
                #![trigger call.touches_account(account)]
                call.touches_account(account) ==> self.after(call).name_of(account) == other.after(
                    call,
                ).name_of(account),
    {
        match call {
            Call::Register { caller, name } => {
                assert(call.touches_name(name));
                assert(call.touches_account(caller));
            },
            Call::ForceRegister { caller, name, to } => {
                assert(call.touches_name(name));
                assert(call.touches_account(to));
            },
            Call::Transfer { caller, name, to } => {
                assert(call.touches_name(name));
                assert(call.touches_account(caller));
                assert(call.touches_account(to));
            },
            Call::ForceTransfer { caller, name, from, to } => {
                assert(call.touches_name(name));
                assert(call.touches_account(from));
                assert(call.touches_account(to));
            },
            Call::TransferAdmin { caller, new_admin } => {},
        }
    }

    /// A call leaves alone what it does not touch: the owner on record for
    /// every other name, and the name on record for every other account.
    pub proof fn lemma_call_leaves_the_rest(self, call: Call, name: Name, account: AccountId)
        ensures
            !call.touches_name(name) ==> self.after(call).owner_of(name) == self.owner_of(name),
            !call.touches_account(account) ==> self.after(call).name_of(account) == self.name_of(
                account,
            ),
    {
    }

    /// A call that asks for the administrator's authority, made by anyone
    /// else, is refused for that reason and changes nothing.
    pub proof fn lemma_authority_is_asked(
        self,
        caller: AccountId,
        name: Name,
        from: AccountId,
        to: AccountId,
        new_admin: AccountId,
    )
        requires
            caller != self.admin,
        ensures
            (Call::ForceRegister { caller, name, to }).refusal(self) == Some(
                Error::CallerIsNotAdmin,
            ),
            (Call::ForceTransfer { caller, name, from, to }).refusal(self) == Some(
                Error::CallerIsNotAdmin,
            ),
            (Call::TransferAdmin { caller, new_admin }).refusal(self) == Some(
                Error::CallerIsNotAdmin,
            ),
            self.after((Call::ForceRegister { caller, name, to })) == self,
            self.after((Call::ForceTransfer { caller, name, from, to })) == self,
            self.after((Call::TransferAdmin { caller, new_admin })) == self,
    {
    }

    /// When a name has been registered, the same call again changes
    /// nothing; it is refused because the name exists, unless the caller is
    /// the zero account, which owns nothing.
    pub proof fn lemma_register_twice(self, caller: AccountId, name: Name)
        requires
            (Call::Register { caller, name }).refusal(self) is None,
        ensures
            self.after((Call::Register { caller, name })).after((Call::Register { caller, name }))
                == self.after((Call::Register { caller, name })),
            caller != AccountId::zero() <==> (Call::Register { caller, name }).refusal(
                self.after((Call::Register { caller, name })),
            ) == Some(Error::NameAlreadyExists),
    {
        let once = self.after((Call::Register { caller, name }));
        assert(once.after((Call::Register { caller, name })) =~= once);
    }
}

} // verus!
