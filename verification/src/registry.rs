//! The registry itself: two maps that answer each other, and an
//! administrator.

use crate::error::Error;
use crate::event::{Register, Transfer, TransferAdmin};
use crate::history::Call;
use crate::ident::{zero_address, AccountId, Name};
use crate::model::RegistryState;
use std::collections::BTreeMap;
use vstd::prelude::*;

verus! {

broadcast use vstd::laws_cmp::group_laws_cmp;

/// A name service: it associates a name with an account, and an account with
/// a name.
///
/// Every call names the account that makes it. The registry takes that
/// identity as given, and whoever hosts the registry vouches for it. A call
/// that is refused changes nothing; one that is not refused returns the event
/// to report.
pub struct P2pNameService {
    /// The owner on record for each name, filed under the name's two words.
    name_to_address: BTreeMap<(u128, u128), AccountId>,
    /// The name on record for each account, filed under the account's two words.
    address_to_name: BTreeMap<(u128, u128), Name>,
    /// The administrator.
    admin_address: AccountId,
}

impl View for P2pNameService {
    type V = RegistryState;

    closed spec fn view(&self) -> RegistryState {
        RegistryState {
            owners: Map::total(
                |name: Name|
                    if self.name_to_address@.contains_key((name.hi, name.lo)) {
                        self.name_to_address@[(name.hi, name.lo)]
                    } else {
                        AccountId::zero()
                    },
            ),
            names: Map::total(
                |account: AccountId|
                    if self.address_to_name@.contains_key((account.hi, account.lo)) {
                        self.address_to_name@[(account.hi, account.lo)]
                    } else {
                        Name::zero()
                    },
            ),
            admin: self.admin_address,
        }
    }
}

impl P2pNameService {
    /// What a registry holds is total: there is a record, if only a zero one,
    /// for every name and every account.
    pub proof fn lemma_view_is_total(&self)
        ensures
            self@.is_total(),
    {
    }

    /// A registry with nothing on record, whose administrator is `deployer`.
    pub fn new(deployer: AccountId) -> (service: P2pNameService)
        ensures
            service@ == RegistryState::fresh(deployer),
            service@.consistent(),
    {
        let service = P2pNameService {
            name_to_address: BTreeMap::new(),
            address_to_name: BTreeMap::new(),
            admin_address: deployer,
        };
        assert(service@ =~= RegistryState::fresh(deployer));
        service
    }

    /// A registry with the records given, whose administrator is `admin`:
    /// for a host that keeps the records elsewhere between calls.
    ///
    /// Each name of `owners` gets the owner beside it and each account of
    /// `names` the name beside it; where a name or an account occurs twice,
    /// its last record counts.
    pub fn from_records(
        admin: AccountId,
        owners: &Vec<(Name, AccountId)>,
        names: &Vec<(AccountId, Name)>,
    ) -> (service: P2pNameService)
        ensures
            service@ == RegistryState::fresh(admin).with_owners(owners@).with_names(names@),
    {
        let mut service = P2pNameService::new(admin);
        let mut i: usize = 0;
        assert(owners@.take(0) =~= Seq::empty());
        while i < owners.len()
            invariant
                i <= owners.len(),
                service@ == RegistryState::fresh(admin).with_owners(owners@.take(i as int)),
            decreases owners.len() - i,
        {
            let (name, owner) = owners[i];
            service.name_to_address.insert((name.hi, name.lo), owner);
            proof {
                let before = owners@.take(i as int);
                let now = owners@.take(i + 1);
                assert(now.drop_last() =~= before);
                assert(service@ =~= RegistryState::fresh(admin).with_owners(before).with_owner(
                    name,
                    owner,
                ));
            }
            i = i + 1;
        }
        assert(owners@.take(owners.len() as int) =~= owners@);
        let ghost filled = service@;
        let mut j: usize = 0;
        assert(names@.take(0) =~= Seq::empty());
        while j < names.len()
            invariant
                j <= names.len(),
                service@ == filled.with_names(names@.take(j as int)),
            decreases names.len() - j,
        {
            let (account, name) = names[j];
            service.address_to_name.insert((account.hi, account.lo), name);
            proof {
                let before = names@.take(j as int);
                let now = names@.take(j + 1);
                assert(now.drop_last() =~= before);
                assert(service@ =~= filled.with_names(before).with_name(account, name));
            }
            j = j + 1;
        }
        assert(names@.take(names.len() as int) =~= names@);
        service
    }

    /// Registers `name` with `caller` as its owner.
    ///
    /// Refused with `NameAlreadyExists` if the name is owned, by the caller
    /// or by anyone else, and otherwise with `AccountAlreadyHasName` if the
    /// caller owns a name.
    pub fn register(&mut self, caller: AccountId, name: Name) -> (result: Result<Register, Error>)
        ensures
            match old(self)@.register_refusal(caller, name) {
                Some(error) => result == Err::<Register, Error>(error)
                    && *final(self) == *old(self),
                None => result == Ok::<Register, Error>((Register { name, from: caller }))
                    && final(self)@ == old(self)@.linked(caller, name),
            },
            final(self)@ == old(self)@.after((Call::Register { caller, name })),
            old(self)@.consistent() ==> (final(self)@.consistent() <==> (result is Err
                || (Call::Register { caller, name }).respects_reserved())),
    {
        if self.name_has_owner(name) {
            return Err(Error::NameAlreadyExists);
        }
        if self.account_has_name(caller) {
            return Err(Error::AccountAlreadyHasName);
        }
        self.set_account_name(caller, name);
        proof {
            if old(self)@.consistent() {
                old(self)@.lemma_linked_consistent(caller, name);
            }
        }
        Ok(Register { name, from: caller })
    }

    /// Registers `name` with `to` as its owner, on the administrator's
    /// authority.
    ///
    /// Refused with `CallerIsNotAdmin` if `caller` is not the administrator,
    /// otherwise with `NameAlreadyExists` if the name is owned, and otherwise
    /// with `AccountAlreadyHasName` if `to` owns a name.
    pub fn force_register(&mut self, caller: AccountId, name: Name, to: AccountId) -> (result:
        Result<Register, Error>)
        ensures
            match old(self)@.force_register_refusal(caller, name, to) {
                Some(error) => result == Err::<Register, Error>(error)
                    && *final(self) == *old(self),
                None => result == Ok::<Register, Error>((Register { name, from: caller }))
                    && final(self)@ == old(self)@.linked(to, name),
            },
            final(self)@ == old(self)@.after((Call::ForceRegister { caller, name, to })),
            caller != old(self)@.admin ==> result == Err::<Register, Error>(
                Error::CallerIsNotAdmin,
            ) && *final(self) == *old(self),
            old(self)@.consistent() ==> (final(self)@.consistent() <==> (result is Err
                || (Call::ForceRegister { caller, name, to }).respects_reserved())),
    {
        let admin = self.admin_address;
        if caller != admin {
            return Err(Error::CallerIsNotAdmin);
        }
        if self.name_has_owner(name) {
            return Err(Error::NameAlreadyExists);
        }
        if self.account_has_name(to) {
            return Err(Error::AccountAlreadyHasName);
        }
        self.set_account_name(to, name);
        proof {
            if old(self)@.consistent() {
                old(self)@.lemma_linked_consistent(to, name);
            }
        }
        Ok(Register { name, from: caller })
    }

    /// Gives `name` to `to`, on the word of its owner.
    ///
    /// Refused with `CallerIsNotOwner` if `caller` is not the owner on
    /// record for `name` (for a name with no owner on record that is the zero
    /// account), and otherwise with `AccountAlreadyHasName` if `to` owns a
    /// name. The event carries the owner that the name had before the call.
    pub fn transfer(&mut self, caller: AccountId, name: Name, to: AccountId) -> (result: Result<
        Transfer,
        Error,
    >)
        ensures
            match old(self)@.transfer_refusal(caller, name, to) {
                Some(error) => result == Err::<Transfer, Error>(error)
                    && *final(self) == *old(self),
                None => result == Ok::<Transfer, Error>(
                    (Transfer {
                        name,
                        from: caller,
                        old_owner: old(self)@.recorded_owner(name),
                        new_owner: to,
                    }),
                ) && final(self)@ == old(self)@.moved(name, to),
            },
            final(self)@ == old(self)@.after((Call::Transfer { caller, name, to })),
            old(self)@.consistent() ==> (final(self)@.consistent() <==> (result is Err
                || (Call::Transfer { caller, name, to }).respects_reserved())),
    {
        let owner = self.get_owner_of_or_default(name);
        if caller != owner {
            return Err(Error::CallerIsNotOwner);
        }
        if self.account_has_name(to) {
            return Err(Error::AccountAlreadyHasName);
        }
        let old_owner = if owner == zero_address() {
            None
        } else {
            Some(owner)
        };
        self.remove_account_name(owner, name);
        self.set_account_name(to, name);
        proof {
            if old(self)@.consistent() {
                old(self)@.lemma_moved_consistent(name, to);
            }
        }
        Ok(Transfer { name, from: caller, old_owner, new_owner: to })
    }

    /// Takes `name` from `from` and gives it to `to`, on the administrator's
    /// authority.
    ///
    /// Refused with `CallerIsNotAdmin` if `caller` is not the administrator,
    /// otherwise with `CallerIsNotOwner` if `from` is not the owner on record
    /// for `name`, and otherwise with `AccountAlreadyHasName` if `to` owns a
    /// name. The event names the administrator as the one the call came from,
    /// and carries the owner that the name had before the call.
    pub fn force_transfer(
        &mut self,
        caller: AccountId,
        name: Name,
        from: AccountId,
        to: AccountId,
    ) -> (result: Result<Transfer, Error>)
        ensures
            match old(self)@.force_transfer_refusal(caller, name, from, to) {
                Some(error) => result == Err::<Transfer, Error>(error)
                    && *final(self) == *old(self),
                None => result == Ok::<Transfer, Error>(
                    (Transfer {
                        name,
                        from: caller,
                        old_owner: old(self)@.recorded_owner(name),
                        new_owner: to,
                    }),
                ) && final(self)@ == old(self)@.moved(name, to),
            },
            final(self)@ == old(self)@.after((Call::ForceTransfer { caller, name, from, to })),
            caller != old(self)@.admin ==> result == Err::<Transfer, Error>(
                Error::CallerIsNotAdmin,
            ) && *final(self) == *old(self),
            old(self)@.consistent() ==> (final(self)@.consistent() <==> (result is Err
                || (Call::ForceTransfer { caller, name, from, to }).respects_reserved())),
    {
        let owner = self.get_owner_of_or_default(name);
        if caller != self.admin_address {
            return Err(Error::CallerIsNotAdmin);
        }
        if from != owner {
            return Err(Error::CallerIsNotOwner);
        }
        if self.account_has_name(to) {
            return Err(Error::AccountAlreadyHasName);
        }
        let old_owner = if owner == zero_address() {
            None
        } else {
            Some(owner)
        };
        self.remove_account_name(owner, name);
        self.set_account_name(to, name);
        proof {
            if old(self)@.consistent() {
                old(self)@.lemma_moved_consistent(name, to);
            }
        }
        Ok(Transfer { name, from: caller, old_owner, new_owner: to })
    }

    /// Hands the administration to `new_admin`.
    ///
    /// Refused with `CallerIsNotAdmin` if `caller` is not the administrator.
    /// Handing it to the account that already holds it is not refused, and is
    /// reported like any other.
    pub fn transfer_admin(&mut self, caller: AccountId, new_admin: AccountId) -> (result: Result<
        TransferAdmin,
        Error,
    >)
        ensures
            match old(self)@.transfer_admin_refusal(caller) {
                Some(error) => result == Err::<TransferAdmin, Error>(error) && *final(self)
                    == *old(self),
                None => result == Ok::<TransferAdmin, Error>(
                    (TransferAdmin { from: caller, new_admin }),
                ) && final(self)@ == old(self)@.with_admin(new_admin),
            },
            final(self)@ == old(self)@.after((Call::TransferAdmin { caller, new_admin })),
            caller != old(self)@.admin ==> result == Err::<TransferAdmin, Error>(
                Error::CallerIsNotAdmin,
            ) && *final(self) == *old(self),
            old(self)@.consistent() ==> final(self)@.consistent(),
    {
        if caller != self.admin_address {
            return Err(Error::CallerIsNotAdmin);
        }
        self.admin_address = new_admin;
        assert(self@ =~= old(self)@.with_admin(new_admin));
        Ok(TransferAdmin { from: caller, new_admin })
    }

    /// The administrator.
    pub fn get_admin(&self) -> (admin: AccountId)
        ensures
            admin == self@.admin,
    {
        self.admin_address
    }

    /// The name on record for `address`, or the zero name if there is none.
    pub fn name_of(&self, address: AccountId) -> (name: Name)
        ensures
            name == self@.name_of(address),
    {
        self.get_name_of_or_default(address)
    }

    /// The owner on record for `name`, or the zero account if there is none.
    pub fn owner_of(&self, name: Name) -> (owner: AccountId)
        ensures
            owner == self@.owner_of(name),
    {
        self.get_owner_of_or_default(name)
    }

    /// Whether `name` is owned: it has an owner on record, and that owner's
    /// name on record is `name`.
    pub fn name_has_owner(&self, name: Name) -> (owned: bool)
        ensures
            owned == self@.name_has_owner(name),
    {
        let address = self.get_owner_of_or_default(name);
        if address == zero_address() {
            return false;
        }
        let fetched_name = self.get_name_of_or_default(address);
        fetched_name == name
    }

    /// Whether `account` owns a name: it has a name on record, and that
    /// name's owner on record is `account`.
    pub fn account_has_name(&self, account: AccountId) -> (owns: bool)
        ensures
            owns == self@.account_has_name(account),
    {
        let name = self.get_name_of_or_default(account);
        if name == Name::default() {
            return false;
        }
        let fetched_account = self.get_owner_of_or_default(name);
        fetched_account == account
    }

    fn get_name_of_or_default(&self, address: AccountId) -> (name: Name)
        ensures
            name == self@.name_of(address),
    {
        let key = (address.hi, address.lo);
        match self.address_to_name.get(&key) {
            Some(name) => *name,
            None => Name::default(),
        }
    }

    fn get_owner_of_or_default(&self, name: Name) -> (owner: AccountId)
        ensures
            owner == self@.owner_of(name),
    {
        let key = (name.hi, name.lo);
        match self.name_to_address.get(&key) {
            Some(owner) => *owner,
            None => zero_address(),
        }
    }

    /// Puts `address` on record as the owner of `name`, and `name` as the
    /// name of `address`.
    fn set_account_name(&mut self, address: AccountId, name: Name)
        ensures
            final(self)@ == old(self)@.linked(address, name),
    {
        self.name_to_address.insert((name.hi, name.lo), address);
        self.address_to_name.insert((address.hi, address.lo), name);
        assert(self@ =~= old(self)@.linked(address, name));
    }

    /// Clears the owner on record for `name` and the name on record for
    /// `account`.
    fn remove_account_name(&mut self, account: AccountId, name: Name)
        ensures
            final(self)@ == old(self)@.unlinked(account, name),
    {
        self.name_to_address.insert((name.hi, name.lo), zero_address());
        self.address_to_name.insert((account.hi, account.lo), Name::default());
        assert(self@ =~= old(self)@.unlinked(account, name));
    }
}

impl Default for P2pNameService {
    /// A registry with nothing on record, whose administrator is the zero
    /// account.
    fn default() -> (service: P2pNameService)
        ensures
            service@ == RegistryState::fresh(AccountId::zero()),
            service@.consistent(),
    {
        P2pNameService::new(zero_address())
    }
}

} // verus!
