//! The two kinds of identifier that the registry relates: names and accounts.
//!
//! Both are opaque strings of thirty-two bytes, equal exactly when their
//! bytes are equal. The string of zero bytes is set apart in each kind: as a
//! name it means "no name", as an account "no owner".

use crate::word::{
    lemma_pack_spec_bytes, lemma_pair_bytes_injective, lemma_zero_pair_bytes, pack, pack_spec,
    pair_bytes, unpack, zero_bytes,
};
use vstd::prelude::*;
use vstd::std_specs::convert::FromSpecImpl;

verus! {

/// An account: a caller, an owner, an administrator.
#[derive(Clone, Copy, Debug, PartialEq, Eq, Structural, PartialOrd, Ord, Hash)]
pub struct AccountId {
    pub(crate) hi: u128,
    pub(crate) lo: u128,
}

/// A name, as the hash-sized value under which it is registered.
#[derive(Clone, Copy, Debug, PartialEq, Eq, Structural, PartialOrd, Ord, Hash)]
pub struct Name {
    pub(crate) hi: u128,
    pub(crate) lo: u128,
}

impl View for AccountId {
    type V = Seq<u8>;

    /// The thirty-two bytes of the account.
    closed spec fn view(&self) -> Seq<u8> {
        pair_bytes(self.hi, self.lo)
    }
}

impl AccountId {
    /// The account made of the bytes `bytes`.
    pub closed spec fn of_bytes(bytes: Seq<u8>) -> AccountId {
        AccountId { hi: pack_spec(bytes).0, lo: pack_spec(bytes).1 }
    }

    /// The zero account, which stands for "no owner".
    pub closed spec fn zero() -> AccountId {
        AccountId { hi: 0, lo: 0 }
    }

    /// An account has thirty-two bytes.
    pub proof fn lemma_view_len(self)
        ensures
            self@.len() == 32,
    {
    }

    /// Accounts with the same bytes are the same account.
    pub proof fn lemma_view_injective(self, other: AccountId)
        requires
            self@ == other@,
        ensures
            self == other,
    {
        lemma_pair_bytes_injective(self.hi, self.lo, other.hi, other.lo);
    }

    /// `of_bytes` gives the account with the bytes it was given.
    pub proof fn lemma_of_bytes(bytes: Seq<u8>)
        requires
            bytes.len() == 32,
        ensures
            AccountId::of_bytes(bytes)@ == bytes,
    {
        lemma_pack_spec_bytes(bytes);
    }

    /// The zero account is the one whose bytes are all zero.
    pub proof fn lemma_zero_view()
        ensures
            AccountId::zero()@ == zero_bytes(),
    {
        lemma_zero_pair_bytes();
    }

    /// The bytes of the account.
    pub fn to_bytes(&self) -> (bytes: [u8; 32])
        ensures
            bytes@ == self@,
    {
        unpack(self.hi, self.lo)
    }
}

impl From<[u8; 32]> for AccountId {
    fn from(bytes: [u8; 32]) -> (account: AccountId)
        ensures
            account@ == bytes@,
    {
        let pair = pack(&bytes);
        AccountId { hi: pair.0, lo: pair.1 }
    }
}

impl FromSpecImpl<[u8; 32]> for AccountId {
    open spec fn obeys_from_spec() -> bool {
        true
    }

    open spec fn from_spec(bytes: [u8; 32]) -> AccountId {
        AccountId::of_bytes(bytes@)
    }
}

impl View for Name {
    type V = Seq<u8>;

    /// The thirty-two bytes of the name.
    closed spec fn view(&self) -> Seq<u8> {
        pair_bytes(self.hi, self.lo)
    }
}

impl Name {
    /// The name made of the bytes `bytes`.
    pub closed spec fn of_bytes(bytes: Seq<u8>) -> Name {
        Name { hi: pack_spec(bytes).0, lo: pack_spec(bytes).1 }
    }

    /// The zero name, which stands for "no name".
    pub closed spec fn zero() -> Name {
        Name { hi: 0, lo: 0 }
    }

    /// A name has thirty-two bytes.
    pub proof fn lemma_view_len(self)
        ensures
            self@.len() == 32,
    {
    }

    /// Names with the same bytes are the same name.
    pub proof fn lemma_view_injective(self, other: Name)
        requires
            self@ == other@,
        ensures
            self == other,
    {
        lemma_pair_bytes_injective(self.hi, self.lo, other.hi, other.lo);
    }

    /// `of_bytes` gives the name with the bytes it was given.
    pub proof fn lemma_of_bytes(bytes: Seq<u8>)
        requires
            bytes.len() == 32,
        ensures
            Name::of_bytes(bytes)@ == bytes,
    {
        lemma_pack_spec_bytes(bytes);
    }

    /// The zero name is the one whose bytes are all zero.
    pub proof fn lemma_zero_view()
        ensures
            Name::zero()@ == zero_bytes(),
    {
        lemma_zero_pair_bytes();
    }

    /// The bytes of the name.
    pub fn to_bytes(&self) -> (bytes: [u8; 32])
        ensures
            bytes@ == self@,
    {
        unpack(self.hi, self.lo)
    }
}

impl From<[u8; 32]> for Name {
    fn from(bytes: [u8; 32]) -> (name: Name)
        ensures
            name@ == bytes@,
    {
        let pair = pack(&bytes);
        Name { hi: pair.0, lo: pair.1 }
    }
}

impl FromSpecImpl<[u8; 32]> for Name {
    open spec fn obeys_from_spec() -> bool {
        true
    }

    open spec fn from_spec(bytes: [u8; 32]) -> Name {
        Name::of_bytes(bytes@)
    }
}

impl Default for Name {
    /// The zero name.
    fn default() -> (name: Name)
        ensures
            name == Name::zero(),
            name@ == zero_bytes(),
    {
        proof {
            lemma_zero_pair_bytes();
        }
        Name { hi: 0, lo: 0 }
    }
}

/// The zero account.
pub fn zero_address() -> (account: AccountId)
    ensures
        account == AccountId::zero(),
        account@ == zero_bytes(),
{
    proof {
        lemma_zero_pair_bytes();
    }
    AccountId { hi: 0, lo: 0 }
}

} // verus!
