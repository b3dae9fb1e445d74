//! Account identifiers: the principals that hold permissions.

use vstd::prelude::*;
use vstd::std_specs::cmp::PartialEqSpecImpl;

verus! {

/// The identifier of an account. Two identifiers name the same account
/// exactly if they are made of the same characters.
#[derive(Debug, Hash)]
pub struct AccountId {
    id: String,
}

impl View for AccountId {
    type V = Seq<char>;

    /// The characters of the identifier.
    closed spec fn view(&self) -> Seq<char> {
        self.id@
    }
}

impl AccountId {
    /// Makes the identifier spelled `id`.
    pub fn new(id: &str) -> (account_id: AccountId)
        ensures
            account_id@ == id@,
    {
        AccountId { id: id.to_owned() }
    }

    /// Returns the identifier as text.
    pub fn as_str(&self) -> (id: &str)
        ensures
            id@ == self@,
    {
        self.id.as_str()
    }
}

impl Clone for AccountId {
    fn clone(&self) -> (account_id: AccountId)
        ensures
            account_id@ == self@,
    {
        AccountId { id: self.id.clone() }
    }
}

impl PartialEq for AccountId {
    fn eq(&self, other: &AccountId) -> (equal: bool) {
        self.id == other.id
    }
}

impl Eq for AccountId {

}

impl PartialEqSpecImpl for AccountId {
    open spec fn obeys_eq_spec() -> bool {
        true
    }

    open spec fn eq_spec(&self, other: &AccountId) -> bool {
        self@ == other@
    }
}

} // verus!
