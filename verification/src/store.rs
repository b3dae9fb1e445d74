//! The permission store: which permissions each account holds.
//!
//! An account without an entry holds no permission: reading it is never an
//! error, and an entry that holds nothing means the same as no entry.

use crate::account::AccountId;
use crate::permissions::{AclPermissions, Permission};
use vstd::prelude::*;

verus! {

/// What a permission store holds: for each account that has an entry, the
/// set of its permissions.
pub type Holdings = Map<Seq<char>, Set<Permission>>;

/// The permissions that `account_id` holds in `holdings`: those of its
/// entry, or none where it has no entry.
pub open spec fn held(holdings: Holdings, account_id: Seq<char>) -> Set<Permission> {
    if holdings.dom().contains(account_id) {
        holdings[account_id]
    } else {
        Set::empty()
    }
}

struct Entry {
    account_id: AccountId,
    permissions: AclPermissions,
}

spec fn distinct(entries: Seq<Entry>) -> bool {
    forall|i: int, j: int|
        0 <= i < j < entries.len() ==> (#[trigger] entries[i]).account_id@ != (
        #[trigger] entries[j]).account_id@
}

spec fn is_entry_of(entries: Seq<Entry>, account_id: Seq<char>, i: int) -> bool {
    0 <= i < entries.len() && entries[i].account_id@ == account_id
}

spec fn has_entry(entries: Seq<Entry>, account_id: Seq<char>) -> bool {
    exists|i: int| is_entry_of(entries, account_id, i)
}

spec fn entry_index(entries: Seq<Entry>, account_id: Seq<char>) -> int {
    choose|i: int| is_entry_of(entries, account_id, i)
}

spec fn holdings_of(entries: Seq<Entry>) -> Holdings {
    Map::new(
        |account_id: Seq<char>| has_entry(entries, account_id),
        |account_id: Seq<char>| entries[entry_index(entries, account_id)].permissions@,
    )
}

/// With distinct accounts, the entry at `i` is the one that the holdings
/// show for its account.
proof fn lemma_entry_shown(entries: Seq<Entry>, i: int)
    requires
        distinct(entries),
        0 <= i < entries.len(),
    ensures
        holdings_of(entries).dom().contains(entries[i].account_id@),
        holdings_of(entries)[entries[i].account_id@] == entries[i].permissions@,
        entry_index(entries, entries[i].account_id@) == i,
{
    let account_id = entries[i].account_id@;
    assert(is_entry_of(entries, account_id, i));
    let j = entry_index(entries, account_id);
    assert(is_entry_of(entries, account_id, j));
    if j != i {
        if j < i {
            assert(entries[j].account_id@ != entries[i].account_id@);
        } else {
            assert(entries[i].account_id@ != entries[j].account_id@);
        }
    }
}

/// Replacing the permissions of the entry at `i` replaces them in the
/// holdings, and changes nothing else.
proof fn lemma_entry_replaced(before: Seq<Entry>, after: Seq<Entry>, i: int)
    requires
        distinct(before),
        0 <= i < before.len(),
        after.len() == before.len(),
        after[i].account_id@ == before[i].account_id@,
        forall|j: int| 0 <= j < before.len() && j != i ==> after[j] == before[j],
    ensures
        distinct(after),
        holdings_of(after) == holdings_of(before).insert(
            before[i].account_id@,
            after[i].permissions@,
        ),
{
    assert forall|a: int, b: int| 0 <= a < b < after.len() implies (#[trigger] after[a]).account_id@
        != (#[trigger] after[b]).account_id@ by {
        assert(before[a].account_id@ != before[b].account_id@);
    }
    let target = before[i].account_id@;
    let expected = holdings_of(before).insert(target, after[i].permissions@);
    assert forall|account_id: Seq<char>|
        holdings_of(after).dom().contains(account_id) <==> expected.dom().contains(
            account_id,
        ) by {
        if has_entry(after, account_id) {
            let j = entry_index(after, account_id);
            assert(is_entry_of(before, account_id, j));
        }
        if has_entry(before, account_id) {
            let j = entry_index(before, account_id);
            assert(is_entry_of(after, account_id, j));
        }
        if account_id == target {
            assert(is_entry_of(after, account_id, i));
        }
    }
    assert forall|account_id: Seq<char>|
        holdings_of(after).dom().contains(account_id) implies holdings_of(after)[account_id]
        == expected[account_id] by {
        let j = entry_index(after, account_id);
        lemma_entry_shown(after, j);
        if account_id != target {
            lemma_entry_shown(before, j);
        }
    }
    assert(holdings_of(after) =~= expected);
}

/// Appending an entry for an account that has none adds it to the
/// holdings, and changes nothing else.
proof fn lemma_entry_appended(before: Seq<Entry>, entry: Entry)
    requires
        distinct(before),
        !has_entry(before, entry.account_id@),
    ensures
        distinct(before.push(entry)),
        holdings_of(before.push(entry)) == holdings_of(before).insert(
            entry.account_id@,
            entry.permissions@,
        ),
{
    let after = before.push(entry);
    let last = before.len() as int;
    assert forall|a: int, b: int| 0 <= a < b < after.len() implies (#[trigger] after[a]).account_id@
        != (#[trigger] after[b]).account_id@ by {
        if b == last {
            assert(!is_entry_of(before, entry.account_id@, a));
        } else {
            assert(before[a].account_id@ != before[b].account_id@);
        }
    }
    let expected = holdings_of(before).insert(entry.account_id@, entry.permissions@);
    assert forall|account_id: Seq<char>|
        holdings_of(after).dom().contains(account_id) <==> expected.dom().contains(
            account_id,
        ) by {
        if has_entry(after, account_id) {
            let j = entry_index(after, account_id);
            if j != last {
                assert(is_entry_of(before, account_id, j));
            }
        }
        if has_entry(before, account_id) {
            let j = entry_index(before, account_id);
            assert(is_entry_of(after, account_id, j));
        }
        if account_id == entry.account_id@ {
            assert(is_entry_of(after, account_id, last));
        }
    }
    assert forall|account_id: Seq<char>|
        holdings_of(after).dom().contains(account_id) implies holdings_of(after)[account_id]
        == expected[account_id] by {
        let j = entry_index(after, account_id);
        lemma_entry_shown(after, j);
        if j != last {
            lemma_entry_shown(before, j);
        }
    }
    assert(holdings_of(after) =~= expected);
}

/// Maps each account to the permissions it holds.
pub struct PermissionStore {
    entries: Vec<Entry>,
}

impl View for PermissionStore {
    type V = Holdings;

    /// The holdings: one entry for each stored account.
    closed spec fn view(&self) -> Holdings {
        holdings_of(self.entries@)
    }
}

impl PermissionStore {
    #[verifier::type_invariant]
    spec fn one_entry_per_account(self) -> bool {
        distinct(self.entries@)
    }

    /// Makes a store without entries.
    pub fn new() -> (store: PermissionStore)
        ensures
            store@ == Map::<Seq<char>, Set<Permission>>::empty(),
    {
        let store = PermissionStore { entries: Vec::new() };
        proof {
            assert forall|account_id: Seq<char>| !store@.dom().contains(account_id) by {
                if has_entry(store.entries@, account_id) {
                    let j = entry_index(store.entries@, account_id);
                    assert(is_entry_of(store.entries@, account_id, j));
                }
            }
            assert(store@ =~= Map::<Seq<char>, Set<Permission>>::empty());
        }
        store
    }

    /// Where the entry of `account_id` stands, if it has one.
    fn find(&self, account_id: &AccountId) -> (found: Option<usize>)
        ensures
            match found {
                Some(i) => is_entry_of(self.entries@, account_id@, i as int),
                None => !has_entry(self.entries@, account_id@),
            },
    {
        let mut i: usize = 0;
        while i < self.entries.len()
            invariant
                i <= self.entries.len(),
                forall|j: int| 0 <= j < i ==> !is_entry_of(self.entries@, account_id@, j),
            decreases self.entries.len() - i,
        {
            if self.entries[i].account_id == *account_id {
                return Some(i);
            }
            i += 1;
        }
        proof {
            if has_entry(self.entries@, account_id@) {
                let j = entry_index(self.entries@, account_id@);
                assert(is_entry_of(self.entries@, account_id@, j));
            }
        }
        None
    }

    /// Returns the stored permissions of `account_id`, or `None` where it
    /// has no entry.
    pub fn get(&self, account_id: &AccountId) -> (stored: Option<AclPermissions>)
        ensures
            stored is Some <==> self@.dom().contains(account_id@),
            stored matches Some(permissions) ==> permissions@ == self@[account_id@],
    {
        proof {
            use_type_invariant(self);
        }
        match self.find(account_id) {
            Some(i) => {
                proof {
                    lemma_entry_shown(self.entries@, i as int);
                }
                Some(self.entries[i].permissions)
            },
            None => None,
        }
    }

    /// Returns the permissions of `account_id`. If there are no permissions
    /// stored for `account_id`, it returns an empty, newly initialized set of
    /// permissions. Nothing is stored by this.
    pub fn peek(&self, account_id: &AccountId) -> (permissions: AclPermissions)
        ensures
            permissions@ == held(self@, account_id@),
    {
        match self.get(account_id) {
            Some(permissions) => permissions,
            None => AclPermissions::empty(),
        }
    }

    /// Returns the permissions of `account_id`, after storing an empty set
    /// for it where it had no entry.
    pub fn materialize(&mut self, account_id: &AccountId) -> (permissions: AclPermissions)
        ensures
            permissions@ == held(old(self)@, account_id@),
            final(self)@ == if old(self)@.dom().contains(account_id@) {
                old(self)@
            } else {
                old(self)@.insert(account_id@, Set::empty())
            },
    {
        match self.get(account_id) {
            Some(permissions) => permissions,
            None => {
                let permissions = AclPermissions::empty();
                self.store(account_id, permissions);
                permissions
            },
        }
    }

    /// Stores `permissions` as the permissions of `account_id`, in place of
    /// what was stored for it before.
    pub fn store(&mut self, account_id: &AccountId, permissions: AclPermissions)
        ensures
            final(self)@ == old(self)@.insert(account_id@, permissions@),
    {
        proof {
            use_type_invariant(&*self);
        }
        let entry = Entry { account_id: account_id.clone(), permissions };
        let found = self.find(account_id);
        let mut entries: Vec<Entry> = Vec::new();
        core::mem::swap(&mut self.entries, &mut entries);
        match found {
            Some(i) => {
                proof {
                    lemma_entry_replaced(entries@, entries@.update(i as int, entry), i as int);
                }
                entries.set(i, entry);
            },
            None => {
                proof {
                    lemma_entry_appended(entries@, entry);
                }
                entries.push(entry);
            },
        }
        self.entries = entries;
    }
}

} // verus!
