//! A contract that guards its methods with the access control list.
//!
//! The account that makes a call is handed to each method, and events go
//! to the log that the method is given.

use crate::account::AccountId;
use crate::acl::{
    has_role_in, is_admin_in, step, Acl, Call, EnforcementFailure, Requirement, State,
};
use crate::event::{AclEventId, EventLog, EventRecord};
use crate::permissions::{AclPermissions, Permission};
use crate::role::Role;
use crate::store::Holdings;
use vstd::prelude::*;

verus! {

/// The state after `caller` has constructed the contract, starting from a
/// log that holds `log`: `caller` has been made admin of every role, in
/// catalog order, by unchecked calls of its own.
pub open spec fn bootstrapped(caller: Seq<char>, log: Seq<EventRecord>) -> State {
    let empty = State::of(Map::empty(), log);
    let first = step(empty, Call::unchecked(AclEventId::AdminAdded, Role::L1, caller, caller));
    let second = step(first, Call::unchecked(AclEventId::AdminAdded, Role::L2, caller, caller));
    step(second, Call::unchecked(AclEventId::AdminAdded, Role::L3, caller, caller))
}

/// The contract: a counter, and the list of who may do what.
pub struct Counter {
    counter: u64,
    acl: Acl,
}

impl View for Counter {
    type V = Holdings;

    /// What every account holds in the contract's access control list.
    closed spec fn view(&self) -> Holdings {
        self.acl@
    }
}

impl Counter {
    /// The value of the counter.
    pub closed spec fn spec_counter(&self) -> u64 {
        self.counter
    }

    /// Constructs the contract for `caller`, who becomes admin of every
    /// role and holds none of them.
    pub fn new(caller: &AccountId, log: &mut EventLog) -> (contract: Counter)
        ensures
            contract.spec_counter() == 0,
            State::of(contract@, final(log)@) == bootstrapped(caller@, old(log)@),
            forall|role: Role|
                is_admin_in(contract@, role, caller@) && !has_role_in(contract@, role, caller@),
    {
        let mut contract = Counter { counter: 0, acl: Acl::new() };

        contract.acl.add_admin_unchecked(Role::L1, caller, caller, log);
        contract.acl.add_admin_unchecked(Role::L2, caller, caller, log);
        contract.acl.add_admin_unchecked(Role::L3, caller, caller, log);

        contract
    }

    /// Makes the contract whose counter stands at `counter` and whose
    /// access control list is `acl`.
    pub fn from_parts(counter: u64, acl: Acl) -> (contract: Counter)
        ensures
            contract.spec_counter() == counter,
            contract@ == acl@,
    {
        Counter { counter, acl }
    }

    /// Returns the value of the counter.
    #[verifier::when_used_as_spec(spec_counter)]
    pub fn counter(&self) -> (counter: u64)
        ensures
            counter == self.spec_counter(),
    {
        self.counter
    }

    /// Returns the access control list of the contract.
    pub fn acl(&self) -> (acl: &Acl)
        ensures
            acl@ == self@,
    {
        &self.acl
    }

    /// Open to a caller who holds role `L2`.
    pub fn foo2(&self, caller: &AccountId) -> (checked: Result<(), EnforcementFailure>)
        ensures
            checked is Ok <==> has_role_in(self@, Role::L2, caller@),
            checked matches Err(failure) ==> {
                &&& failure.requirement == Requirement::Any
                &&& failure.required@ == set![Permission::Grant(Role::L2)]
                &&& failure.account_id@ == caller@
            },
    {
        self.acl.check_any(AclPermissions::of(Permission::Grant(Role::L2)), caller)
    }

    /// Open to a caller who holds role `L1` or role `L2`.
    pub fn foo3(&self, caller: &AccountId) -> (checked: Result<(), EnforcementFailure>)
        ensures
            checked is Ok <==> has_role_in(self@, Role::L1, caller@) || has_role_in(
                self@,
                Role::L2,
                caller@,
            ),
            checked matches Err(failure) ==> {
                &&& failure.requirement == Requirement::Any
                &&& failure.required@ == set![
                    Permission::Grant(Role::L1),
                    Permission::Grant(Role::L2),
                ]
                &&& failure.account_id@ == caller@
            },
    {
        let required = AclPermissions::of(Permission::Grant(Role::L1)).union(
            AclPermissions::of(Permission::Grant(Role::L2)),
        );
        assert(required@ =~= set![Permission::Grant(Role::L1), Permission::Grant(Role::L2)]);
        self.acl.check_any(required, caller)
    }

    /// Open to a caller who holds both role `L1` and role `L3`.
    pub fn foo4(&self, caller: &AccountId) -> (checked: Result<(), EnforcementFailure>)
        ensures
            checked is Ok <==> has_role_in(self@, Role::L1, caller@) && has_role_in(
                self@,
                Role::L3,
                caller@,
            ),
            checked matches Err(failure) ==> {
                &&& failure.requirement == Requirement::All
                &&& failure.required@ == set![
                    Permission::Grant(Role::L1),
                    Permission::Grant(Role::L3),
                ]
                &&& failure.account_id@ == caller@
            },
    {
        let required = AclPermissions::of(Permission::Grant(Role::L1)).union(
            AclPermissions::of(Permission::Grant(Role::L3)),
        );
        assert(required@ =~= set![Permission::Grant(Role::L1), Permission::Grant(Role::L3)]);
        self.acl.check_all(required, caller)
    }

    /// Returns whether `account_id` is an admin for `role`.
    pub fn acl_is_admin(&self, role: Role, account_id: &AccountId) -> (is_admin: bool)
        ensures
            is_admin == is_admin_in(self@, role, account_id@),
    {
        self.acl.is_admin(role, account_id)
    }

    /// Makes `account_id` an admin for `role` on behalf of `caller`.
    /// Returns `None` if `caller` is not an admin for `role`, and else
    /// whether `account_id` was newly made an admin.
    pub fn acl_add_admin(
        &mut self,
        role: Role,
        account_id: &AccountId,
        caller: &AccountId,
        log: &mut EventLog,
    ) -> (added: Option<bool>)
        ensures
            added == Call::checked(AclEventId::AdminAdded, role, account_id@, caller@).outcome(
                old(self)@,
            ).spec_applied(),
            State::of(final(self)@, final(log)@) == step(
                State::of(old(self)@, old(log)@),
                Call::checked(AclEventId::AdminAdded, role, account_id@, caller@),
            ),
            final(self).spec_counter() == old(self).spec_counter(),
    {
        self.acl.add_admin(role, account_id, caller, log).applied()
    }

    /// Takes the admin permission for `role` from `account_id` on behalf
    /// of `caller`. Returns `None` if `caller` is not an admin for `role`,
    /// and else whether `account_id` held the permission.
    pub fn acl_revoke_admin(
        &mut self,
        role: Role,
        account_id: &AccountId,
        caller: &AccountId,
        log: &mut EventLog,
    ) -> (revoked: Option<bool>)
        ensures
            revoked == Call::checked(
                AclEventId::AdminRevoked,
                role,
                account_id@,
                caller@,
            ).outcome(old(self)@).spec_applied(),
            State::of(final(self)@, final(log)@) == step(
                State::of(old(self)@, old(log)@),
                Call::checked(AclEventId::AdminRevoked, role, account_id@, caller@),
            ),
            final(self).spec_counter() == old(self).spec_counter(),
    {
        self.acl.revoke_admin(role, account_id, caller, log).applied()
    }

    /// Takes the admin permission for `role` from `caller` itself. Returns
    /// whether `caller` held it.
    pub fn acl_renounce_admin(
        &mut self,
        role: Role,
        caller: &AccountId,
        log: &mut EventLog,
    ) -> (renounced: bool)
        ensures
            renounced == Call::unchecked(AclEventId::AdminRevoked, role, caller@, caller@).changes(
                old(self)@,
            ),
            State::of(final(self)@, final(log)@) == step(
                State::of(old(self)@, old(log)@),
                Call::unchecked(AclEventId::AdminRevoked, role, caller@, caller@),
            ),
            final(self).spec_counter() == old(self).spec_counter(),
    {
        self.acl.renounce_admin(role, caller, log)
    }

    /// Returns whether `account_id` has been granted `role`.
    pub fn acl_has_role(&self, role: Role, account_id: &AccountId) -> (has_role: bool)
        ensures
            has_role == has_role_in(self@, role, account_id@),
    {
        self.acl.has_role(role, account_id)
    }

    /// Grants `role` to `account_id` on behalf of `caller`. Returns `None`
    /// if `caller` is not an admin for `role`, and else whether the role
    /// was newly granted.
    pub fn acl_grant_role(
        &mut self,
        role: Role,
        account_id: &AccountId,
        caller: &AccountId,
        log: &mut EventLog,
    ) -> (granted: Option<bool>)
        ensures
            granted == Call::checked(AclEventId::RoleGranted, role, account_id@, caller@).outcome(
                old(self)@,
            ).spec_applied(),
            State::of(final(self)@, final(log)@) == step(
                State::of(old(self)@, old(log)@),
                Call::checked(AclEventId::RoleGranted, role, account_id@, caller@),
            ),
            final(self).spec_counter() == old(self).spec_counter(),
    {
        self.acl.grant_role(role, account_id, caller, log).applied()
    }

    /// Revokes `role` from `account_id` on behalf of `caller`. Returns
    /// `None` if `caller` is not an admin for `role`, and else whether
    /// `account_id` held the role.
    pub fn acl_revoke_role(
        &mut self,
        role: Role,
        account_id: &AccountId,
        caller: &AccountId,
        log: &mut EventLog,
    ) -> (revoked: Option<bool>)
        ensures
            revoked == Call::checked(AclEventId::RoleRevoked, role, account_id@, caller@).outcome(
                old(self)@,
            ).spec_applied(),
            State::of(final(self)@, final(log)@) == step(
                State::of(old(self)@, old(log)@),
                Call::checked(AclEventId::RoleRevoked, role, account_id@, caller@),
            ),
            final(self).spec_counter() == old(self).spec_counter(),
    {
        self.acl.revoke_role(role, account_id, caller, log).applied()
    }

    /// Revokes `role` from `caller` itself. Returns whether `caller` held
    /// it.
    pub fn acl_renounce_role(
        &mut self,
        role: Role,
        caller: &AccountId,
        log: &mut EventLog,
    ) -> (renounced: bool)
        ensures
            renounced == Call::unchecked(AclEventId::RoleRevoked, role, caller@, caller@).changes(
                old(self)@,
            ),
            State::of(final(self)@, final(log)@) == step(
                State::of(old(self)@, old(log)@),
                Call::unchecked(AclEventId::RoleRevoked, role, caller@, caller@),
            ),
            final(self).spec_counter() == old(self).spec_counter(),
    {
        self.acl.renounce_role(role, caller, log)
    }
}

} // verus!
