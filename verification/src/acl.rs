//! The access control list: who administers and who holds each role.
//!
//! Checked operations act only for a caller who is an admin of the role;
//! unchecked operations act for anyone and are meant for construction and
//! for use after a check. Either kind emits an event exactly when it
//! changes a permission.

use crate::account::AccountId;
use crate::event::{event_record, AclEvent, AclEventId, EventLog, EventRecord};
use crate::permissions::{description_of, AclPermissions, Permission};
use crate::role::{AclAdmin, Role};
use crate::store::{held, Holdings, PermissionStore};
use vstd::prelude::*;
use vstd::string::StringExecFns;

verus! {

/// Whether `account_id` is an admin for `role` in `holdings`: it holds the
/// admin permission of the role, or the super-admin permission.
pub open spec fn is_admin_in(holdings: Holdings, role: Role, account_id: Seq<char>) -> bool {
    ||| held(holdings, account_id).contains(Permission::Admin(AclAdmin::Super))
    ||| held(holdings, account_id).contains(Permission::Admin(role.spec_admin()))
}

/// Whether `account_id` has been granted `role` in `holdings`.
pub open spec fn has_role_in(holdings: Holdings, role: Role, account_id: Seq<char>) -> bool {
    held(holdings, account_id).contains(Permission::Grant(role))
}

/// Whether `account_id` holds at least one of the permissions in `required`.
pub open spec fn satisfies_any(
    holdings: Holdings,
    required: Set<Permission>,
    account_id: Seq<char>,
) -> bool {
    !held(holdings, account_id).disjoint(required)
}

/// Whether `account_id` holds all of the permissions in `required`.
pub open spec fn satisfies_all(
    holdings: Holdings,
    required: Set<Permission>,
    account_id: Seq<char>,
) -> bool {
    required.subset_of(held(holdings, account_id))
}

/// The state that the operations act on: what every account holds, and the
/// events emitted so far.
pub ghost struct State {
    pub holdings: Holdings,
    pub log: Seq<EventRecord>,
}

/// One call of an operation that may change a permission. The operation is
/// named by the event that it emits when it changes something.
pub ghost struct Call {
    /// What the call does: `AdminAdded` and `RoleGranted` add a permission,
    /// `AdminRevoked` and `RoleRevoked` take one away.
    pub action: AclEventId,
    /// The role that the call is about.
    pub role: Role,
    /// The account whose permissions the call may change.
    pub account_id: Seq<char>,
    /// The account that makes the call.
    pub predecessor: Seq<char>,
    /// Whether the call acts only for an admin of the role.
    pub checked: bool,
}

impl State {
    /// The state made of `holdings` and `log`.
    pub open spec fn of(holdings: Holdings, log: Seq<EventRecord>) -> State {
        State { holdings, log }
    }
}

impl Call {
    /// A call of the checked operation that emits `action`, made by
    /// `predecessor`.
    pub open spec fn checked(
        action: AclEventId,
        role: Role,
        account_id: Seq<char>,
        predecessor: Seq<char>,
    ) -> Call {
        Call { action, role, account_id, predecessor, checked: true }
    }

    /// A call of the unchecked operation that emits `action`, made by
    /// `predecessor`.
    pub open spec fn unchecked(
        action: AclEventId,
        role: Role,
        account_id: Seq<char>,
        predecessor: Seq<char>,
    ) -> Call {
        Call { action, role, account_id, predecessor, checked: false }
    }

    /// The permission that the call adds or takes away.
    pub open spec fn permission(self) -> Permission {
        match self.action {
            AclEventId::AdminAdded | AclEventId::AdminRevoked => Permission::Admin(
                self.role.spec_admin(),
            ),
            AclEventId::RoleGranted | AclEventId::RoleRevoked => Permission::Grant(self.role),
        }
    }

    /// Whether the call adds its permission (or else takes it away).
    pub open spec fn adds(self) -> bool {
        self.action == AclEventId::AdminAdded || self.action == AclEventId::RoleGranted
    }

    /// Whether the call is allowed to act on `holdings`.
    pub open spec fn permitted(self, holdings: Holdings) -> bool {
        !self.checked || is_admin_in(holdings, self.role, self.predecessor)
    }

    /// Whether the call changes `holdings`: it is allowed to act, and the
    /// account does not already stand as the call would leave it.
    pub open spec fn changes(self, holdings: Holdings) -> bool {
        self.permitted(holdings) && held(holdings, self.account_id).contains(self.permission())
            != self.adds()
    }

    /// The record of the event that the call emits when it changes
    /// something.
    pub open spec fn record(self) -> EventRecord {
        event_record(self.action, self.role, self.account_id, self.predecessor)
    }

    /// What a checked operation answers to the call on `holdings`.
    pub open spec fn outcome(self, holdings: Holdings) -> Outcome {
        if self.permitted(holdings) {
            Outcome::Applied(self.changes(holdings))
        } else {
            Outcome::Unauthorized
        }
    }
}

/// The state after `call`. A call that changes nothing leaves the whole
/// state as it was; one that changes a permission stores the account's new
/// permissions and appends one event.
pub open spec fn step(state: State, call: Call) -> State {
    if call.changes(state.holdings) {
        let before = held(state.holdings, call.account_id);
        let after = if call.adds() {
            before.insert(call.permission())
        } else {
            before.remove(call.permission())
        };
        State {
            holdings: state.holdings.insert(call.account_id, after),
            log: state.log.push(call.record()),
        }
    } else {
        state
    }
}

/// What a checked operation answers.
#[derive(Clone, Copy, Debug, PartialEq, Eq, Structural)]
pub enum Outcome {
    /// The caller is not an admin of the role: nothing was done.
    Unauthorized,
    /// The caller is an admin of the role. The value tells whether the
    /// operation changed a permission.
    Applied(bool),
}

impl Outcome {
    /// The answer as an option.
    pub open spec fn spec_applied(self) -> Option<bool> {
        match self {
            Outcome::Unauthorized => None,
            Outcome::Applied(changed) => Some(changed),
        }
    }

    /// Returns `Some` with the answer of an applied operation, and `None`
    /// for `Unauthorized`.
    #[verifier::when_used_as_spec(spec_applied)]
    pub fn applied(self) -> (applied: Option<bool>)
        ensures
            applied == self.spec_applied(),
    {
        match self {
            Outcome::Unauthorized => None,
            Outcome::Applied(changed) => Some(changed),
        }
    }
}

/// Which of the required permissions an account must hold.
#[derive(Clone, Copy, Debug, PartialEq, Eq, Structural)]
pub enum Requirement {
    /// At least one of them.
    Any,
    /// Every one of them.
    All,
}

/// The failure of an enforcement check: `account_id` does not hold what
/// `requirement` asks of the permissions in `required`.
#[derive(Debug)]
pub struct EnforcementFailure {
    pub requirement: Requirement,
    pub required: AclPermissions,
    pub account_id: AccountId,
}

impl EnforcementFailure {
    /// The text of the failure: it names the account and the permissions
    /// that were required of it.
    pub open spec fn spec_message(&self) -> Seq<char> {
        match self.requirement {
            Requirement::Any => "Account "@ + self.account_id@
                + " has must have at least one role of "@ + description_of(self.required@),
            Requirement::All => "Account "@ + self.account_id@ + " must have all roles in "@
                + description_of(self.required@),
        }
    }

    /// Returns the text of the failure.
    pub fn message(&self) -> (message: String)
        ensures
            message@ == self.spec_message(),
    {
        let mut message = String::new();
        message.append("Account ");
        message.append(self.account_id.as_str());
        match self.requirement {
            Requirement::Any => {
                message.append(" has must have at least one role of ");
            },
            Requirement::All => {
                message.append(" must have all roles in ");
            },
        }
        message.append(self.required.describe().as_str());
        assert(message@ =~= self.spec_message());
        message
    }
}

/// The access control list.
pub struct Acl {
    permissions: PermissionStore,
}

impl View for Acl {
    type V = Holdings;

    /// What every account holds.
    closed spec fn view(&self) -> Holdings {
        self.permissions@
    }
}

impl Acl {
    /// Makes a list in which no account holds anything.
    pub fn new() -> (acl: Acl)
        ensures
            acl@ == Map::<Seq<char>, Set<Permission>>::empty(),
    {
        Acl { permissions: PermissionStore::new() }
    }

    /// Makes a list that starts from what `permissions` holds.
    ///
    /// No operation of the list grants the super-admin permission: an
    /// account holds it only if the store that the list was made from
    /// says so.
    pub fn with_permissions(permissions: PermissionStore) -> (acl: Acl)
        ensures
            acl@ == permissions@,
    {
        Acl { permissions }
    }

    /// Returns the store of the list.
    pub fn permissions(&self) -> (permissions: &PermissionStore)
        ensures
            permissions@ == self@,
    {
        &self.permissions
    }

    /// Returns the permissions of `account_id`. If there are no permissions
    /// stored for `account_id`, it returns an empty, newly initialized set of
    /// permissions.
    pub fn get_or_init_permissions(&self, account_id: &AccountId) -> (permissions: AclPermissions)
        ensures
            permissions@ == held(self@, account_id@),
    {
        self.permissions.peek(account_id)
    }

    /// Returns a `bool` indicating if `account_id` is an admin for `role`.
    ///
    /// Note that `AclAdmin::Super` grants admin rights for _every_ role.
    /// Hence, if `account_id` holds the super-admin permission, this
    /// function returns true for every `Role`.
    pub fn is_admin(&self, role: Role, account_id: &AccountId) -> (is_admin: bool)
        ensures
            is_admin == is_admin_in(self@, role, account_id@),
    {
        let permissions = match self.permissions.get(account_id) {
            Some(permissions) => permissions,
            None => {
                return false;
            },
        };
        proof {
            AclPermissions::lemma_spec_of(Permission::Admin(AclAdmin::Super));
            AclPermissions::lemma_spec_of(Permission::Admin(role.spec_admin()));
        }
        permissions.contains(AclPermissions::from(AclAdmin::Super)) || permissions.contains(
            AclPermissions::from(role.admin()),
        )
    }

    /// Returns whether `account_id` has been granted `role`.
    pub fn has_role(&self, role: Role, account_id: &AccountId) -> (has_role: bool)
        ensures
            has_role == has_role_in(self@, role, account_id@),
    {
        proof {
            AclPermissions::lemma_spec_of(Permission::Grant(role));
        }
        match self.permissions.get(account_id) {
            Some(permissions) => permissions.contains(AclPermissions::from(role)),
            None => false,
        }
    }

    /// Adds `account_id` to the admins for `role`, given that `caller` is
    /// an admin for `role`. Returns `Applied` with a `bool` indicating
    /// whether `account_id` has gained new admin permissions.
    ///
    /// If `caller` is not an admin for `role`, `account_id` is not added to
    /// the admins and `Unauthorized` is returned.
    pub fn add_admin(
        &mut self,
        role: Role,
        account_id: &AccountId,
        caller: &AccountId,
        log: &mut EventLog,
    ) -> (outcome: Outcome)
        ensures
            outcome == Call::checked(AclEventId::AdminAdded, role, account_id@, caller@).outcome(
                old(self)@,
            ),
            State::of(final(self)@, final(log)@) == step(
                State::of(old(self)@, old(log)@),
                Call::checked(AclEventId::AdminAdded, role, account_id@, caller@),
            ),
    {
        if !self.is_admin(role, caller) {
            return Outcome::Unauthorized;
        }
        Outcome::Applied(self.add_admin_unchecked(role, account_id, caller, log))
    }

    /// Grants admin permissions for `role` to `account_id`, __without__
    /// checking permissions of `predecessor`, the account that makes the
    /// call.
    ///
    /// Returns whether `account_id` was newly added to the admins for `role`.
    pub fn add_admin_unchecked(
        &mut self,
        role: Role,
        account_id: &AccountId,
        predecessor: &AccountId,
        log: &mut EventLog,
    ) -> (is_new_admin: bool)
        ensures
            is_new_admin == Call::unchecked(
                AclEventId::AdminAdded,
                role,
                account_id@,
                predecessor@,
            ).changes(old(self)@),
            State::of(final(self)@, final(log)@) == step(
                State::of(old(self)@, old(log)@),
                Call::unchecked(AclEventId::AdminAdded, role, account_id@, predecessor@),
            ),
    {
        let flag: AclPermissions = AclPermissions::from(role.admin());
        let mut permissions = self.get_or_init_permissions(account_id);
        proof {
            AclPermissions::lemma_spec_of(Permission::Admin(role.spec_admin()));
        }

        let is_new_admin = !permissions.contains(flag);
        if is_new_admin {
            permissions.insert(flag);
            assert(permissions@ =~= held(old(self)@, account_id@).insert(
                Permission::Admin(role.spec_admin()),
            ));
            self.permissions.store(account_id, permissions);
            log.emit(
                AclEvent::new(
                    AclEventId::AdminAdded,
                    role,
                    account_id.clone(),
                    predecessor.clone(),
                ),
            );
        }
        is_new_admin
    }

    /// Revoke admin permissions for `role` from `account_id`. If `caller`
    /// is an admin for `role`, it returns `Applied` with a `bool`
    /// indicating whether `account_id` was an admin.
    ///
    /// If `caller` is not an admin for `role`, it returns `Unauthorized`
    /// and permissions are not modified.
    pub fn revoke_admin(
        &mut self,
        role: Role,
        account_id: &AccountId,
        caller: &AccountId,
        log: &mut EventLog,
    ) -> (outcome: Outcome)
        ensures
            outcome == Call::checked(
                AclEventId::AdminRevoked,
                role,
                account_id@,
                caller@,
            ).outcome(old(self)@),
            State::of(final(self)@, final(log)@) == step(
                State::of(old(self)@, old(log)@),
                Call::checked(AclEventId::AdminRevoked, role, account_id@, caller@),
            ),
    {
        if !self.is_admin(role, caller) {
            return Outcome::Unauthorized;
        }
        Outcome::Applied(self.revoke_admin_unchecked(role, account_id, caller, log))
    }

    /// Revokes admin rights for `role` from `caller`, the calling account.
    /// Returns whether the caller was an admin for `role`.
    pub fn renounce_admin(
        &mut self,
        role: Role,
        caller: &AccountId,
        log: &mut EventLog,
    ) -> (was_admin: bool)
        ensures
            was_admin == Call::unchecked(AclEventId::AdminRevoked, role, caller@, caller@).changes(
                old(self)@,
            ),
            State::of(final(self)@, final(log)@) == step(
                State::of(old(self)@, old(log)@),
                Call::unchecked(AclEventId::AdminRevoked, role, caller@, caller@),
            ),
    {
        self.revoke_admin_unchecked(role, caller, caller, log)
    }

    /// Revokes admin rights for `role` from `account_id` without checking
    /// any permissions. Returns whether `account_id` was an admin for
    /// `role`.
    pub fn revoke_admin_unchecked(
        &mut self,
        role: Role,
        account_id: &AccountId,
        predecessor: &AccountId,
        log: &mut EventLog,
    ) -> (was_admin: bool)
        ensures
            was_admin == Call::unchecked(
                AclEventId::AdminRevoked,
                role,
                account_id@,
                predecessor@,
            ).changes(old(self)@),
            State::of(final(self)@, final(log)@) == step(
                State::of(old(self)@, old(log)@),
                Call::unchecked(AclEventId::AdminRevoked, role, account_id@, predecessor@),
            ),
    {
        let flag: AclPermissions = AclPermissions::from(role.admin());
        let mut permissions = self.get_or_init_permissions(account_id);
        proof {
            AclPermissions::lemma_spec_of(Permission::Admin(role.spec_admin()));
        }

        let was_admin = permissions.contains(flag);
        if was_admin {
            permissions.remove(flag);
            assert(permissions@ =~= held(old(self)@, account_id@).remove(
                Permission::Admin(role.spec_admin()),
            ));
            self.permissions.store(account_id, permissions);
            log.emit(
                AclEvent::new(
                    AclEventId::AdminRevoked,
                    role,
                    account_id.clone(),
                    predecessor.clone(),
                ),
            );
        }
        was_admin
    }

    /// Grants `role` to `account_id`, given that `caller` is an admin for
    /// `role`. Returns `Applied` with a `bool` indicating whether `role`
    /// was newly granted to `account_id`.
    ///
    /// If `caller` is not an admin for `role`, `account_id` is not granted
    /// the role and `Unauthorized` is returned.
    pub fn grant_role(
        &mut self,
        role: Role,
        account_id: &AccountId,
        caller: &AccountId,
        log: &mut EventLog,
    ) -> (outcome: Outcome)
        ensures
            outcome == Call::checked(AclEventId::RoleGranted, role, account_id@, caller@).outcome(
                old(self)@,
            ),
            State::of(final(self)@, final(log)@) == step(
                State::of(old(self)@, old(log)@),
                Call::checked(AclEventId::RoleGranted, role, account_id@, caller@),
            ),
    {
        if !self.is_admin(role, caller) {
            return Outcome::Unauthorized;
        }
        Outcome::Applied(self.grant_role_unchecked(role, account_id, caller, log))
    }

    /// Grants `role` to `account_id` __without__ checking any permissions.
    /// Returns whether `role` was newly granted to `account_id`.
    pub fn grant_role_unchecked(
        &mut self,
        role: Role,
        account_id: &AccountId,
        predecessor: &AccountId,
        log: &mut EventLog,
    ) -> (is_new_grantee: bool)
        ensures
            is_new_grantee == Call::unchecked(
                AclEventId::RoleGranted,
                role,
                account_id@,
                predecessor@,
            ).changes(old(self)@),
            State::of(final(self)@, final(log)@) == step(
                State::of(old(self)@, old(log)@),
                Call::unchecked(AclEventId::RoleGranted, role, account_id@, predecessor@),
            ),
    {
        let flag: AclPermissions = AclPermissions::from(role);
        let mut permissions = self.get_or_init_permissions(account_id);
        proof {
            AclPermissions::lemma_spec_of(Permission::Grant(role));
        }

        let is_new_grantee = !permissions.contains(flag);
        if is_new_grantee {
            permissions.insert(flag);
            assert(permissions@ =~= held(old(self)@, account_id@).insert(
                Permission::Grant(role),
            ));
            self.permissions.store(account_id, permissions);
            log.emit(
                AclEvent::new(
                    AclEventId::RoleGranted,
                    role,
                    account_id.clone(),
                    predecessor.clone(),
                ),
            );
        }
        is_new_grantee
    }

    /// Revoke `role` from `account_id`. If `caller` is an admin for `role`,
    /// it returns `Applied` with a `bool` indicating whether `account_id`
    /// was a grantee of `role`.
    ///
    /// If `caller` is not an admin for `role`, it returns `Unauthorized`
    /// and permissions are not modified.
    pub fn revoke_role(
        &mut self,
        role: Role,
        account_id: &AccountId,
        caller: &AccountId,
        log: &mut EventLog,
    ) -> (outcome: Outcome)
        ensures
            outcome == Call::checked(
                AclEventId::RoleRevoked,
                role,
                account_id@,
                caller@,
            ).outcome(old(self)@),
            State::of(final(self)@, final(log)@) == step(
                State::of(old(self)@, old(log)@),
                Call::checked(AclEventId::RoleRevoked, role, account_id@, caller@),
            ),
    {
        if !self.is_admin(role, caller) {
            return Outcome::Unauthorized;
        }
        Outcome::Applied(self.revoke_role_unchecked(role, account_id, caller, log))
    }

    /// Revokes `role` from `caller`, the calling account. Returns whether
    /// the caller was a grantee of `role`.
    pub fn renounce_role(
        &mut self,
        role: Role,
        caller: &AccountId,
        log: &mut EventLog,
    ) -> (was_grantee: bool)
        ensures
            was_grantee == Call::unchecked(AclEventId::RoleRevoked, role, caller@, caller@).changes(
                old(self)@,
            ),
            State::of(final(self)@, final(log)@) == step(
                State::of(old(self)@, old(log)@),
                Call::unchecked(AclEventId::RoleRevoked, role, caller@, caller@),
            ),
    {
        self.revoke_role_unchecked(role, caller, caller, log)
    }

    /// Revokes `role` from `account_id` without checking any permissions.
    /// Returns whether `account_id` was a grantee of `role`.
    pub fn revoke_role_unchecked(
        &mut self,
        role: Role,
        account_id: &AccountId,
        predecessor: &AccountId,
        log: &mut EventLog,
    ) -> (was_grantee: bool)
        ensures
            was_grantee == Call::unchecked(
                AclEventId::RoleRevoked,
                role,
                account_id@,
                predecessor@,
            ).changes(old(self)@),
            State::of(final(self)@, final(log)@) == step(
                State::of(old(self)@, old(log)@),
                Call::unchecked(AclEventId::RoleRevoked, role, account_id@, predecessor@),
            ),
    {
        let flag: AclPermissions = AclPermissions::from(role);
        let mut permissions = self.get_or_init_permissions(account_id);
        proof {
            AclPermissions::lemma_spec_of(Permission::Grant(role));
        }

        let was_grantee = permissions.contains(flag);
        if was_grantee {
            permissions.remove(flag);
            assert(permissions@ =~= held(old(self)@, account_id@).remove(
                Permission::Grant(role),
            ));
            self.permissions.store(account_id, permissions);
            log.emit(
                AclEvent::new(
                    AclEventId::RoleRevoked,
                    role,
                    account_id.clone(),
                    predecessor.clone(),
                ),
            );
        }
        was_grantee
    }

    /// Fails if `account_id` does not have at least one of the permissions
    /// specified in `target`. The failure names `target` and `account_id`.
    pub fn check_any(&self, target: AclPermissions, account_id: &AccountId) -> (checked: Result<
        (),
        EnforcementFailure,
    >)
        ensures
            checked is Ok <==> satisfies_any(self@, target@, account_id@),
            checked matches Err(failure) ==> {
                &&& failure.requirement == Requirement::Any
                &&& failure.required == target
                &&& failure.account_id@ == account_id@
            },
    {
        let permissions = self.get_or_init_permissions(account_id);
        if permissions.intersects(target) {
            Ok(())
        } else {
            Err(
                EnforcementFailure {
                    requirement: Requirement::Any,
                    required: target,
                    account_id: account_id.clone(),
                },
            )
        }
    }

    /// Fails if `account_id` does not have all of the permissions specified
    /// in `target`. The failure names `target` and `account_id`.
    pub fn check_all(&self, target: AclPermissions, account_id: &AccountId) -> (checked: Result<
        (),
        EnforcementFailure,
    >)
        ensures
            checked is Ok <==> satisfies_all(self@, target@, account_id@),
            checked matches Err(failure) ==> {
                &&& failure.requirement == Requirement::All
                &&& failure.required == target
                &&& failure.account_id@ == account_id@
            },
    {
        let permissions = self.get_or_init_permissions(account_id);
        if permissions.contains(target) {
            Ok(())
        } else {
            Err(
                EnforcementFailure {
                    requirement: Requirement::All,
                    required: target,
                    account_id: account_id.clone(),
                },
            )
        }
    }
}

} // verus!
