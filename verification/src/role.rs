//! The catalog of roles and of the admin permissions that govern them.

use vstd::prelude::*;
use vstd::std_specs::convert::FromSpecImpl;

verus! {

/// Roles are represented by enum variants. The catalog is closed: its
/// members and their order never change.
#[derive(Clone, Copy, Debug, PartialEq, Eq, Hash, Structural)]
pub enum Role {
    L1,
    L2,
    L3,
}

/// Represents admin permissions for roles. Variant `Super` grants global
/// admin permissions, each following variant grants admin permissions for
/// the `Role` with the corresponding name.
#[derive(Clone, Copy, Debug, PartialEq, Eq, Hash, Structural)]
pub enum AclAdmin {
    Super,
    L1,
    L2,
    L3,
}

/// Number of roles in the catalog.
pub const ROLE_COUNT: u8 = 3;

impl Role {
    /// Position of the role in the catalog, counted from zero.
    pub open spec fn spec_ordinal(self) -> u8 {
        match self {
            Role::L1 => 0,
            Role::L2 => 1,
            Role::L3 => 2,
        }
    }

    /// Position of the role in the catalog, counted from zero.
    #[verifier::when_used_as_spec(spec_ordinal)]
    pub fn ordinal(self) -> (o: u8)
        ensures
            o == self.spec_ordinal(),
            o < ROLE_COUNT,
    {
        match self {
            Role::L1 => 0,
            Role::L2 => 1,
            Role::L3 => 2,
        }
    }

    /// Returns the roles of the catalog, each at the position of its
    /// ordinal.
    pub fn catalog() -> (roles: Vec<Role>)
        ensures
            roles@ == seq![Role::L1, Role::L2, Role::L3],
            roles@.len() == ROLE_COUNT,
            forall|i: int| 0 <= i < roles@.len() ==> (#[trigger] roles@[i]).spec_ordinal() == i,
            forall|role: Role| roles@[role.spec_ordinal() as int] == role,
    {
        let roles = vec![Role::L1, Role::L2, Role::L3];
        assert(roles@ =~= seq![Role::L1, Role::L2, Role::L3]);
        roles
    }

    /// The `AclAdmin` variant responsible for a `Role`.
    pub open spec fn spec_admin(self) -> AclAdmin {
        match self {
            Role::L1 => AclAdmin::L1,
            Role::L2 => AclAdmin::L2,
            Role::L3 => AclAdmin::L3,
        }
    }

    /// Returns the `AclAdmin` variant responsible for a `Role`.
    #[verifier::when_used_as_spec(spec_admin)]
    pub fn admin(self) -> (a: AclAdmin)
        ensures
            a == self.spec_admin(),
    {
        AclAdmin::from(self)
    }
}

impl AclAdmin {
    /// Position of the admin permission among the admin permissions:
    /// `Super` comes first, then one per role in catalog order.
    pub open spec fn spec_ordinal(self) -> u8 {
        match self {
            AclAdmin::Super => 0,
            AclAdmin::L1 => 1,
            AclAdmin::L2 => 2,
            AclAdmin::L3 => 3,
        }
    }

    /// Position of the admin permission among the admin permissions.
    #[verifier::when_used_as_spec(spec_ordinal)]
    pub fn ordinal(self) -> (o: u8)
        ensures
            o == self.spec_ordinal(),
            o <= ROLE_COUNT,
    {
        match self {
            AclAdmin::Super => 0,
            AclAdmin::L1 => 1,
            AclAdmin::L2 => 2,
            AclAdmin::L3 => 3,
        }
    }
}

impl From<Role> for AclAdmin {
    fn from(value: Role) -> (a: AclAdmin) {
        match value {
            Role::L1 => AclAdmin::L1,
            Role::L2 => AclAdmin::L2,
            Role::L3 => AclAdmin::L3,
        }
    }
}

impl FromSpecImpl<Role> for AclAdmin {
    open spec fn obeys_from_spec() -> bool {
        true
    }

    open spec fn from_spec(value: Role) -> AclAdmin {
        value.spec_admin()
    }
}

} // verus!
