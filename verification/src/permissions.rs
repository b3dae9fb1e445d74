//! Permissions, and the bitmask that holds a set of them.
//!
//! A permission is either an admin permission or the grant of a role. Each
//! permission owns one bit of a `u128`: if a flag's binary value is `1 << n`
//! with even `n` it represents an `AclAdmin`, otherwise (`n` is odd) it
//! represents a regular `Role`. Bitmasks allow efficiently checking for
//! multiple permissions.

use crate::role::{AclAdmin, Role};
use vstd::prelude::*;
use vstd::std_specs::convert::FromSpecImpl;
use vstd::string::StringExecFns;

verus! {

/// The highest bit position that a permission may occupy: `AclPermissions`
/// is backed by a `u128`.
pub const MAX_BITFLAG_SHIFT: u8 = 127;

/// The bits that stand for a permission of the catalog.
pub const ALL_BITS: u128 = 0x7f;

/// One permission that an account can hold.
#[derive(Clone, Copy, Debug, PartialEq, Eq, Hash, Structural)]
pub enum Permission {
    /// May grant and revoke a role (or, for `AclAdmin::Super`, every role).
    Admin(AclAdmin),
    /// Holds the role.
    Grant(Role),
}

/// Why a bit position does not yield a permission flag.
#[derive(Clone, Copy, Debug, PartialEq, Eq, Structural)]
pub enum EncodingError {
    /// The position lies beyond the width of the bitmask.
    OutOfBounds,
    /// The position lies inside the bitmask, but no permission owns it.
    UnknownFlag,
}

impl Permission {
    /// The bit position owned by the permission: even positions for admin
    /// permissions, odd positions for grants, both in catalog order.
    pub open spec fn spec_shift(self) -> u8 {
        match self {
            Permission::Admin(admin) => (2 * admin.spec_ordinal()) as u8,
            Permission::Grant(role) => (2 * role.spec_ordinal() + 1) as u8,
        }
    }

    /// The bitmask with only the permission's own bit set.
    pub open spec fn spec_bit(self) -> u128 {
        1u128 << self.spec_shift()
    }

    /// The name of the permission's flag.
    pub open spec fn spec_name(self) -> Seq<char> {
        match self {
            Permission::Admin(AclAdmin::Super) => "SUPER_ADMIN"@,
            Permission::Grant(Role::L1) => "L1"@,
            Permission::Admin(AclAdmin::L1) => "L1_ADMIN"@,
            Permission::Grant(Role::L2) => "L2"@,
            Permission::Admin(AclAdmin::L2) => "L2_ADMIN"@,
            Permission::Grant(Role::L3) => "L3"@,
            Permission::Admin(AclAdmin::L3) => "L3_ADMIN"@,
        }
    }

    /// Returns the name of the permission's flag.
    pub fn name(self) -> (name: &'static str)
        ensures
            name@ == self.spec_name(),
    {
        match self {
            Permission::Admin(AclAdmin::Super) => "SUPER_ADMIN",
            Permission::Grant(Role::L1) => "L1",
            Permission::Admin(AclAdmin::L1) => "L1_ADMIN",
            Permission::Grant(Role::L2) => "L2",
            Permission::Admin(AclAdmin::L2) => "L2_ADMIN",
            Permission::Grant(Role::L3) => "L3",
            Permission::Admin(AclAdmin::L3) => "L3_ADMIN",
        }
    }

    /// The bit position owned by the permission.
    #[verifier::when_used_as_spec(spec_shift)]
    pub fn shift(self) -> (shift: u8)
        ensures
            shift == self.spec_shift(),
            shift <= MAX_BITFLAG_SHIFT,
    {
        match self {
            Permission::Admin(admin) => admin.ordinal() * 2,
            // `+ 1` since flags for `Role` have a bit shifted by an odd number.
            Permission::Grant(role) => role.ordinal() * 2 + 1,
        }
    }
}

/// The permissions whose bits are set in `bits`.
pub open spec fn permissions_in(bits: u128) -> Set<Permission> {
    Set::new(|p: Permission| bits & p.spec_bit() != 0)
}

/// Bit positions are fixed and never shared: two permissions with the same
/// position are the same permission, and every position fits the bitmask.
pub proof fn lemma_shift_injective(p: Permission, q: Permission)
    ensures
        p.spec_shift() <= MAX_BITFLAG_SHIFT,
        p.spec_shift() == q.spec_shift() <==> p == q,
        p.spec_bit() & ALL_BITS == p.spec_bit(),
        p.spec_bit() == q.spec_bit() <==> p == q,
{
    let i = p.spec_shift();
    let j = q.spec_shift();
    assert((1u128 << i) & 0x7fu128 == (1u128 << i)) by (bit_vector)
        requires
            i < 7,
    ;
    assert((1u128 << i) == (1u128 << j) ==> i == j) by (bit_vector)
        requires
            i < 7,
            j < 7,
    ;
}

/// The text `text` of names listed so far, followed by the name of
/// `permission` if it is held: the first name stands alone, each further
/// name follows a separator.
pub open spec fn with_name(text: Seq<char>, held: bool, permission: Permission) -> Seq<char> {
    if !held {
        text
    } else if text.len() == 0 {
        permission.spec_name()
    } else {
        text + " | "@ + permission.spec_name()
    }
}

/// The names of the permissions in `held`, in the order of their bits.
pub open spec fn names_of(held: Set<Permission>) -> Seq<char> {
    let super_admin = Permission::Admin(AclAdmin::Super);
    let l1 = Permission::Grant(Role::L1);
    let l1_admin = Permission::Admin(AclAdmin::L1);
    let l2 = Permission::Grant(Role::L2);
    let l2_admin = Permission::Admin(AclAdmin::L2);
    let l3 = Permission::Grant(Role::L3);
    let l3_admin = Permission::Admin(AclAdmin::L3);
    let text = with_name(Seq::empty(), held.contains(super_admin), super_admin);
    let text = with_name(text, held.contains(l1), l1);
    let text = with_name(text, held.contains(l1_admin), l1_admin);
    let text = with_name(text, held.contains(l2), l2);
    let text = with_name(text, held.contains(l2_admin), l2_admin);
    let text = with_name(text, held.contains(l3), l3);
    with_name(text, held.contains(l3_admin), l3_admin)
}

/// How a set of permissions is written in a message: the names of its
/// permissions in the order of their bits, or `(empty)` for the empty set.
pub open spec fn description_of(held: Set<Permission>) -> Seq<char> {
    if names_of(held).len() == 0 {
        "(empty)"@
    } else {
        names_of(held)
    }
}

/// Flags that represent permissions in a bitmask.
#[derive(Clone, Copy, Debug, PartialEq, Eq, Hash, Structural)]
pub struct AclPermissions {
    bits: u128,
}

impl View for AclPermissions {
    type V = Set<Permission>;

    /// The set of permissions that the bitmask holds.
    open spec fn view(&self) -> Set<Permission> {
        permissions_in(self.spec_bits())
    }
}

proof fn lemma_bit_in_union(a: u128, b: u128, k: u8)
    by (bit_vector)
    requires
        k < 128,
    ensures
        ((a | b) & (1u128 << k) != 0) == ((a & (1u128 << k) != 0) || (b & (1u128 << k) != 0)),
{
}

proof fn lemma_bit_in_difference(a: u128, b: u128, k: u8)
    by (bit_vector)
    requires
        k < 128,
    ensures
        ((a & !b) & (1u128 << k) != 0) == ((a & (1u128 << k) != 0) && (b & (1u128 << k) == 0)),
{
}

proof fn lemma_bit_in_superset(a: u128, b: u128, k: u8)
    by (bit_vector)
    requires
        k < 128,
        a & b == b,
        b & (1u128 << k) != 0,
    ensures
        a & (1u128 << k) != 0,
{
}

proof fn lemma_bit_in_both(a: u128, b: u128, k: u8)
    by (bit_vector)
    requires
        k < 128,
        a & (1u128 << k) != 0,
        b & (1u128 << k) != 0,
    ensures
        a & b != 0,
{
}

proof fn lemma_single_bit(i: u8, j: u8)
    by (bit_vector)
    requires
        i < 128,
        j < 128,
    ensures
        ((1u128 << i) & (1u128 << j) != 0) == (i == j),
{
}

proof fn lemma_known_bits_closed(a: u128, b: u128)
    by (bit_vector)
    requires
        a & !0x7fu128 == 0,
        b & !0x7fu128 == 0,
    ensures
        (a | b) & !0x7fu128 == 0,
        (a & !b) & !0x7fu128 == 0,
        (a & b) & !0x7fu128 == 0,
{
}

proof fn lemma_known_bit(k: u8)
    by (bit_vector)
    requires
        k < 128,
    ensures
        ((1u128 << k) & !0x7fu128 == 0) == (k < 7),
{
}

/// Among known bits, a mask that has every bit of `b` includes `b`.
proof fn lemma_subset_by_bits(a: u128, b: u128)
    by (bit_vector)
    requires
        b & !0x7fu128 == 0,
        b & (1u128 << 0u8) != 0 ==> a & (1u128 << 0u8) != 0,
        b & (1u128 << 1u8) != 0 ==> a & (1u128 << 1u8) != 0,
        b & (1u128 << 2u8) != 0 ==> a & (1u128 << 2u8) != 0,
        b & (1u128 << 3u8) != 0 ==> a & (1u128 << 3u8) != 0,
        b & (1u128 << 4u8) != 0 ==> a & (1u128 << 4u8) != 0,
        b & (1u128 << 5u8) != 0 ==> a & (1u128 << 5u8) != 0,
        b & (1u128 << 6u8) != 0 ==> a & (1u128 << 6u8) != 0,
    ensures
        a & b == b,
{
}

/// A mask of known bits that is not zero has one of them set.
proof fn lemma_some_bit(c: u128)
    by (bit_vector)
    requires
        c & !0x7fu128 == 0,
        c != 0,
    ensures
        c & (1u128 << 0u8) != 0 || c & (1u128 << 1u8) != 0 || c & (1u128 << 2u8) != 0 || c & (1u128
            << 3u8) != 0 || c & (1u128 << 4u8) != 0 || c & (1u128 << 5u8) != 0 || c & (1u128
            << 6u8) != 0,
{
}

proof fn lemma_bit_of_intersection(a: u128, b: u128, k: u8)
    by (bit_vector)
    requires
        k < 128,
    ensures
        (a & b) & (1u128 << k) != 0 ==> a & (1u128 << k) != 0 && b & (1u128 << k) != 0,
{
}

proof fn lemma_bit_of_all(k: u8)
    by (bit_vector)
    requires
        k < 7,
    ensures
        0x7fu128 & (1u128 << k) != 0,
{
}

/// Membership in `permissions_in(bits)`, permission by permission.
proof fn lemma_permissions_enumerated(bits: u128)
    ensures
        permissions_in(bits).contains(Permission::Admin(AclAdmin::Super)) == (bits & (1u128 << 0u8)
            != 0),
        permissions_in(bits).contains(Permission::Grant(Role::L1)) == (bits & (1u128 << 1u8) != 0),
        permissions_in(bits).contains(Permission::Admin(AclAdmin::L1)) == (bits & (1u128 << 2u8)
            != 0),
        permissions_in(bits).contains(Permission::Grant(Role::L2)) == (bits & (1u128 << 3u8) != 0),
        permissions_in(bits).contains(Permission::Admin(AclAdmin::L2)) == (bits & (1u128 << 4u8)
            != 0),
        permissions_in(bits).contains(Permission::Grant(Role::L3)) == (bits & (1u128 << 5u8) != 0),
        permissions_in(bits).contains(Permission::Admin(AclAdmin::L3)) == (bits & (1u128 << 6u8)
            != 0),
{
}

impl AclPermissions {
    #[verifier::type_invariant]
    spec fn only_known_bits(self) -> bool {
        self.bits & !ALL_BITS == 0
    }

    /// The raw value of the bitmask.
    pub closed spec fn spec_bits(&self) -> u128 {
        self.bits
    }

    /// Returns an empty set of permissions.
    pub fn empty() -> (p: AclPermissions)
        ensures
            p@ == Set::<Permission>::empty(),
            p.spec_bits() == 0,
    {
        proof {
            assert(0u128 & !0x7fu128 == 0) by (bit_vector);
        }
        let p = AclPermissions { bits: 0 };
        proof {
            assert forall|q: Permission| !p@.contains(q) by {
                let m = q.spec_bit();
                assert(0u128 & m == 0) by (bit_vector);
            }
            assert(p@ =~= Set::<Permission>::empty());
        }
        p
    }

    /// Returns the set of all permissions of the catalog.
    pub fn all() -> (p: AclPermissions)
        ensures
            p@ == Set::<Permission>::full(),
            p.spec_bits() == ALL_BITS,
    {
        proof {
            assert(0x7fu128 & !0x7fu128 == 0) by (bit_vector);
        }
        let p = AclPermissions { bits: ALL_BITS };
        proof {
            assert forall|q: Permission| p@.contains(q) by {
                lemma_bit_of_all(q.spec_shift());
            }
            assert(p@ =~= Set::<Permission>::full());
        }
        p
    }

    /// Returns the raw value of the bitmask. Only bits of the catalog are
    /// ever set in it.
    #[verifier::when_used_as_spec(spec_bits)]
    pub fn bits(&self) -> (bits: u128)
        ensures
            bits == self.spec_bits(),
            bits & !ALL_BITS == 0,
    {
        proof {
            use_type_invariant(self);
        }
        self.bits
    }

    /// Converts a raw value into a set of permissions, unless it has a bit
    /// set that no permission owns.
    pub fn from_bits(bits: u128) -> (r: Option<AclPermissions>)
        ensures
            r is Some <==> bits & !ALL_BITS == 0,
            r matches Some(p) ==> p.spec_bits() == bits,
    {
        if bits & !ALL_BITS == 0 {
            Some(AclPermissions { bits })
        } else {
            None
        }
    }

    /// Returns the flag at bit position `shift`.
    ///
    /// Fails with `OutOfBounds` for a position beyond the bitmask, and with
    /// `UnknownFlag` for a position that no permission owns.
    pub fn from_shift(shift: u8) -> (r: Result<AclPermissions, EncodingError>)
        ensures
            match r {
                Ok(flag) => {
                    &&& flag.spec_bits() == 1u128 << shift
                    &&& forall|p: Permission| flag@.contains(p) <==> p.spec_shift() == shift
                },
                Err(EncodingError::OutOfBounds) => shift > MAX_BITFLAG_SHIFT,
                Err(EncodingError::UnknownFlag) => {
                    &&& shift <= MAX_BITFLAG_SHIFT
                    &&& forall|p: Permission| p.spec_shift() != shift
                },
            },
    {
        if shift > MAX_BITFLAG_SHIFT {
            return Err(EncodingError::OutOfBounds);
        }
        proof {
            lemma_known_bit(shift);
        }
        match AclPermissions::from_bits(1u128 << shift) {
            Some(flag) => {
                proof {
                    assert forall|p: Permission| flag@.contains(p) <==> p.spec_shift()
                        == shift by {
                        lemma_single_bit(shift, p.spec_shift());
                    }
                }
                Ok(flag)
            },
            None => Err(EncodingError::UnknownFlag),
        }
    }

    /// The set that holds `permission` and nothing else.
    pub closed spec fn spec_of(permission: Permission) -> AclPermissions {
        AclPermissions { bits: permission.spec_bit() }
    }

    /// What `spec_of` yields: the one permission, in its own bit.
    pub proof fn lemma_spec_of(permission: Permission)
        ensures
            Self::spec_of(permission)@ == set![permission],
            Self::spec_of(permission).spec_bits() == permission.spec_bit(),
    {
        let flag = Self::spec_of(permission);
        assert forall|p: Permission| flag@.contains(p) <==> p == permission by {
            lemma_single_bit(permission.spec_shift(), p.spec_shift());
            lemma_shift_injective(p, permission);
        }
        assert(flag@ =~= set![permission]);
    }

    /// Returns the set that holds `permission` and nothing else.
    #[verifier::when_used_as_spec(spec_of)]
    pub fn of(permission: Permission) -> (flag: AclPermissions)
        ensures
            flag == Self::spec_of(permission),
            flag@ == set![permission],
            flag.spec_bits() == permission.spec_bit(),
    {
        let r = AclPermissions::from_shift(permission.shift());
        proof {
            lemma_shift_injective(permission, permission);
            Self::lemma_spec_of(permission);
        }
        r.unwrap()
    }

    /// Returns `true` if no permission is held.
    pub fn is_empty(&self) -> (b: bool)
        ensures
            b == (self@ == Set::<Permission>::empty()),
    {
        proof {
            use_type_invariant(self);
            let a = self.bits;
            if a == 0 {
                assert forall|q: Permission| !self@.contains(q) by {
                    let m = q.spec_bit();
                    assert(0u128 & m == 0) by (bit_vector);
                }
                assert(self@ =~= Set::<Permission>::empty());
            } else {
                lemma_some_bit(a);
                lemma_permissions_enumerated(a);
            }
        }
        self.bits == 0
    }

    /// Returns `true` if `permission` is held.
    pub fn has(&self, permission: Permission) -> (b: bool)
        ensures
            b == self@.contains(permission),
    {
        let flag = AclPermissions::of(permission);
        (self.bits & flag.bits) != 0
    }

    /// Returns `true` if all of the permissions in `other` are held.
    pub fn contains(&self, other: AclPermissions) -> (b: bool)
        ensures
            b == other@.subset_of(self@),
    {
        proof {
            use_type_invariant(self);
            use_type_invariant(&other);
            let a = self.bits;
            let b = other.bits;
            if a & b == b {
                assert forall|p: Permission| other@.contains(p) implies self@.contains(p) by {
                    lemma_bit_in_superset(a, b, p.spec_shift());
                }
            }
            if other@.subset_of(self@) {
                lemma_permissions_enumerated(a);
                lemma_permissions_enumerated(b);
                lemma_subset_by_bits(a, b);
            }
        }
        (self.bits & other.bits) == other.bits
    }

    /// Returns `true` if at least one of the permissions in `other` is held.
    pub fn intersects(&self, other: AclPermissions) -> (b: bool)
        ensures
            b == !self@.disjoint(other@),
    {
        proof {
            use_type_invariant(self);
            use_type_invariant(&other);
            let a = self.bits;
            let b = other.bits;
            if a & b != 0 {
                lemma_known_bits_closed(a, b);
                lemma_some_bit(a & b);
                lemma_permissions_enumerated(a);
                lemma_permissions_enumerated(b);
                lemma_bit_of_intersection(a, b, 0);
                lemma_bit_of_intersection(a, b, 1);
                lemma_bit_of_intersection(a, b, 2);
                lemma_bit_of_intersection(a, b, 3);
                lemma_bit_of_intersection(a, b, 4);
                lemma_bit_of_intersection(a, b, 5);
                lemma_bit_of_intersection(a, b, 6);
                assert(!self@.disjoint(other@));
            }
            if !self@.disjoint(other@) {
                let p = choose|p: Permission| self@.contains(p) && other@.contains(p);
                lemma_bit_in_both(a, b, p.spec_shift());
            }
        }
        (self.bits & other.bits) != 0
    }

    /// Appends the name of `permission` to `text` if it is held, after a
    /// separator where `text` already lists a name.
    fn describe_one(&self, permission: Permission, text: &mut String)
        ensures
            final(text)@ == with_name(old(text)@, self@.contains(permission), permission),
    {
        if self.has(permission) {
            if !text.as_str().is_empty() {
                text.append(" | ");
            }
            text.append(permission.name());
            assert(text@ =~= with_name(old(text)@, true, permission));
        }
    }

    /// Returns the set as it is written in a message: the names of its
    /// permissions, separated by ` | `, or `(empty)`.
    pub fn describe(&self) -> (text: String)
        ensures
            text@ == description_of(self@),
    {
        let mut text = String::new();
        self.describe_one(Permission::Admin(AclAdmin::Super), &mut text);
        self.describe_one(Permission::Grant(Role::L1), &mut text);
        self.describe_one(Permission::Admin(AclAdmin::L1), &mut text);
        self.describe_one(Permission::Grant(Role::L2), &mut text);
        self.describe_one(Permission::Admin(AclAdmin::L2), &mut text);
        self.describe_one(Permission::Grant(Role::L3), &mut text);
        self.describe_one(Permission::Admin(AclAdmin::L3), &mut text);
        if text.as_str().is_empty() {
            text.append("(empty)");
            assert(text@ =~= "(empty)"@);
        }
        text
    }

    /// Adds the permissions in `other`.
    pub fn insert(&mut self, other: AclPermissions)
        ensures
            final(self)@ == old(self)@.union(other@),
            final(self).spec_bits() == old(self).spec_bits() | other.spec_bits(),
    {
        proof {
            use_type_invariant(&*self);
            use_type_invariant(&other);
            lemma_known_bits_closed(self.bits, other.bits);
        }
        self.bits = self.bits | other.bits;
        proof {
            assert forall|p: Permission|
                self@.contains(p) <==> old(self)@.union(other@).contains(p) by {
                lemma_bit_in_union(old(self).bits, other.bits, p.spec_shift());
            }
            assert(self@ =~= old(self)@.union(other@));
        }
    }

    /// Removes the permissions in `other`.
    pub fn remove(&mut self, other: AclPermissions)
        ensures
            final(self)@ == old(self)@.difference(other@),
            final(self).spec_bits() == old(self).spec_bits() & !other.spec_bits(),
    {
        proof {
            use_type_invariant(&*self);
            use_type_invariant(&other);
            lemma_known_bits_closed(self.bits, other.bits);
        }
        self.bits = self.bits & !other.bits;
        proof {
            assert forall|p: Permission|
                self@.contains(p) <==> old(self)@.difference(other@).contains(p) by {
                lemma_bit_in_difference(old(self).bits, other.bits, p.spec_shift());
            }
            assert(self@ =~= old(self)@.difference(other@));
        }
    }

    /// Returns the permissions held by `self` or by `other`.
    pub fn union(self, other: AclPermissions) -> (both: AclPermissions)
        ensures
            both@ == self@.union(other@),
            both.spec_bits() == self.spec_bits() | other.spec_bits(),
    {
        let mut both = self;
        both.insert(other);
        both
    }
}

impl From<Role> for AclPermissions {
    /// The flag that stands for holding `value`.
    fn from(value: Role) -> (flag: AclPermissions) {
        AclPermissions::of(Permission::Grant(value))
    }
}

impl FromSpecImpl<Role> for AclPermissions {
    open spec fn obeys_from_spec() -> bool {
        true
    }

    open spec fn from_spec(value: Role) -> AclPermissions {
        AclPermissions::spec_of(Permission::Grant(value))
    }
}

impl From<AclAdmin> for AclPermissions {
    /// The flag that stands for `value`.
    fn from(value: AclAdmin) -> (flag: AclPermissions) {
        AclPermissions::of(Permission::Admin(value))
    }
}

impl FromSpecImpl<AclAdmin> for AclPermissions {
    open spec fn obeys_from_spec() -> bool {
        true
    }

    open spec fn from_spec(value: AclAdmin) -> AclPermissions {
        AclPermissions::spec_of(Permission::Admin(value))
    }
}

} // verus!
