//! What holds of the access control list, whatever its state and whoever
//! calls.

use crate::acl::{
    has_role_in, is_admin_in, satisfies_all, satisfies_any, step, Call, Outcome, State,
};
use crate::contract::bootstrapped;
use crate::event::{count_of, AclEventId, EventRecord};
use crate::permissions::Permission;
use crate::role::{AclAdmin, Role};
use crate::store::{held, Holdings};
use vstd::prelude::*;

verus! {

/// The state after the calls in `calls` have been made one after the other,
/// starting from `state`.
pub open spec fn run(state: State, calls: Seq<Call>) -> State
    decreases calls.len(),
{
    if calls.len() == 0 {
        state
    } else {
        step(run(state, calls.drop_last()), calls.last())
    }
}

/// How many of the calls in `calls`, made one after the other starting from
/// `state`, are calls of action `id` that change a permission.
pub open spec fn transitions(state: State, calls: Seq<Call>, id: AclEventId) -> nat
    decreases calls.len(),
{
    if calls.len() == 0 {
        0
    } else {
        let earlier = calls.drop_last();
        let last = calls.last();
        transitions(state, earlier, id) + if last.action == id && last.changes(
            run(state, earlier).holdings,
        ) {
            1nat
        } else {
            0nat
        }
    }
}

/// Appending a record raises the count of its own kind by one, and no other
/// count.
pub proof fn lemma_count_after_push(log: Seq<EventRecord>, record: EventRecord, id: AclEventId)
    ensures
        count_of(log.push(record), id) == count_of(log, id) + if record.event == id {
            1nat
        } else {
            0nat
        },
{
    assert(log.push(record).drop_last() =~= log);
}

/// After construction by `caller`, `caller` is an admin for every role of
/// the catalog and has been granted none of them.
pub proof fn law_bootstrap(caller: Seq<char>, log: Seq<EventRecord>, role: Role)
    ensures
        is_admin_in(bootstrapped(caller, log).holdings, role, caller),
        !has_role_in(bootstrapped(caller, log).holdings, role, caller),
{
}

/// A checked call by an account that is not an admin for the role answers
/// `Unauthorized` and leaves everything as it was: every account holds
/// what it held, and no event is recorded.
pub proof fn law_unauthorized_changes_nothing(state: State, call: Call)
    requires
        call.checked,
        !is_admin_in(state.holdings, call.role, call.predecessor),
    ensures
        call.outcome(state.holdings) == Outcome::Unauthorized,
        step(state, call) == state,
{
}

/// A call changes the account it is about, and no other; and it changes
/// at most the one permission it is about.
pub proof fn law_call_changes_one_permission(
    state: State,
    call: Call,
    account_id: Seq<char>,
    permission: Permission,
)
    requires
        account_id != call.account_id || permission != call.permission(),
    ensures
        held(step(state, call).holdings, account_id).contains(permission) == held(
            state.holdings,
            account_id,
        ).contains(permission),
{
}

/// A call that is allowed to act leaves the account with the permission if
/// it adds, and without it if it takes away.
pub proof fn law_permitted_call_takes_effect(state: State, call: Call)
    requires
        call.permitted(state.holdings),
    ensures
        held(step(state, call).holdings, call.account_id).contains(call.permission())
            == call.adds(),
{
}

/// A call emits exactly one event if it changes a permission, and none if
/// it changes nothing.
pub proof fn law_event_exactly_on_change(state: State, call: Call)
    ensures
        call.changes(state.holdings) ==> step(state, call).log == state.log.push(call.record()),
        !call.changes(state.holdings) ==> step(state, call) == state,
        call.record().event == call.action,
{
}

/// Making the same call again changes nothing more.
pub proof fn law_idempotent(state: State, call: Call)
    ensures
        step(step(state, call), call) == step(state, call),
{
    let once = step(state, call);
    if call.changes(state.holdings) {
        assert(held(once.holdings, call.account_id).contains(call.permission()) == call.adds());
    }
}

/// When an admin adds an account that is not yet an admin for the role,
/// and then makes the same call again, the first call answers
/// `Applied(true)`, the second `Applied(false)`, and exactly one
/// `AdminAdded` event is recorded in total.
pub proof fn law_add_admin_twice(
    state: State,
    role: Role,
    account_id: Seq<char>,
    caller: Seq<char>,
)
    requires
        is_admin_in(state.holdings, role, caller),
        !held(state.holdings, account_id).contains(Permission::Admin(role.spec_admin())),
    ensures
        ({
            let call = Call::checked(AclEventId::AdminAdded, role, account_id, caller);
            let once = step(state, call);
            let twice = step(once, call);
            &&& call.outcome(state.holdings) == Outcome::Applied(true)
            &&& call.outcome(once.holdings) == Outcome::Applied(false)
            &&& twice.log == state.log.push(call.record())
            &&& count_of(twice.log, AclEventId::AdminAdded) == count_of(
                state.log,
                AclEventId::AdminAdded,
            ) + 1
        }),
{
    let call = Call::checked(AclEventId::AdminAdded, role, account_id, caller);
    let once = step(state, call);
    assert(held(once.holdings, account_id).contains(Permission::Admin(role.spec_admin())));
    if caller == account_id {
        assert(held(once.holdings, caller) == held(state.holdings, caller).insert(
            Permission::Admin(role.spec_admin()),
        ));
    } else {
        assert(held(once.holdings, caller) == held(state.holdings, caller));
    }
    assert(is_admin_in(once.holdings, role, caller));
    lemma_count_after_push(state.log, call.record(), AclEventId::AdminAdded);
}

/// Being an admin for every role does not make a super-admin: after
/// construction, the caller is an admin for every role and does not hold
/// the super-admin permission.
pub proof fn law_admin_of_all_is_no_super_admin(caller: Seq<char>, log: Seq<EventRecord>)
    ensures
        forall|role: Role| is_admin_in(bootstrapped(caller, log).holdings, role, caller),
        !held(bootstrapped(caller, log).holdings, caller).contains(
            Permission::Admin(AclAdmin::Super),
        ),
{
}

/// An account that holds the super-admin permission is an admin for every
/// role, also for roles that it was never made an admin of.
pub proof fn law_super_admin_administers_all(holdings: Holdings, account_id: Seq<char>, role: Role)
    requires
        held(holdings, account_id).contains(Permission::Admin(AclAdmin::Super)),
    ensures
        is_admin_in(holdings, role, account_id),
{
}

/// An account that holds the grant of one role and nothing else meets
/// "any of this role and another", and fails "all of this role and
/// another".
pub proof fn law_any_all_boundary(
    holdings: Holdings,
    account_id: Seq<char>,
    granted: Role,
    other: Role,
)
    requires
        held(holdings, account_id) == set![Permission::Grant(granted)],
        granted != other,
    ensures
        satisfies_any(
            holdings,
            set![Permission::Grant(granted), Permission::Grant(other)],
            account_id,
        ),
        !satisfies_all(
            holdings,
            set![Permission::Grant(granted), Permission::Grant(other)],
            account_id,
        ),
{
    let required = set![Permission::Grant(granted), Permission::Grant(other)];
    assert(held(holdings, account_id).contains(Permission::Grant(granted)));
    assert(required.contains(Permission::Grant(granted)));
    assert(required.contains(Permission::Grant(other)));
    assert(!held(holdings, account_id).contains(Permission::Grant(other)));
}

/// After an admin has granted a role to an account, the account holds the
/// role; after the account has renounced the role, it no longer holds it.
pub proof fn law_renounce_after_grant(
    state: State,
    role: Role,
    account_id: Seq<char>,
    admin: Seq<char>,
)
    requires
        is_admin_in(state.holdings, role, admin),
    ensures
        ({
            let granted = step(
                state,
                Call::checked(AclEventId::RoleGranted, role, account_id, admin),
            );
            let renounced = step(
                granted,
                Call::unchecked(AclEventId::RoleRevoked, role, account_id, account_id),
            );
            &&& has_role_in(granted.holdings, role, account_id)
            &&& !has_role_in(renounced.holdings, role, account_id)
        }),
{
}

/// After an admin has granted a role to an account, an account that is not
/// an admin for the role cannot revoke it: the call answers `Unauthorized`
/// and the role stays granted.
pub proof fn law_revoke_needs_admin(
    state: State,
    role: Role,
    account_id: Seq<char>,
    admin: Seq<char>,
    caller: Seq<char>,
)
    requires
        is_admin_in(state.holdings, role, admin),
        !is_admin_in(state.holdings, role, caller),
    ensures
        ({
            let granted = step(
                state,
                Call::checked(AclEventId::RoleGranted, role, account_id, admin),
            );
            let revoke = Call::checked(AclEventId::RoleRevoked, role, account_id, caller);
            &&& revoke.outcome(granted.holdings) == Outcome::Unauthorized
            &&& step(granted, revoke) == granted
            &&& has_role_in(step(granted, revoke).holdings, role, account_id)
        }),
{
    let grant = Call::checked(AclEventId::RoleGranted, role, account_id, admin);
    law_call_changes_one_permission(
        state,
        grant,
        caller,
        Permission::Admin(AclAdmin::Super),
    );
    law_call_changes_one_permission(
        state,
        grant,
        caller,
        Permission::Admin(role.spec_admin()),
    );
}

/// The name of an event tells its kind: no two kinds share a name.
pub proof fn law_event_name_tells_kind(id: AclEventId, other: AclEventId)
    ensures
        id.spec_name() == other.spec_name() <==> id == other,
{
    reveal_strlit("acl_admin_added");
    reveal_strlit("acl_admin_revoked");
    reveal_strlit("acl_role_granted");
    reveal_strlit("acl_role_revoked");
    let a = id.spec_name();
    let b = other.spec_name();
    if id != other && a == b {
        assert(a[4] == b[4]);
        assert(a[9] == b[9]);
        assert(a[10] == b[10]);
    }
}

/// The log only grows: what was recorded before a sequence of calls stands
/// unchanged at the start of the log after it.
pub proof fn law_log_append_only(state: State, calls: Seq<Call>)
    ensures
        state.log.is_prefix_of(run(state, calls).log),
    decreases calls.len(),
{
    if calls.len() > 0 {
        law_log_append_only(state, calls.drop_last());
    }
}

/// For any sequence of calls, the number of events of a kind that the
/// sequence emits equals the number of its calls that changed a permission
/// by that action: never more, never fewer.
pub proof fn law_event_count(state: State, calls: Seq<Call>, id: AclEventId)
    ensures
        count_of(run(state, calls).log, id) == count_of(state.log, id) + transitions(
            state,
            calls,
            id,
        ),
    decreases calls.len(),
{
    if calls.len() > 0 {
        let earlier = calls.drop_last();
        let last = calls.last();
        law_event_count(state, earlier, id);
        let before = run(state, earlier);
        if last.changes(before.holdings) {
            lemma_count_after_push(before.log, last.record(), id);
        }
    }
}

} // verus!
