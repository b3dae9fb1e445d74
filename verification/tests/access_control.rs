use acl::{
    AccountId, Acl, AclAdmin, AclEventId, AclPermissions, EventLog, Outcome, PermissionStore,
    Requirement, Role,
};

fn alice() -> AccountId {
    AccountId::new("alice.near")
}

fn bob() -> AccountId {
    AccountId::new("bob.near")
}

fn carol() -> AccountId {
    AccountId::new("carol.near")
}

/// A list in which `alice` is admin of every role, and a log that holds
/// the three events of that.
fn list_with_admin() -> (Acl, EventLog) {
    let mut acl = Acl::new();
    let mut log = EventLog::new();
    for role in Role::catalog() {
        assert!(acl.add_admin_unchecked(role, &alice(), &alice(), &mut log));
    }
    (acl, log)
}

fn list_holding(account_id: &AccountId, permissions: AclPermissions) -> Acl {
    let mut store = PermissionStore::new();
    store.store(account_id, permissions);
    Acl::with_permissions(store)
}

#[test]
fn new_list_holds_nothing() {
    let acl = Acl::new();
    for role in Role::catalog() {
        assert!(!acl.is_admin(role, &alice()));
        assert!(!acl.has_role(role, &alice()));
    }
    assert_eq!(acl.get_or_init_permissions(&alice()), AclPermissions::empty());
    assert_eq!(acl.permissions().get(&alice()), None);
}

#[test]
fn reading_does_not_store() {
    let acl = Acl::new();
    let _ = acl.get_or_init_permissions(&alice());
    let _ = acl.is_admin(Role::L1, &alice());
    let _ = acl.has_role(Role::L1, &alice());
    let _ = acl.check_any(AclPermissions::all(), &alice());
    let _ = acl.check_all(AclPermissions::all(), &alice());
    assert_eq!(acl.permissions().get(&alice()), None);
}

#[test]
fn add_admin_unchecked_sets_the_admin_bit() {
    let mut acl = Acl::new();
    let mut log = EventLog::new();
    assert!(acl.add_admin_unchecked(Role::L2, &bob(), &alice(), &mut log));
    assert!(acl.is_admin(Role::L2, &bob()));
    assert!(!acl.is_admin(Role::L1, &bob()));
    assert!(!acl.is_admin(Role::L3, &bob()));
    assert!(!acl.has_role(Role::L2, &bob()));
    assert_eq!(acl.get_or_init_permissions(&bob()).bits(), 0b10000);
    assert_eq!(log.len(), 1);
    let event = log.get(0).expect("one event");
    assert_eq!(event.event, AclEventId::AdminAdded);
    assert_eq!(event.data.role, Role::L2);
    assert_eq!(event.data.account_id, bob());
    assert_eq!(event.data.predecessor, alice());
    assert_eq!(event.standard, "nep279");
    assert_eq!(event.version, "1.0.0");
}

#[test]
fn add_admin_unchecked_is_idempotent() {
    let mut acl = Acl::new();
    let mut log = EventLog::new();
    assert!(acl.add_admin_unchecked(Role::L1, &bob(), &alice(), &mut log));
    assert!(!acl.add_admin_unchecked(Role::L1, &bob(), &alice(), &mut log));
    assert_eq!(acl.get_or_init_permissions(&bob()).bits(), 0b100);
    assert_eq!(log.len(), 1);
}

#[test]
fn unauthorized_add_admin_changes_nothing() {
    let (mut acl, mut log) = list_with_admin();
    let before = log.len();
    assert_eq!(acl.add_admin(Role::L1, &bob(), &carol(), &mut log), Outcome::Unauthorized);
    assert!(!acl.is_admin(Role::L1, &bob()));
    assert_eq!(acl.permissions().get(&bob()), None);
    assert_eq!(acl.permissions().get(&carol()), None);
    assert_eq!(log.len(), before);
}

#[test]
fn unauthorized_add_admin_leaves_an_admin_in_place() {
    let (mut acl, mut log) = list_with_admin();
    assert_eq!(acl.add_admin(Role::L1, &bob(), &alice(), &mut log), Outcome::Applied(true));
    let before = log.len();
    assert_eq!(acl.add_admin(Role::L2, &bob(), &bob(), &mut log), Outcome::Unauthorized);
    assert_eq!(acl.add_admin(Role::L1, &bob(), &carol(), &mut log), Outcome::Unauthorized);
    assert!(acl.is_admin(Role::L1, &bob()));
    assert!(!acl.is_admin(Role::L2, &bob()));
    assert_eq!(log.len(), before);
}

#[test]
fn add_admin_twice_applies_once() {
    let (mut acl, mut log) = list_with_admin();
    assert_eq!(log.count(AclEventId::AdminAdded), 3);
    assert_eq!(acl.add_admin(Role::L2, &bob(), &alice(), &mut log), Outcome::Applied(true));
    assert_eq!(acl.add_admin(Role::L2, &bob(), &alice(), &mut log), Outcome::Applied(false));
    assert!(acl.is_admin(Role::L2, &bob()));
    assert_eq!(log.count(AclEventId::AdminAdded), 4);
    assert_eq!(log.len(), 4);
    let event = log.get(3).expect("the event of the first call");
    assert_eq!(event.event, AclEventId::AdminAdded);
    assert_eq!(event.data.role, Role::L2);
    assert_eq!(event.data.account_id, bob());
    assert_eq!(event.data.predecessor, alice());
}

#[test]
fn add_admin_of_an_admin_applies_nothing() {
    let (mut acl, mut log) = list_with_admin();
    assert_eq!(acl.add_admin(Role::L1, &alice(), &alice(), &mut log), Outcome::Applied(false));
    assert_eq!(log.len(), 3);
}

#[test]
fn super_admin_is_admin_of_every_role() {
    let acl = list_holding(&carol(), AclPermissions::from(AclAdmin::Super));
    for role in Role::catalog() {
        assert!(acl.is_admin(role, &carol()));
        assert!(!acl.has_role(role, &carol()));
        assert!(!acl.is_admin(role, &alice()));
    }
    assert_eq!(acl.get_or_init_permissions(&carol()).bits(), 1);
}

#[test]
fn super_admin_may_act_for_every_role() {
    let mut acl = list_holding(&carol(), AclPermissions::from(AclAdmin::Super));
    let mut log = EventLog::new();
    for role in Role::catalog() {
        assert_eq!(acl.grant_role(role, &bob(), &carol(), &mut log), Outcome::Applied(true));
        assert_eq!(acl.add_admin(role, &bob(), &carol(), &mut log), Outcome::Applied(true));
    }
    assert_eq!(acl.get_or_init_permissions(&bob()).bits(), 0b1111110);
    assert_eq!(log.count(AclEventId::RoleGranted), 3);
    assert_eq!(log.count(AclEventId::AdminAdded), 3);
}

#[test]
fn admin_of_a_role_is_no_super_admin() {
    let (acl, _) = list_with_admin();
    assert_eq!(acl.get_or_init_permissions(&alice()).bits(), 0b1010100);
    assert!(!acl
        .get_or_init_permissions(&alice())
        .contains(AclPermissions::from(AclAdmin::Super)));
}

#[test]
fn revoking_an_admin_bit_leaves_a_super_admin_admin() {
    let both = AclPermissions::from(AclAdmin::Super).union(AclPermissions::from(AclAdmin::L1));
    let mut acl = list_holding(&alice(), both);
    let mut log = EventLog::new();
    assert!(acl.renounce_admin(Role::L1, &alice(), &mut log));
    assert!(acl.is_admin(Role::L1, &alice()));
    assert_eq!(acl.get_or_init_permissions(&alice()).bits(), 1);
    assert_eq!(log.count(AclEventId::AdminRevoked), 1);
}

#[test]
fn check_any_and_check_all_at_the_boundary() {
    let acl = list_holding(&bob(), AclPermissions::from(Role::L1));
    let required = AclPermissions::from(Role::L1).union(AclPermissions::from(Role::L2));
    assert!(acl.check_any(required, &bob()).is_ok());
    let failure = acl.check_all(required, &bob()).expect_err("role L2 is missing");
    assert_eq!(failure.requirement, Requirement::All);
    assert_eq!(failure.required, required);
    assert_eq!(failure.account_id, bob());
    assert_eq!(failure.message(), "Account bob.near must have all roles in L1 | L2");
}

#[test]
fn check_any_fails_without_any_of_them() {
    let acl = list_holding(&bob(), AclPermissions::from(Role::L3));
    let required = AclPermissions::from(Role::L1).union(AclPermissions::from(Role::L2));
    let failure = acl.check_any(required, &bob()).expect_err("neither role is held");
    assert_eq!(failure.requirement, Requirement::Any);
    assert_eq!(failure.required, required);
    assert_eq!(failure.account_id, bob());
    assert_eq!(
        failure.message(),
        "Account bob.near has must have at least one role of L1 | L2"
    );
    let unknown = acl.check_any(required, &carol()).expect_err("carol holds nothing");
    assert_eq!(unknown.account_id, carol());
}

#[test]
fn check_all_passes_with_all_of_them() {
    let required = AclPermissions::from(Role::L1).union(AclPermissions::from(Role::L3));
    let acl = list_holding(&bob(), AclPermissions::all());
    assert!(acl.check_all(required, &bob()).is_ok());
    assert!(acl.check_any(required, &bob()).is_ok());
    let exact = list_holding(&bob(), required);
    assert!(exact.check_all(required, &bob()).is_ok());
}

#[test]
fn checks_of_the_empty_requirement() {
    let acl = list_holding(&bob(), AclPermissions::from(Role::L1));
    assert!(acl.check_all(AclPermissions::empty(), &bob()).is_ok());
    assert!(acl.check_all(AclPermissions::empty(), &carol()).is_ok());
    let failure = acl
        .check_any(AclPermissions::empty(), &bob())
        .expect_err("nothing can be held of nothing");
    assert_eq!(
        failure.message(),
        "Account bob.near has must have at least one role of (empty)"
    );
}

#[test]
fn admin_bit_does_not_pass_for_the_role() {
    let (acl, _) = list_with_admin();
    assert!(acl.check_any(AclPermissions::from(Role::L1), &alice()).is_err());
    assert!(acl.check_any(AclPermissions::from(AclAdmin::L1), &alice()).is_ok());
}

#[test]
fn grant_then_renounce() {
    let (mut acl, mut log) = list_with_admin();
    assert_eq!(acl.grant_role(Role::L3, &bob(), &alice(), &mut log), Outcome::Applied(true));
    assert!(acl.has_role(Role::L3, &bob()));
    assert!(acl.renounce_role(Role::L3, &bob(), &mut log));
    assert!(!acl.has_role(Role::L3, &bob()));
    assert_eq!(log.count(AclEventId::RoleGranted), 1);
    assert_eq!(log.count(AclEventId::RoleRevoked), 1);
    let event = log.get(4).expect("the event of the renouncing");
    assert_eq!(event.event, AclEventId::RoleRevoked);
    assert_eq!(event.data.role, Role::L3);
    assert_eq!(event.data.account_id, bob());
    assert_eq!(event.data.predecessor, bob());
    assert!(!acl.renounce_role(Role::L3, &bob(), &mut log));
    assert_eq!(log.count(AclEventId::RoleRevoked), 1);
}

#[test]
fn revoke_role_needs_an_admin() {
    let (mut acl, mut log) = list_with_admin();
    assert_eq!(acl.grant_role(Role::L3, &bob(), &alice(), &mut log), Outcome::Applied(true));
    let before = log.len();
    assert_eq!(acl.revoke_role(Role::L3, &bob(), &carol(), &mut log), Outcome::Unauthorized);
    assert!(acl.has_role(Role::L3, &bob()));
    assert_eq!(acl.revoke_role(Role::L3, &bob(), &bob(), &mut log), Outcome::Unauthorized);
    assert!(acl.has_role(Role::L3, &bob()));
    assert_eq!(log.len(), before);
    assert_eq!(acl.revoke_role(Role::L3, &bob(), &alice(), &mut log), Outcome::Applied(true));
    assert!(!acl.has_role(Role::L3, &bob()));
    assert_eq!(acl.revoke_role(Role::L3, &bob(), &alice(), &mut log), Outcome::Applied(false));
    assert_eq!(log.count(AclEventId::RoleRevoked), 1);
}

#[test]
fn grant_role_needs_an_admin() {
    let (mut acl, mut log) = list_with_admin();
    assert_eq!(acl.grant_role(Role::L1, &bob(), &bob(), &mut log), Outcome::Unauthorized);
    assert!(!acl.has_role(Role::L1, &bob()));
    assert_eq!(log.count(AclEventId::RoleGranted), 0);
    assert_eq!(acl.grant_role(Role::L1, &bob(), &alice(), &mut log), Outcome::Applied(true));
    assert_eq!(acl.grant_role(Role::L1, &bob(), &alice(), &mut log), Outcome::Applied(false));
    assert_eq!(acl.get_or_init_permissions(&bob()).bits(), 0b10);
    assert_eq!(log.count(AclEventId::RoleGranted), 1);
}

#[test]
fn grant_role_unchecked_asks_nobody() {
    let mut acl = Acl::new();
    let mut log = EventLog::new();
    assert!(acl.grant_role_unchecked(Role::L2, &bob(), &carol(), &mut log));
    assert!(!acl.grant_role_unchecked(Role::L2, &bob(), &carol(), &mut log));
    assert!(acl.has_role(Role::L2, &bob()));
    assert!(!acl.is_admin(Role::L2, &bob()));
    assert_eq!(log.len(), 1);
    assert!(acl.revoke_role_unchecked(Role::L2, &bob(), &carol(), &mut log));
    assert!(!acl.revoke_role_unchecked(Role::L2, &bob(), &carol(), &mut log));
    assert!(!acl.has_role(Role::L2, &bob()));
    assert_eq!(log.len(), 2);
    assert_eq!(acl.permissions().get(&bob()), Some(AclPermissions::empty()));
}

#[test]
fn revoke_admin_takes_the_admin_bit() {
    let (mut acl, mut log) = list_with_admin();
    assert_eq!(acl.add_admin(Role::L1, &bob(), &alice(), &mut log), Outcome::Applied(true));
    assert_eq!(acl.revoke_admin(Role::L1, &bob(), &alice(), &mut log), Outcome::Applied(true));
    assert!(!acl.is_admin(Role::L1, &bob()));
    assert_eq!(acl.revoke_admin(Role::L1, &bob(), &alice(), &mut log), Outcome::Applied(false));
    assert_eq!(log.count(AclEventId::AdminRevoked), 1);
    let event = log.get(4).expect("the event of the revoking");
    assert_eq!(event.event, AclEventId::AdminRevoked);
    assert_eq!(event.data.role, Role::L1);
    assert_eq!(event.data.account_id, bob());
    assert_eq!(event.data.predecessor, alice());
}

#[test]
fn revoke_admin_needs_an_admin() {
    let (mut acl, mut log) = list_with_admin();
    assert_eq!(acl.revoke_admin(Role::L1, &alice(), &bob(), &mut log), Outcome::Unauthorized);
    assert!(acl.is_admin(Role::L1, &alice()));
    assert_eq!(log.count(AclEventId::AdminRevoked), 0);
}

#[test]
fn revoke_admin_unchecked_of_a_stranger_stores_nothing() {
    let mut acl = Acl::new();
    let mut log = EventLog::new();
    assert!(!acl.revoke_admin_unchecked(Role::L1, &bob(), &alice(), &mut log));
    assert!(!acl.revoke_role_unchecked(Role::L1, &bob(), &alice(), &mut log));
    assert_eq!(acl.permissions().get(&bob()), None);
    assert_eq!(log.len(), 0);
}

#[test]
fn renounce_admin_ends_the_own_rights() {
    let (mut acl, mut log) = list_with_admin();
    assert!(acl.renounce_admin(Role::L2, &alice(), &mut log));
    assert!(!acl.is_admin(Role::L2, &alice()));
    assert!(acl.is_admin(Role::L1, &alice()));
    assert!(acl.is_admin(Role::L3, &alice()));
    assert!(!acl.renounce_admin(Role::L2, &alice(), &mut log));
    assert_eq!(acl.add_admin(Role::L2, &bob(), &alice(), &mut log), Outcome::Unauthorized);
    assert_eq!(log.count(AclEventId::AdminRevoked), 1);
    let event = log.get(3).expect("the event of the renouncing");
    assert_eq!(event.data.account_id, alice());
    assert_eq!(event.data.predecessor, alice());
}

#[test]
fn an_admin_who_revokes_itself_is_then_unauthorized() {
    let (mut acl, mut log) = list_with_admin();
    assert_eq!(acl.revoke_admin(Role::L1, &alice(), &alice(), &mut log), Outcome::Applied(true));
    assert_eq!(acl.revoke_admin(Role::L1, &alice(), &alice(), &mut log), Outcome::Unauthorized);
    assert_eq!(log.count(AclEventId::AdminRevoked), 1);
}

#[test]
fn events_count_the_changes() {
    let (mut acl, mut log) = list_with_admin();
    let mut added = 3;
    let mut revoked = 0;
    let mut granted = 0;
    let mut taken = 0;
    let accounts = [alice(), bob(), carol()];
    for round in 0..3 {
        for role in Role::catalog() {
            for caller in &accounts {
                for target in &accounts {
                    if acl.grant_role(role, target, caller, &mut log) == Outcome::Applied(true) {
                        granted += 1;
                    }
                    if round == 1
                        && acl.add_admin(role, target, caller, &mut log) == Outcome::Applied(true)
                    {
                        added += 1;
                    }
                    if round == 2 {
                        if acl.revoke_role(role, target, caller, &mut log)
                            == Outcome::Applied(true)
                        {
                            taken += 1;
                        }
                        if acl.renounce_role(role, caller, &mut log) {
                            taken += 1;
                        }
                        if acl.revoke_admin(role, target, caller, &mut log)
                            == Outcome::Applied(true)
                        {
                            revoked += 1;
                        }
                    }
                }
            }
        }
    }
    assert_eq!(log.count(AclEventId::AdminAdded), added);
    assert_eq!(log.count(AclEventId::AdminRevoked), revoked);
    assert_eq!(log.count(AclEventId::RoleGranted), granted);
    assert_eq!(log.count(AclEventId::RoleRevoked), taken);
    assert_eq!(log.len(), added + revoked + granted + taken);
    assert!(granted > 9);
    assert!(revoked > 0);
    assert!(taken > 0);
}

#[test]
fn outcome_as_option() {
    assert_eq!(Outcome::Unauthorized.applied(), None);
    assert_eq!(Outcome::Applied(true).applied(), Some(true));
    assert_eq!(Outcome::Applied(false).applied(), Some(false));
}
