use acl::{
    AccountId, Acl, AclEventId, AclPermissions, Counter, EventLog, PermissionStore, Requirement,
    Role,
};

fn alice() -> AccountId {
    AccountId::new("alice.near")
}

fn bob() -> AccountId {
    AccountId::new("bob.near")
}

#[test]
fn constructor_makes_the_caller_admin_of_every_role() {
    let mut log = EventLog::new();
    let contract = Counter::new(&alice(), &mut log);
    for role in Role::catalog() {
        assert!(contract.acl_is_admin(role, &alice()));
        assert!(!contract.acl_has_role(role, &alice()));
        assert!(!contract.acl_is_admin(role, &bob()));
        assert!(!contract.acl_has_role(role, &bob()));
    }
}

#[test]
fn constructor_emits_one_event_for_each_role() {
    let mut log = EventLog::new();
    let _ = Counter::new(&alice(), &mut log);
    assert_eq!(log.len(), 3);
    assert_eq!(log.count(AclEventId::AdminAdded), 3);
    for (i, role) in Role::catalog().into_iter().enumerate() {
        let event = log.get(i).expect("one event for each role");
        assert_eq!(event.event, AclEventId::AdminAdded);
        assert_eq!(event.data.role, role);
        assert_eq!(event.data.account_id, alice());
        assert_eq!(event.data.predecessor, alice());
    }
}

#[test]
fn contract_methods_answer_with_options() {
    let mut log = EventLog::new();
    let mut contract = Counter::new(&alice(), &mut log);
    assert_eq!(contract.acl_add_admin(Role::L1, &bob(), &bob(), &mut log), None);
    assert_eq!(contract.acl_add_admin(Role::L1, &bob(), &alice(), &mut log), Some(true));
    assert_eq!(contract.acl_add_admin(Role::L1, &bob(), &alice(), &mut log), Some(false));
    assert!(contract.acl_is_admin(Role::L1, &bob()));
    assert_eq!(contract.acl_grant_role(Role::L2, &bob(), &bob(), &mut log), None);
    assert_eq!(contract.acl_grant_role(Role::L1, &alice(), &bob(), &mut log), Some(true));
    assert!(contract.acl_has_role(Role::L1, &alice()));
    assert_eq!(contract.acl_revoke_role(Role::L1, &alice(), &bob(), &mut log), Some(true));
    assert_eq!(contract.acl_revoke_role(Role::L1, &alice(), &bob(), &mut log), Some(false));
    assert_eq!(contract.acl_revoke_role(Role::L3, &alice(), &bob(), &mut log), None);
    assert_eq!(contract.acl_revoke_admin(Role::L1, &bob(), &alice(), &mut log), Some(true));
    assert_eq!(contract.acl_revoke_admin(Role::L1, &alice(), &bob(), &mut log), None);
    assert!(!contract.acl_is_admin(Role::L1, &bob()));
    assert_eq!(log.count(AclEventId::AdminAdded), 4);
    assert_eq!(log.count(AclEventId::AdminRevoked), 1);
    assert_eq!(log.count(AclEventId::RoleGranted), 1);
    assert_eq!(log.count(AclEventId::RoleRevoked), 1);
}

#[test]
fn contract_renouncing() {
    let mut log = EventLog::new();
    let mut contract = Counter::new(&alice(), &mut log);
    assert_eq!(contract.acl_grant_role(Role::L2, &bob(), &alice(), &mut log), Some(true));
    assert!(contract.acl_renounce_role(Role::L2, &bob(), &mut log));
    assert!(!contract.acl_renounce_role(Role::L2, &bob(), &mut log));
    assert!(!contract.acl_has_role(Role::L2, &bob()));
    assert!(contract.acl_renounce_admin(Role::L3, &alice(), &mut log));
    assert!(!contract.acl_renounce_admin(Role::L3, &alice(), &mut log));
    assert!(!contract.acl_is_admin(Role::L3, &alice()));
    assert!(contract.acl_is_admin(Role::L1, &alice()));
}

#[test]
fn guarded_methods() {
    let mut log = EventLog::new();
    let mut contract = Counter::new(&alice(), &mut log);
    assert!(contract.foo2(&bob()).is_err());
    assert!(contract.foo3(&bob()).is_err());
    assert!(contract.foo4(&bob()).is_err());

    assert_eq!(contract.acl_grant_role(Role::L1, &bob(), &alice(), &mut log), Some(true));
    assert!(contract.foo2(&bob()).is_err());
    assert!(contract.foo3(&bob()).is_ok());
    assert!(contract.foo4(&bob()).is_err());

    assert_eq!(contract.acl_grant_role(Role::L3, &bob(), &alice(), &mut log), Some(true));
    assert!(contract.foo2(&bob()).is_err());
    assert!(contract.foo4(&bob()).is_ok());

    assert_eq!(contract.acl_grant_role(Role::L2, &bob(), &alice(), &mut log), Some(true));
    assert!(contract.foo2(&bob()).is_ok());
}

#[test]
fn guarded_methods_name_what_is_missing() {
    let mut log = EventLog::new();
    let contract = Counter::new(&alice(), &mut log);

    let failure = contract.foo2(&alice()).expect_err("an admin does not hold the role");
    assert_eq!(failure.requirement, Requirement::Any);
    assert_eq!(failure.required, AclPermissions::from(Role::L2));
    assert_eq!(failure.account_id, alice());
    assert_eq!(
        failure.message(),
        "Account alice.near has must have at least one role of L2"
    );

    let failure = contract.foo3(&bob()).expect_err("bob holds nothing");
    assert_eq!(failure.required.bits(), 0b1010);
    assert_eq!(
        failure.message(),
        "Account bob.near has must have at least one role of L1 | L2"
    );

    let failure = contract.foo4(&bob()).expect_err("bob holds nothing");
    assert_eq!(failure.requirement, Requirement::All);
    assert_eq!(failure.required.bits(), 0b100010);
    assert_eq!(failure.message(), "Account bob.near must have all roles in L1 | L3");
}

#[test]
fn new_contract_counts_from_zero() {
    let mut log = EventLog::new();
    let contract = Counter::new(&alice(), &mut log);
    assert_eq!(contract.counter(), 0);
    assert_eq!(contract.acl().get_or_init_permissions(&alice()).bits(), 0b1010100);
}

#[test]
fn contract_from_parts() {
    let mut store = PermissionStore::new();
    store.store(&bob(), AclPermissions::from(Role::L2));
    let contract = Counter::from_parts(7, Acl::with_permissions(store));
    assert_eq!(contract.counter(), 7);
    assert!(contract.acl_has_role(Role::L2, &bob()));
    assert!(!contract.acl_is_admin(Role::L2, &bob()));
    assert!(contract.foo2(&bob()).is_ok());
    assert_eq!(contract.acl().get_or_init_permissions(&bob()).bits(), 0b1000);
    assert_eq!(contract.acl().permissions().get(&alice()), None);
}
