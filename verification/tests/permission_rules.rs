use decorum::permission::{
    is_allowed, permission_for_attachment_upload, permission_for_important_actions, Permission,
};

const LEVELS: [Permission; 5] = [
    Permission::Banned,
    Permission::Unverified,
    Permission::User,
    Permission::Admin,
    Permission::Root,
];

fn ladder_rank(p: Permission) -> u32 {
    match p {
        Permission::Banned => 0,
        Permission::Unverified => 1,
        Permission::User => 2,
        Permission::Admin => 3,
        Permission::Root => 4,
    }
}

#[test]
fn is_allowed_is_reflexive() {
    for p in LEVELS {
        assert!(is_allowed(&p, &p));
    }
}

#[test]
fn is_allowed_is_monotonic_on_the_ladder() {
    for held in LEVELS {
        for required in LEVELS {
            if required != Permission::Banned && ladder_rank(required) <= ladder_rank(held) {
                assert!(is_allowed(&held, &required));
            }
        }
    }
}

#[test]
fn root_allows_every_ladder_level() {
    for required in LEVELS {
        if required != Permission::Banned {
            assert!(is_allowed(&Permission::Root, &required));
        }
    }
}

#[test]
fn is_allowed_exact_table() {
    // The full Cartesian product: allowed exactly when both are Banned, or
    // neither is and the held rank reaches the required rank.
    for held in LEVELS {
        for required in LEVELS {
            let expected = if held == Permission::Banned || required == Permission::Banned {
                held == Permission::Banned && required == Permission::Banned
            } else {
                ladder_rank(required) <= ladder_rank(held)
            };
            assert_eq!(is_allowed(&held, &required), expected);
        }
    }
}

#[test]
fn banned_is_incomparable() {
    assert!(is_allowed(&Permission::Banned, &Permission::Banned));
    assert!(!is_allowed(&Permission::Banned, &Permission::Unverified));
    assert!(!is_allowed(&Permission::Root, &Permission::Banned));
}

#[test]
fn fixed_thresholds() {
    assert_eq!(permission_for_attachment_upload(), Permission::User);
    assert_eq!(permission_for_important_actions(), Permission::Admin);
}

#[test]
fn default_permission_is_unverified() {
    assert_eq!(Permission::default(), Permission::Unverified);
}

#[test]
fn permission_names() {
    assert_eq!(Permission::Admin.name(), "Admin");
    assert_eq!(Permission::Unverified.name(), "Unverified");
}
