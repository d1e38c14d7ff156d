use decorum::lifecycle;
use decorum::models::{Id, InvalidLength, Name, Title, Content};
use decorum::password::{Password, PasswordError};
use decorum::permission::Permission;
use decorum::response::{error_response, ApiError, DenialReason, EntityKind, ValidationFault};
use decorum::store::Store;
use decorum::gate::Gate;

const NOW: &str = "2024-05-01T00:00:00Z";
const LATER: &str = "2024-05-02T00:00:00Z";

fn id(s: &str) -> Id {
    Id::from_text(s.to_string()).unwrap()
}

fn name(s: &str) -> Name {
    Name::from_text(s.to_string()).unwrap()
}

fn password(s: &str) -> Password {
    Password::from_text(s.to_string()).unwrap()
}

#[test]
fn register_and_login_round_trip() {
    let mut store = Store::new();
    let uid = lifecycle::register(&mut store, name("alice"), &password("correct horse"), NOW)
        .unwrap();
    assert_eq!(uid.as_str().len(), 8);
    let logged_in = lifecycle::login(&store, &name("alice"), &password("correct horse")).unwrap();
    assert_eq!(logged_in, uid);
    let user = store.user_from_username(&name("alice")).unwrap();
    assert_eq!(user.permission, Permission::Unverified);
    assert_eq!(user.nickname, None);
    assert!(!user.deleted);
    assert_eq!(user.date_created, NOW);
}

#[test]
fn login_rejects_wrong_password_and_unknown_user() {
    let mut store = Store::new();
    lifecycle::register(&mut store, name("alice"), &password("correct horse"), NOW).unwrap();
    let r = lifecycle::login(&store, &name("alice"), &password("wrong horse!"));
    assert_eq!(
        r.unwrap_err(),
        ApiError::ValidationFailed(ValidationFault::InvalidCredentials)
    );
    let r = lifecycle::login(&store, &name("nobody"), &password("correct horse"));
    assert_eq!(
        r.unwrap_err(),
        ApiError::ValidationFailed(ValidationFault::InvalidCredentials)
    );
}

#[test]
fn register_duplicate_username_fails_without_duplicate_record() {
    let mut store = Store::new();
    lifecycle::register(&mut store, name("alice"), &password("first password"), NOW).unwrap();
    assert_eq!(store.user_count(), 1);
    let r = lifecycle::register(&mut store, name("alice"), &password("other password"), NOW);
    let e = r.unwrap_err();
    assert_eq!(e, ApiError::ValidationFailed(ValidationFault::UserAlreadyExists));
    assert_eq!(e.message(), "user already exists");
    assert_eq!(store.user_count(), 1);
    // The stored credential is still the first one.
    lifecycle::login(&store, &name("alice"), &password("first password")).unwrap();
}

#[test]
fn edit_user_merges_supplied_fields() {
    let mut store = Store::new();
    let uid = lifecycle::register(&mut store, name("alice"), &password("correct horse"), NOW)
        .unwrap();
    // Set a nickname; everything else is copied unchanged.
    lifecycle::edit_user(&mut store, &uid, Some(Some(name("Ally"))), None, None, LATER).unwrap();
    let u = store.user_from_id(&uid).unwrap();
    assert_eq!(u.nickname.as_ref().map(|n| n.as_str().to_string()), Some("Ally".to_string()));
    assert_eq!(u.permission, Permission::Unverified);
    // Every edit stamps the edit time.
    assert_eq!(u.date_edited.as_deref(), Some(LATER));
    // A supplied `None` clears the field; an absent field is kept.
    lifecycle::edit_user(&mut store, &uid, Some(None), None, None, LATER).unwrap();
    assert!(store.user_from_id(&uid).unwrap().nickname.is_none());
    // A password change takes effect for the next login.
    lifecycle::edit_user(&mut store, &uid, None, None, Some(password("brand new pass")), LATER)
        .unwrap();
    lifecycle::login(&store, &name("alice"), &password("brand new pass")).unwrap();
    let stale = lifecycle::login(&store, &name("alice"), &password("correct horse"));
    assert_eq!(
        stale.unwrap_err(),
        ApiError::ValidationFailed(ValidationFault::InvalidCredentials)
    );
}

#[test]
fn edit_user_unknown_actor_is_not_found() {
    let mut store = Store::new();
    let r = lifecycle::edit_user(&mut store, &id("ghost123"), None, None, None, NOW);
    assert_eq!(r.unwrap_err(), ApiError::NotFound(EntityKind::User));
}

#[test]
fn permission_grants_are_bounded_by_the_granter() {
    let mut store = Store::new();
    let root = lifecycle::register(&mut store, name("root"), &password("root password"), NOW)
        .unwrap();
    let alice = lifecycle::register(&mut store, name("alice"), &password("some password"), NOW)
        .unwrap();
    // Bootstrap: promote the first user directly in the store layer.
    lifecycle::register(&mut store, name("carol"), &password("some password"), NOW).unwrap();
    // An Unverified actor cannot grant anything.
    let r = lifecycle::edit_user_permission(&mut store, &alice, &root, Permission::User, NOW);
    assert_eq!(
        r.unwrap_err(),
        ApiError::Unauthorized(DenialReason::Threshold {
            held: Permission::Unverified,
            required: Permission::Admin,
        })
    );
    store_promote(&mut store, &root);
    // An Admin cannot grant Root (a level above their own).
    let r = lifecycle::edit_user_permission(&mut store, &root, &alice, Permission::Root, NOW);
    assert_eq!(
        r.unwrap_err(),
        ApiError::Unauthorized(DenialReason::Threshold {
            held: Permission::Admin,
            required: Permission::Root,
        })
    );
    lifecycle::edit_user_permission(&mut store, &root, &alice, Permission::Admin, LATER).unwrap();
    let u = store.user_from_id(&alice).unwrap();
    assert_eq!(u.permission, Permission::Admin);
    assert_eq!(u.username.as_str(), "alice");
    assert_eq!(u.date_edited.as_deref(), Some(LATER));
    // Granting to an unknown target does not resolve.
    let r = lifecycle::edit_user_permission(&mut store, &root, &id("ghost123"), Permission::User, NOW);
    assert_eq!(r.unwrap_err(), ApiError::NotFound(EntityKind::User));
}

/// Promotes a user to Admin through the one self-service path a fresh
/// store offers: an existing Admin. For tests, install one via the store
/// contract directly.
fn store_promote(store: &mut Store, uid: &Id) {
    let admin_seed = decorum::store::CreateUser {
        username: name("seedadmin"),
        nickname: None,
        password: decorum::password::HashedPassword::from_text("seed".to_string()),
        permission: Permission::Admin,
        avatar_id: None,
    };
    store.create_user(admin_seed, id("seedadm1"), NOW).unwrap();
    lifecycle::edit_user_permission(store, &id("seedadm1"), uid, Permission::Admin, NOW).unwrap();
}

#[test]
fn user_from_id_resolves_or_not_found() {
    let mut store = Store::new();
    let uid = lifecycle::register(&mut store, name("alice"), &password("correct horse"), NOW)
        .unwrap();
    let u = lifecycle::user_from_id(&store, &uid).unwrap();
    assert_eq!(u.username.as_str(), "alice");
    let r = lifecycle::user_from_id(&store, &id("ghost123"));
    assert_eq!(r.unwrap_err(), ApiError::NotFound(EntityKind::User));
}

#[test]
fn attachment_from_id_not_found() {
    let store = Store::new();
    let r = lifecycle::attachment_from_id(&store, &id("ghost123"));
    assert_eq!(r.unwrap_err(), ApiError::NotFound(EntityKind::Attachment));
}

#[test]
fn gate_hands_out_read_and_write_handles() {
    let mut store = Store::new();
    lifecycle::register(&mut store, name("alice"), &password("correct horse"), NOW).unwrap();
    let mut gate = Gate::new(store);
    {
        // Any number of read handles may coexist.
        let r1 = gate.read();
        let r2 = gate.read();
        assert!(r1.user_from_username(&name("alice")).is_some());
        assert!(r2.user_from_username(&name("alice")).is_some());
    }
    // A writer takes the exclusive handle for its whole span.
    let w = gate.write();
    lifecycle::register(w, name("bob"), &password("another pass"), NOW).unwrap();
    assert_eq!(gate.read().user_count(), 2);
}

#[test]
fn id_generation_is_eight_characters() {
    let a = Id::new();
    assert_eq!(a.as_str().len(), 8);
}

#[test]
fn value_type_length_bounds() {
    assert!(Id::from_text("12345678".to_string()).is_ok());
    assert_eq!(Id::from_text("1234567".to_string()).unwrap_err(), InvalidLength);
    assert_eq!(Id::from_text("123456789".to_string()).unwrap_err(), InvalidLength);
    assert!(Name::from_text("a".to_string()).is_ok());
    assert!(Name::from_text("a".repeat(32)).is_ok());
    assert_eq!(Name::from_text(String::new()).unwrap_err(), InvalidLength);
    assert_eq!(Name::from_text("a".repeat(33)).unwrap_err(), InvalidLength);
    assert!(Title::from_text("a".repeat(128)).is_ok());
    assert_eq!(Title::from_text(String::new()).unwrap_err(), InvalidLength);
    assert_eq!(Title::from_text("a".repeat(129)).unwrap_err(), InvalidLength);
    assert!(Content::from_text("a".repeat(1024)).is_ok());
    assert_eq!(Content::from_text(String::new()).unwrap_err(), InvalidLength);
    assert_eq!(Content::from_text("a".repeat(1025)).unwrap_err(), InvalidLength);
}

#[test]
fn password_bounds_and_characters() {
    assert!(Password::from_text("12345678".to_string()).is_ok());
    assert!(Password::from_text("a".repeat(40)).is_ok());
    assert_eq!(
        Password::from_text("1234567".to_string()).unwrap_err(),
        PasswordError::TooShort(7)
    );
    assert_eq!(
        Password::from_text("a".repeat(41)).unwrap_err(),
        PasswordError::TooLong(41)
    );
    assert_eq!(
        Password::from_text("p\u{e4}ssword!".to_string()).unwrap_err(),
        PasswordError::InvalidCharacters
    );
}

#[test]
fn error_responses_carry_uniform_codes_and_texts() {
    let (code, body) = error_response(&ApiError::NotFound(EntityKind::Category));
    assert_eq!(code, 400);
    assert!(!body.ok);
    assert_eq!(body.message, "invalid category id");
    let (code, body) = error_response(&ApiError::Unauthenticated);
    assert_eq!(code, 403);
    assert_eq!(body.message, "invalid session");
    let (code, body) = error_response(&ApiError::Unauthorized(DenialReason::Threshold {
        held: Permission::User,
        required: Permission::Admin,
    }));
    assert_eq!(code, 403);
    assert_eq!(body.message, "you must be Admin or above, you are User");
    let (code, body) = error_response(&ApiError::Unauthorized(DenialReason::NotCreator));
    assert_eq!(code, 403);
    assert_eq!(body.message, "only the creator may do that");
    let (code, body) = error_response(&ApiError::StorageFailure);
    assert_eq!(code, 500);
    assert_eq!(body.message, "internal server error");
    let (code, body) = decorum::response::ok_response("success");
    assert_eq!(code, 200);
    assert!(body.ok);
    assert_eq!(body.message, "success");
    let (code, _) = decorum::response::created_response("created");
    assert_eq!(code, 201);
}
