use decorum::lifecycle;
use decorum::models::{Content, Id, Name, Title};
use decorum::password::HashedPassword;
use decorum::permission::Permission;
use decorum::response::{ApiError, DenialReason, EntityKind};
use decorum::store::{CreateUser, Store};

const NOW: &str = "2024-05-01T00:00:00Z";
const LATER: &str = "2024-05-02T00:00:00Z";

fn id(s: &str) -> Id {
    Id::from_text(s.to_string()).unwrap()
}

fn name(s: &str) -> Name {
    Name::from_text(s.to_string()).unwrap()
}

fn title(s: &str) -> Title {
    Title::from_text(s.to_string()).unwrap()
}

fn content(s: &str) -> Content {
    Content::from_text(s.to_string()).unwrap()
}

fn add_user(store: &mut Store, uid: &str, uname: &str, perm: Permission) {
    let data = CreateUser {
        username: name(uname),
        nickname: None,
        password: HashedPassword::from_text("stored-hash".to_string()),
        permission: perm,
        avatar_id: None,
    };
    store.create_user(data, id(uid), NOW).unwrap();
}

/// A store with one admin, one ordinary user, and one category the
/// ordinary user may write in. Returns the category id.
fn forum() -> (Store, Id) {
    let mut store = Store::new();
    add_user(&mut store, "admin001", "alice", Permission::Admin);
    add_user(&mut store, "user0001", "bob", Permission::User);
    let cat = lifecycle::create_category(
        &mut store,
        &id("admin001"),
        title("General"),
        Permission::Unverified,
        Permission::User,
        NOW,
    )
    .unwrap();
    (store, cat)
}

#[test]
fn create_category_requires_important_actions() {
    let (mut store, _cat) = forum();
    let r = lifecycle::create_category(
        &mut store,
        &id("user0001"),
        title("Second"),
        Permission::Unverified,
        Permission::User,
        NOW,
    );
    assert_eq!(
        r.unwrap_err(),
        ApiError::Unauthorized(DenialReason::Threshold {
            held: Permission::User,
            required: Permission::Admin,
        })
    );
}

#[test]
fn create_category_unknown_actor_is_not_found() {
    let mut store = Store::new();
    let r = lifecycle::create_category(
        &mut store,
        &id("ghost123"),
        title("General"),
        Permission::Unverified,
        Permission::User,
        NOW,
    );
    assert_eq!(r.unwrap_err(), ApiError::NotFound(EntityKind::User));
}

#[test]
fn edit_category_with_only_title_keeps_thresholds_and_flag() {
    let (mut store, cat) = forum();
    lifecycle::edit_category(
        &mut store,
        &id("admin001"),
        &cat,
        Some(title("Renamed")),
        None,
        None,
        LATER,
    )
    .unwrap();
    let c = store.category_from_id(&cat).unwrap();
    assert_eq!(c.title.as_str(), "Renamed");
    assert_eq!(c.minimum_read_permission, Permission::Unverified);
    assert_eq!(c.minimum_write_permission, Permission::User);
    assert!(!c.deleted);
    assert_eq!(c.date_created, NOW);
    assert_eq!(c.date_edited.as_deref(), Some(LATER));
}

#[test]
fn edit_category_merged_thresholds_are_checked() {
    let (mut store, cat) = forum();
    // An Admin cannot raise the write threshold to Root: the actor must
    // itself satisfy the thresholds as they will stand after the merge.
    let r = lifecycle::edit_category(
        &mut store,
        &id("admin001"),
        &cat,
        None,
        None,
        Some(Permission::Root),
        LATER,
    );
    assert_eq!(
        r.unwrap_err(),
        ApiError::Unauthorized(DenialReason::Threshold {
            held: Permission::Admin,
            required: Permission::Root,
        })
    );
    // The failed edit left the record untouched.
    let c = store.category_from_id(&cat).unwrap();
    assert_eq!(c.minimum_write_permission, Permission::User);
    assert_eq!(c.date_edited, None);
}

#[test]
fn serialized_category_edits_keep_both_changes() {
    let (mut store, cat) = forum();
    // Two callers edit the same category in turn; the `Gate` serialises
    // them, so the second merge reads what the first edit wrote and no
    // field change is lost.
    lifecycle::edit_category(
        &mut store,
        &id("admin001"),
        &cat,
        Some(title("First rename")),
        None,
        None,
        NOW,
    )
    .unwrap();
    lifecycle::edit_category(
        &mut store,
        &id("admin001"),
        &cat,
        None,
        Some(Permission::User),
        None,
        LATER,
    )
    .unwrap();
    let c = store.category_from_id(&cat).unwrap();
    assert_eq!(c.title.as_str(), "First rename");
    assert_eq!(c.minimum_read_permission, Permission::User);
    assert_eq!(c.minimum_write_permission, Permission::User);
    assert_eq!(c.date_edited.as_deref(), Some(LATER));
}

#[test]
fn remove_category_tombstones_in_place() {
    let (mut store, cat) = forum();
    lifecycle::remove_category(&mut store, &id("admin001"), &cat, LATER).unwrap();
    let c = store.category_from_id(&cat).unwrap();
    assert!(c.deleted);
    assert_eq!(c.title.as_str(), "General");
    // Re-applying the removal is idempotent.
    lifecycle::remove_category(&mut store, &id("admin001"), &cat, LATER).unwrap();
    assert!(store.category_from_id(&cat).unwrap().deleted);
}

#[test]
fn create_post_checks_category_write_threshold() {
    let (mut store, _cat) = forum();
    let admins_only = lifecycle::create_category(
        &mut store,
        &id("admin001"),
        title("Staff room"),
        Permission::Unverified,
        Permission::Admin,
        NOW,
    )
    .unwrap();
    let r = lifecycle::create_post(
        &mut store,
        &id("user0001"),
        admins_only,
        title("Hello"),
        content("First!"),
        NOW,
    );
    assert_eq!(
        r.unwrap_err(),
        ApiError::Unauthorized(DenialReason::Threshold {
            held: Permission::User,
            required: Permission::Admin,
        })
    );
}

#[test]
fn create_post_unknown_category_is_not_found() {
    let (mut store, _cat) = forum();
    let r = lifecycle::create_post(
        &mut store,
        &id("user0001"),
        id("nocatno1"),
        title("Hello"),
        content("First!"),
        NOW,
    );
    assert_eq!(r.unwrap_err(), ApiError::NotFound(EntityKind::Category));
}

#[test]
fn edit_post_is_creator_only() {
    let (mut store, cat) = forum();
    let post = lifecycle::create_post(
        &mut store,
        &id("user0001"),
        cat.clone(),
        title("Bob's post"),
        content("original"),
        NOW,
    )
    .unwrap();
    // The admin meets every threshold but is not the creator: editing is
    // refused as unauthorized.
    let r = lifecycle::edit_post(
        &mut store,
        &id("admin001"),
        &post,
        cat.clone(),
        title("Defaced"),
        content("changed"),
        LATER,
    );
    assert_eq!(r.unwrap_err(), ApiError::Unauthorized(DenialReason::NotCreator));
    // The creator may edit.
    lifecycle::edit_post(
        &mut store,
        &id("user0001"),
        &post,
        cat.clone(),
        title("Bob's post v2"),
        content("revised"),
        LATER,
    )
    .unwrap();
    let p = store.post_from_id(&post).unwrap();
    assert_eq!(p.title.as_str(), "Bob's post v2");
    assert_eq!(p.content.as_str(), "revised");
    assert_eq!(p.creator_id, id("user0001"));
    assert!(!p.deleted);
    assert!(!p.locked);
}

#[test]
fn remove_post_by_moderator_locks_it() {
    let (mut store, cat) = forum();
    let post = lifecycle::create_post(
        &mut store,
        &id("user0001"),
        cat,
        title("Bob's post"),
        content("original"),
        NOW,
    )
    .unwrap();
    // The admin is not the creator but meets the "important actions"
    // threshold: the soft-delete succeeds and force-locks the post.
    lifecycle::remove_post(&mut store, &id("admin001"), &post, LATER).unwrap();
    let p = store.post_from_id(&post).unwrap();
    assert!(p.deleted);
    assert!(p.locked);
    assert_eq!(p.title.as_str(), "Bob's post");
}

#[test]
fn remove_post_by_stranger_is_refused() {
    let (mut store, cat) = forum();
    add_user(&mut store, "user0002", "carol", Permission::User);
    let post = lifecycle::create_post(
        &mut store,
        &id("user0001"),
        cat,
        title("Bob's post"),
        content("original"),
        NOW,
    )
    .unwrap();
    let r = lifecycle::remove_post(&mut store, &id("user0002"), &post, LATER);
    assert_eq!(
        r.unwrap_err(),
        ApiError::Unauthorized(DenialReason::Threshold {
            held: Permission::User,
            required: Permission::Admin,
        })
    );
}

#[test]
fn remove_post_by_creator_succeeds() {
    let (mut store, cat) = forum();
    let post = lifecycle::create_post(
        &mut store,
        &id("user0001"),
        cat,
        title("Bob's post"),
        content("original"),
        NOW,
    )
    .unwrap();
    lifecycle::remove_post(&mut store, &id("user0001"), &post, LATER).unwrap();
    let p = store.post_from_id(&post).unwrap();
    assert!(p.deleted && p.locked);
}

#[test]
fn lock_post_is_moderator_only_and_reversible() {
    let (mut store, cat) = forum();
    let post = lifecycle::create_post(
        &mut store,
        &id("user0001"),
        cat,
        title("Bob's post"),
        content("original"),
        NOW,
    )
    .unwrap();
    // The creator does not hold the moderation threshold.
    let r = lifecycle::set_post_locked(&mut store, &id("user0001"), &post, true, LATER);
    assert_eq!(
        r.unwrap_err(),
        ApiError::Unauthorized(DenialReason::Threshold {
            held: Permission::User,
            required: Permission::Admin,
        })
    );
    lifecycle::set_post_locked(&mut store, &id("admin001"), &post, true, LATER).unwrap();
    let p = store.post_from_id(&post).unwrap();
    assert!(p.locked && !p.deleted);
    lifecycle::set_post_locked(&mut store, &id("admin001"), &post, false, LATER).unwrap();
    assert!(!store.post_from_id(&post).unwrap().locked);
}

#[test]
fn reply_lifecycle_follows_parent_category() {
    let (mut store, cat) = forum();
    let post = lifecycle::create_post(
        &mut store,
        &id("user0001"),
        cat,
        title("Bob's post"),
        content("original"),
        NOW,
    )
    .unwrap();
    let reply = lifecycle::create_reply(
        &mut store,
        &id("user0001"),
        post.clone(),
        content("a reply"),
        NOW,
    )
    .unwrap();
    // Only the creator edits.
    let r = lifecycle::edit_reply(&mut store, &id("admin001"), &reply, content("hijack"), LATER);
    assert_eq!(r.unwrap_err(), ApiError::Unauthorized(DenialReason::NotCreator));
    lifecycle::edit_reply(&mut store, &id("user0001"), &reply, content("edited"), LATER).unwrap();
    let listed = lifecycle::replies_from_post(&store, &id("user0001"), &post).unwrap();
    assert_eq!(listed.len(), 1);
    assert_eq!(listed[0].content.as_str(), "edited");
    assert!(!listed[0].deleted);
    // A moderator may remove it.
    lifecycle::remove_reply(&mut store, &id("admin001"), &reply, LATER).unwrap();
    let listed = lifecycle::replies_from_post(&store, &id("user0001"), &post).unwrap();
    assert!(listed[0].deleted);
}

#[test]
fn remove_reply_needs_admin_write_threshold() {
    let mut store = Store::new();
    add_user(&mut store, "admin001", "alice", Permission::Admin);
    add_user(&mut store, "user0001", "bob", Permission::User);
    add_user(&mut store, "user0002", "carol", Permission::User);
    // A category whose write threshold is Admin; the admin posts there.
    let cat = lifecycle::create_category(
        &mut store,
        &id("admin001"),
        title("Announcements"),
        Permission::Unverified,
        Permission::Admin,
        NOW,
    )
    .unwrap();
    let post = lifecycle::create_post(
        &mut store,
        &id("admin001"),
        cat,
        title("News"),
        content("something happened"),
        NOW,
    )
    .unwrap();
    let reply = lifecycle::create_reply(
        &mut store,
        &id("admin001"),
        post,
        content("first comment"),
        NOW,
    )
    .unwrap();
    // An actor holding only User cannot delete a reply whose parent post
    // sits in a category requiring Admin write access.
    let r = lifecycle::remove_reply(&mut store, &id("user0002"), &reply, LATER);
    assert_eq!(
        r.unwrap_err(),
        ApiError::Unauthorized(DenialReason::Threshold {
            held: Permission::User,
            required: Permission::Admin,
        })
    );
}

#[test]
fn all_categories_filters_by_read_threshold() {
    let (mut store, _cat) = forum();
    add_user(&mut store, "newbie01", "dave", Permission::Unverified);
    lifecycle::create_category(
        &mut store,
        &id("admin001"),
        title("Members"),
        Permission::User,
        Permission::User,
        NOW,
    )
    .unwrap();
    lifecycle::create_category(
        &mut store,
        &id("admin001"),
        title("Staff"),
        Permission::Admin,
        Permission::Admin,
        NOW,
    )
    .unwrap();
    let seen: Vec<String> = lifecycle::all_categories(&store, &id("newbie01"))
        .iter()
        .map(|c| c.title.as_str().to_string())
        .collect();
    assert_eq!(seen, vec!["General".to_string()]);
    let seen: Vec<String> = lifecycle::all_categories(&store, &id("user0001"))
        .iter()
        .map(|c| c.title.as_str().to_string())
        .collect();
    assert_eq!(seen, vec!["General".to_string(), "Members".to_string()]);
    // An unknown actor reads as Unverified.
    let seen = lifecycle::all_categories(&store, &id("ghost123"));
    assert_eq!(seen.len(), 1);
}

#[test]
fn posts_from_category_is_gated_and_ordered() {
    let (mut store, cat) = forum();
    let first = lifecycle::create_post(
        &mut store,
        &id("user0001"),
        cat.clone(),
        title("first"),
        content("a"),
        NOW,
    )
    .unwrap();
    let second = lifecycle::create_post(
        &mut store,
        &id("user0001"),
        cat.clone(),
        title("second"),
        content("b"),
        NOW,
    )
    .unwrap();
    let listed = lifecycle::posts_from_category(&store, &id("user0001"), &cat).unwrap();
    assert_eq!(listed.len(), 2);
    assert_eq!(listed[0].id, first);
    assert_eq!(listed[1].id, second);
    let r = lifecycle::posts_from_category(&store, &id("user0001"), &id("nocatno1"));
    assert_eq!(r.unwrap_err(), ApiError::NotFound(EntityKind::Category));
}

#[test]
fn post_from_id_requires_matching_category() {
    let (mut store, cat) = forum();
    let other = lifecycle::create_category(
        &mut store,
        &id("admin001"),
        title("Other"),
        Permission::Unverified,
        Permission::User,
        NOW,
    )
    .unwrap();
    let post = lifecycle::create_post(
        &mut store,
        &id("user0001"),
        cat.clone(),
        title("Bob's post"),
        content("text"),
        NOW,
    )
    .unwrap();
    let fetched = lifecycle::post_from_id(&store, &id("user0001"), &cat, &post).unwrap();
    assert_eq!(fetched.id, post);
    assert_eq!(fetched.title.as_str(), "Bob's post");
    // The right post under the wrong category does not resolve.
    let r = lifecycle::post_from_id(&store, &id("user0001"), &other, &post);
    assert_eq!(r.unwrap_err(), ApiError::NotFound(EntityKind::Post));
}

#[test]
fn editing_a_deleted_post_still_works_for_its_creator() {
    // Edge policy: editing a tombstoned entity proceeds like editing an
    // active one, and does not revive it.
    let (mut store, cat) = forum();
    let post = lifecycle::create_post(
        &mut store,
        &id("user0001"),
        cat.clone(),
        title("Bob's post"),
        content("original"),
        NOW,
    )
    .unwrap();
    lifecycle::remove_post(&mut store, &id("admin001"), &post, LATER).unwrap();
    lifecycle::edit_post(
        &mut store,
        &id("user0001"),
        &post,
        cat,
        title("still here"),
        content("edited after deletion"),
        LATER,
    )
    .unwrap();
    let p = store.post_from_id(&post).unwrap();
    assert!(p.deleted && p.locked);
    assert_eq!(p.title.as_str(), "still here");
}

#[test]
fn create_attachment_builds_path_and_checks_threshold() {
    let mut store = Store::new();
    add_user(&mut store, "user0001", "bob", Permission::User);
    add_user(&mut store, "newbie01", "dave", Permission::Unverified);
    let aid = lifecycle::create_attachment(
        &mut store,
        &id("user0001"),
        "avatar.png".to_string(),
        NOW,
    )
    .unwrap();
    let a = store.attachment_from_id(&aid).unwrap();
    let expected = format!("files_uploaded/user0001/{}/avatar.png", aid.as_str());
    assert_eq!(a.path, expected);
    assert_eq!(a.creator_id, id("user0001"));
    let r = lifecycle::create_attachment(
        &mut store,
        &id("newbie01"),
        "avatar.png".to_string(),
        NOW,
    );
    assert_eq!(
        r.unwrap_err(),
        ApiError::Unauthorized(DenialReason::Threshold {
            held: Permission::Unverified,
            required: Permission::User,
        })
    );
}

#[test]
fn reads_are_gated_by_read_threshold() {
    let mut store = Store::new();
    add_user(&mut store, "admin001", "alice", Permission::Admin);
    add_user(&mut store, "newbie01", "dave", Permission::Unverified);
    let cat = lifecycle::create_category(
        &mut store,
        &id("admin001"),
        title("Members"),
        Permission::User,
        Permission::User,
        NOW,
    )
    .unwrap();
    let post = lifecycle::create_post(
        &mut store,
        &id("admin001"),
        cat.clone(),
        title("Hello"),
        content("body"),
        NOW,
    )
    .unwrap();
    let refused = ApiError::Unauthorized(DenialReason::Threshold {
        held: Permission::Unverified,
        required: Permission::User,
    });
    let r = lifecycle::posts_from_category(&store, &id("newbie01"), &cat);
    assert_eq!(r.unwrap_err(), refused);
    let r = lifecycle::post_from_id(&store, &id("newbie01"), &cat, &post);
    assert_eq!(r.unwrap_err(), refused);
    let r = lifecycle::replies_from_post(&store, &id("newbie01"), &post);
    assert_eq!(r.unwrap_err(), refused);
    let r = lifecycle::replies_from_post(&store, &id("admin001"), &id("nopostno"));
    assert_eq!(r.unwrap_err(), ApiError::NotFound(EntityKind::Post));
}

#[test]
fn edit_post_uses_the_current_category_threshold() {
    // Authorisation uses the pre-edit record: once the post's current
    // category demands more than the creator holds, even the creator can
    // no longer edit the post.
    let (mut store, cat) = forum();
    let post = lifecycle::create_post(
        &mut store,
        &id("user0001"),
        cat.clone(),
        title("Bob's post"),
        content("text"),
        NOW,
    )
    .unwrap();
    lifecycle::edit_category(
        &mut store,
        &id("admin001"),
        &cat,
        None,
        None,
        Some(Permission::Admin),
        LATER,
    )
    .unwrap();
    let r = lifecycle::edit_post(
        &mut store,
        &id("user0001"),
        &post,
        cat,
        title("still mine?"),
        content("no more"),
        LATER,
    );
    assert_eq!(
        r.unwrap_err(),
        ApiError::Unauthorized(DenialReason::Threshold {
            held: Permission::User,
            required: Permission::Admin,
        })
    );
}

#[test]
fn recategorising_a_post_needs_rights_in_the_target() {
    let (mut store, cat) = forum();
    let staff = lifecycle::create_category(
        &mut store,
        &id("admin001"),
        title("Staff room"),
        Permission::Unverified,
        Permission::Admin,
        NOW,
    )
    .unwrap();
    let post = lifecycle::create_post(
        &mut store,
        &id("user0001"),
        cat.clone(),
        title("Bob's post"),
        content("text"),
        NOW,
    )
    .unwrap();
    // The creator meets the current category's threshold but not the
    // target's: the move is refused and the post stays where it was.
    let r = lifecycle::edit_post(
        &mut store,
        &id("user0001"),
        &post,
        staff,
        title("Bob's post"),
        content("text"),
        LATER,
    );
    assert_eq!(
        r.unwrap_err(),
        ApiError::Unauthorized(DenialReason::Threshold {
            held: Permission::User,
            required: Permission::Admin,
        })
    );
    assert_eq!(store.post_from_id(&post).unwrap().category_id, cat);
}

#[test]
fn editing_a_category_above_the_actor_is_refused() {
    // The stored thresholds are checked as well as the merged ones: an
    // Admin cannot touch a Root-write category, not even its title.
    let mut store = Store::new();
    add_user(&mut store, "admin001", "alice", Permission::Admin);
    add_user(&mut store, "root0001", "zoe", Permission::Root);
    let locked_down = lifecycle::create_category(
        &mut store,
        &id("root0001"),
        title("Root only"),
        Permission::Unverified,
        Permission::Root,
        NOW,
    )
    .unwrap();
    let r = lifecycle::edit_category(
        &mut store,
        &id("admin001"),
        &locked_down,
        Some(title("Renamed")),
        None,
        Some(Permission::User),
        LATER,
    );
    assert_eq!(
        r.unwrap_err(),
        ApiError::Unauthorized(DenialReason::Threshold {
            held: Permission::Admin,
            required: Permission::Root,
        })
    );
    let c = store.category_from_id(&locked_down).unwrap();
    assert_eq!(c.title.as_str(), "Root only");
    assert_eq!(c.minimum_write_permission, Permission::Root);
}
