//! The content lifecycle manager: every mutating operation follows the
//! read-validate-write protocol against the entity store, and every
//! read filters by the category's read threshold.
//!
//! Each operation holds the store for its whole span — the authorisation
//! read, the merge and the write happen under one exclusive borrow, so no
//! other writer's mutation of the same record can interleave between the
//! validation and the write.
//!
//! Each operation's decision is captured by an open spec function over the
//! store view; the operation's contract ties its result to that decision
//! and describes the exact post-state on success.

use vstd::prelude::*;

use crate::models::Category;
use crate::models::CategoryView;
use crate::models::Id;
use crate::models::Name;
use crate::models::Title;
use crate::models::Content;
use crate::models::Post;
use crate::models::PostView;
use crate::models::Reply;
use crate::models::ReplyView;
use crate::models::User;
use crate::models::UserView;
use crate::models::AttachmentView;
use crate::password::Password;
use crate::password::bcrypt_verifies;
use crate::password::hash_password;
use crate::permission::Permission;
use crate::permission::is_allowed;
use crate::permission::permission_for_important_actions;
use crate::permission::spec_attachment_upload_threshold;
use crate::permission::spec_important_actions_threshold;
use crate::permission::spec_is_allowed;
use crate::response::ApiError;
use crate::response::DenialReason;
use crate::response::EntityKind;
use crate::response::ValidationFault;
use crate::store::CreateAttachment;
use crate::store::CreateCategory;
use crate::store::CreatePost;
use crate::store::CreateReply;
use crate::store::CreateUser;
use crate::store::EditCategory;
use crate::store::EditPost;
use crate::store::EditReply;
use crate::store::EditUser;
use crate::store::Store;
use crate::store::StoreView;
use crate::store::category_by_id;
use crate::store::category_idx;
use crate::store::post_by_id;
use crate::store::post_idx;
use crate::store::reply_by_id;
use crate::store::reply_idx;
use crate::store::attachment_by_id;
use crate::store::user_by_username;
use crate::store::user_idx;
use crate::store::lemma_find_first_after_update;
use crate::store::lemma_find_first_spec;
use crate::store::user_by_id;

verus! {

/// The supplied value of an optional field, or the stored one.
pub open spec fn merged<A>(supplied: Option<A>, stored: A) -> A {
    match supplied {
        Some(v) => v,
        None => stored,
    }
}

/// What category creation decides: the actor must exist, meet the
/// "important actions" threshold, and itself satisfy both thresholds the
/// new category is to carry.
pub open spec fn create_category_decision(
    s: StoreView,
    actor: Seq<char>,
    read: Permission,
    write: Permission,
) -> Result<(), ApiError> {
    match user_by_id(s.users, actor) {
        None => Err(ApiError::NotFound(EntityKind::User)),
        Some(u) => {
            if !spec_is_allowed(u.permission, spec_important_actions_threshold()) {
                Err(
                    ApiError::Unauthorized(
                        DenialReason::Threshold {
                            held: u.permission,
                            required: spec_important_actions_threshold(),
                        },
                    ),
                )
            } else if !spec_is_allowed(u.permission, write) {
                Err(
                    ApiError::Unauthorized(
                        DenialReason::Threshold { held: u.permission, required: write },
                    ),
                )
            } else if !spec_is_allowed(u.permission, read) {
                Err(
                    ApiError::Unauthorized(
                        DenialReason::Threshold { held: u.permission, required: read },
                    ),
                )
            } else {
                Ok(())
            }
        },
    }
}

/// Creates a category: validate first, then write, under one exclusive
/// borrow of the store. On success the new category is appended with both
/// thresholds as requested, not deleted, stamped with `now`.
pub fn create_category(
    store: &mut Store,
    actor_id: &Id,
    title: Title,
    read: Permission,
    write: Permission,
    now: &str,
) -> (r: Result<Id, ApiError>)
    requires
        old(store).wf(),
    ensures
        final(store).wf(),
        match r {
            Ok(rid) => create_category_decision(old(store)@, actor_id@, read, write) is Ok
                && category_by_id(old(store)@.categories, rid@) is None && final(store)@ == (
            StoreView {
                categories: old(store)@.categories.push(
                    CategoryView {
                        id: rid@,
                        title: title@,
                        minimum_write_permission: write,
                        minimum_read_permission: read,
                        deleted: false,
                        date_created: now@,
                        date_edited: None,
                    },
                ),
                ..old(store)@
            }),
            Err(e) => final(store)@ == old(store)@ && match create_category_decision(
                old(store)@,
                actor_id@,
                read,
                write,
            ) {
                Err(d) => e == d,
                Ok(_) => e == ApiError::StorageFailure,
            },
        },
{
    let held = match store.user_from_id(actor_id) {
        Some(u) => u.permission,
        None => {
            return Err(ApiError::NotFound(EntityKind::User));
        },
    };
    let required = permission_for_important_actions();
    if !is_allowed(&held, &required) {
        return Err(ApiError::Unauthorized(DenialReason::Threshold { held, required }));
    }
    if !is_allowed(&held, &write) {
        return Err(ApiError::Unauthorized(DenialReason::Threshold { held, required: write }));
    }
    if !is_allowed(&held, &read) {
        return Err(ApiError::Unauthorized(DenialReason::Threshold { held, required: read }));
    }
    let id = Id::new();
    let data = CreateCategory {
        title,
        minimum_write_permission: write,
        minimum_read_permission: read,
    };
    match store.create_category(data, id, now) {
        Ok(rid) => Ok(rid),
        Err(_) => Err(ApiError::StorageFailure),
    }
}

/// What a category edit decides: the actor must exist and meet the
/// "important actions" threshold; the category must exist; and the actor
/// must satisfy both thresholds twice over — as stored, the pre-edit
/// values, and as they will stand after the merge — so that nobody edits
/// a category above their level, nor leaves one behind they could not
/// touch.
pub open spec fn edit_category_decision(
    s: StoreView,
    actor: Seq<char>,
    id: Seq<char>,
    read: Option<Permission>,
    write: Option<Permission>,
) -> Result<(), ApiError> {
    match user_by_id(s.users, actor) {
        None => Err(ApiError::NotFound(EntityKind::User)),
        Some(u) => {
            if !spec_is_allowed(u.permission, spec_important_actions_threshold()) {
                Err(
                    ApiError::Unauthorized(
                        DenialReason::Threshold {
                            held: u.permission,
                            required: spec_important_actions_threshold(),
                        },
                    ),
                )
            } else {
                match category_by_id(s.categories, id) {
                    None => Err(ApiError::NotFound(EntityKind::Category)),
                    Some(c) => {
                        let eff_write = merged(write, c.minimum_write_permission);
                        let eff_read = merged(read, c.minimum_read_permission);
                        if !spec_is_allowed(u.permission, c.minimum_write_permission) {
                            Err(
                                ApiError::Unauthorized(
                                    DenialReason::Threshold {
                                        held: u.permission,
                                        required: c.minimum_write_permission,
                                    },
                                ),
                            )
                        } else if !spec_is_allowed(u.permission, c.minimum_read_permission) {
                            Err(
                                ApiError::Unauthorized(
                                    DenialReason::Threshold {
                                        held: u.permission,
                                        required: c.minimum_read_permission,
                                    },
                                ),
                            )
                        } else if !spec_is_allowed(u.permission, eff_write) {
                            Err(
                                ApiError::Unauthorized(
                                    DenialReason::Threshold {
                                        held: u.permission,
                                        required: eff_write,
                                    },
                                ),
                            )
                        } else if !spec_is_allowed(u.permission, eff_read) {
                            Err(
                                ApiError::Unauthorized(
                                    DenialReason::Threshold {
                                        held: u.permission,
                                        required: eff_read,
                                    },
                                ),
                            )
                        } else {
                            Ok(())
                        }
                    },
                }
            }
        },
    }
}

/// The category record as it stands after an edit merge: supplied fields
/// replace stored ones, everything else — the tombstone flag included —
/// is copied unchanged, and the edit time is stamped.
pub open spec fn merged_category(
    c: CategoryView,
    title: Option<Seq<char>>,
    read: Option<Permission>,
    write: Option<Permission>,
    now: Seq<char>,
) -> CategoryView {
    CategoryView {
        id: c.id,
        title: merged(title, c.title),
        minimum_write_permission: merged(write, c.minimum_write_permission),
        minimum_read_permission: merged(read, c.minimum_read_permission),
        deleted: c.deleted,
        date_created: c.date_created,
        date_edited: Some(now),
    }
}

/// Edits a category: read, validate against the stored and the merged
/// thresholds, merge the supplied fields over the stored record, write
/// back — all under one exclusive borrow, so the merge is based on the
/// record as it stands.
pub fn edit_category(
    store: &mut Store,
    actor_id: &Id,
    id: &Id,
    title: Option<Title>,
    read: Option<Permission>,
    write: Option<Permission>,
    now: &str,
) -> (r: Result<(), ApiError>)
    requires
        old(store).wf(),
    ensures
        final(store).wf(),
        r == edit_category_decision(old(store)@, actor_id@, id@, read, write),
        match r {
            Ok(_) => final(store)@ == (StoreView {
                categories: old(store)@.categories.update(
                    category_idx(old(store)@.categories, id@),
                    merged_category(
                        category_by_id(old(store)@.categories, id@).unwrap(),
                        title.deep_view(),
                        read,
                        write,
                        now@,
                    ),
                ),
                ..old(store)@
            }),
            Err(_) => final(store)@ == old(store)@,
        },
{
    let held = match store.user_from_id(actor_id) {
        Some(u) => u.permission,
        None => {
            return Err(ApiError::NotFound(EntityKind::User));
        },
    };
    let required = permission_for_important_actions();
    if !is_allowed(&held, &required) {
        return Err(ApiError::Unauthorized(DenialReason::Threshold { held, required }));
    }
    proof {
        lemma_find_first_spec(store@.categories, |c: CategoryView| c.id == id@);
    }
    let (stored_title, stored_write, stored_read, stored_deleted) = match store.category_from_id(
        id,
    ) {
        Some(c) => (c.title.clone(), c.minimum_write_permission, c.minimum_read_permission, (
        c.deleted)),
        None => {
            return Err(ApiError::NotFound(EntityKind::Category));
        },
    };
    if !is_allowed(&held, &stored_write) {
        return Err(
            ApiError::Unauthorized(DenialReason::Threshold { held, required: stored_write }),
        );
    }
    if !is_allowed(&held, &stored_read) {
        return Err(ApiError::Unauthorized(DenialReason::Threshold { held, required: stored_read }));
    }
    let eff_write = match write {
        Some(w) => w,
        None => stored_write,
    };
    let eff_read = match read {
        Some(rd) => rd,
        None => stored_read,
    };
    if !is_allowed(&held, &eff_write) {
        return Err(ApiError::Unauthorized(DenialReason::Threshold { held, required: eff_write }));
    }
    if !is_allowed(&held, &eff_read) {
        return Err(ApiError::Unauthorized(DenialReason::Threshold { held, required: eff_read }));
    }
    let eff_title = match title {
        Some(t) => t,
        None => stored_title,
    };
    let data = EditCategory {
        id: id.clone(),
        title: eff_title,
        minimum_write_permission: eff_write,
        minimum_read_permission: eff_read,
        deleted: stored_deleted,
    };
    match store.edit_category(data, now) {
        Ok(_) => Ok(()),
        Err(_) => Err(ApiError::StorageFailure),
    }
}

/// What a category removal decides: the category must exist; the actor
/// must exist, meet the "important actions" threshold, and satisfy the
/// category's stored thresholds.
pub open spec fn remove_category_decision(s: StoreView, actor: Seq<char>, id: Seq<char>) -> Result<
    (),
    ApiError,
> {
    match category_by_id(s.categories, id) {
        None => Err(ApiError::NotFound(EntityKind::Category)),
        Some(c) => match user_by_id(s.users, actor) {
            None => Err(ApiError::NotFound(EntityKind::User)),
            Some(u) => {
                if !spec_is_allowed(u.permission, spec_important_actions_threshold()) {
                    Err(
                        ApiError::Unauthorized(
                            DenialReason::Threshold {
                                held: u.permission,
                                required: spec_important_actions_threshold(),
                            },
                        ),
                    )
                } else if !spec_is_allowed(u.permission, c.minimum_write_permission) {
                    Err(
                        ApiError::Unauthorized(
                            DenialReason::Threshold {
                                held: u.permission,
                                required: c.minimum_write_permission,
                            },
                        ),
                    )
                } else if !spec_is_allowed(u.permission, c.minimum_read_permission) {
                    Err(
                        ApiError::Unauthorized(
                            DenialReason::Threshold {
                                held: u.permission,
                                required: c.minimum_read_permission,
                            },
                        ),
                    )
                } else {
                    Ok(())
                }
            },
        },
    }
}

/// Soft-deletes a category: the stored record is written back unchanged
/// but for the tombstone flag and the edit stamp.
pub fn remove_category(store: &mut Store, actor_id: &Id, id: &Id, now: &str) -> (r: Result<
    (),
    ApiError,
>)
    requires
        old(store).wf(),
    ensures
        final(store).wf(),
        r == remove_category_decision(old(store)@, actor_id@, id@),
        match r {
            Ok(_) => ({
                let c = category_by_id(old(store)@.categories, id@).unwrap();
                final(store)@ == (StoreView {
                    categories: old(store)@.categories.update(
                        category_idx(old(store)@.categories, id@),
                        CategoryView { deleted: true, date_edited: Some(now@), ..c },
                    ),
                    ..old(store)@
                })
            }),
            Err(_) => final(store)@ == old(store)@,
        },
{
    proof {
        lemma_find_first_spec(store@.categories, |c: CategoryView| c.id == id@);
    }
    let (stored_title, stored_write, stored_read) = match store.category_from_id(id) {
        Some(c) => (c.title.clone(), c.minimum_write_permission, c.minimum_read_permission),
        None => {
            return Err(ApiError::NotFound(EntityKind::Category));
        },
    };
    let held = match store.user_from_id(actor_id) {
        Some(u) => u.permission,
        None => {
            return Err(ApiError::NotFound(EntityKind::User));
        },
    };
    let required = permission_for_important_actions();
    if !is_allowed(&held, &required) {
        return Err(ApiError::Unauthorized(DenialReason::Threshold { held, required }));
    }
    if !is_allowed(&held, &stored_write) {
        return Err(
            ApiError::Unauthorized(DenialReason::Threshold { held, required: stored_write }),
        );
    }
    if !is_allowed(&held, &stored_read) {
        return Err(ApiError::Unauthorized(DenialReason::Threshold { held, required: stored_read }));
    }
    let data = EditCategory {
        id: id.clone(),
        title: stored_title,
        minimum_write_permission: stored_write,
        minimum_read_permission: stored_read,
        deleted: true,
    };
    match store.edit_category(data, now) {
        Ok(_) => Ok(()),
        Err(_) => Err(ApiError::StorageFailure),
    }
}

/// What post creation decides: the actor and target category must exist
/// and the actor must meet the category's write threshold.
pub open spec fn create_post_decision(s: StoreView, actor: Seq<char>, category_id: Seq<char>) -> Result<
    (),
    ApiError,
> {
    match user_by_id(s.users, actor) {
        None => Err(ApiError::NotFound(EntityKind::User)),
        Some(u) => match category_by_id(s.categories, category_id) {
            None => Err(ApiError::NotFound(EntityKind::Category)),
            Some(c) => {
                if !spec_is_allowed(u.permission, c.minimum_write_permission) {
                    Err(
                        ApiError::Unauthorized(
                            DenialReason::Threshold {
                                held: u.permission,
                                required: c.minimum_write_permission,
                            },
                        ),
                    )
                } else {
                    Ok(())
                }
            },
        },
    }
}

/// Creates a post in a category: born unlocked and not deleted, owned by
/// the actor, stamped with `now`.
pub fn create_post(
    store: &mut Store,
    actor_id: &Id,
    category_id: Id,
    title: Title,
    content: Content,
    now: &str,
) -> (r: Result<Id, ApiError>)
    requires
        old(store).wf(),
    ensures
        final(store).wf(),
        match r {
            Ok(rid) => create_post_decision(old(store)@, actor_id@, category_id@) is Ok
                && post_by_id(old(store)@.posts, rid@) is None && final(store)@ == (StoreView {
                posts: old(store)@.posts.push(
                    PostView {
                        id: rid@,
                        category_id: category_id@,
                        title: title@,
                        content: content@,
                        creator_id: actor_id@,
                        deleted: false,
                        locked: false,
                        date_created: now@,
                        date_edited: None,
                    },
                ),
                ..old(store)@
            }),
            Err(e) => final(store)@ == old(store)@ && match create_post_decision(
                old(store)@,
                actor_id@,
                category_id@,
            ) {
                Err(d) => e == d,
                Ok(_) => e == ApiError::StorageFailure,
            },
        },
{
    let held = match store.user_from_id(actor_id) {
        Some(u) => u.permission,
        None => {
            return Err(ApiError::NotFound(EntityKind::User));
        },
    };
    let required = match store.category_from_id(&category_id) {
        Some(c) => c.minimum_write_permission,
        None => {
            return Err(ApiError::NotFound(EntityKind::Category));
        },
    };
    if !is_allowed(&held, &required) {
        return Err(ApiError::Unauthorized(DenialReason::Threshold { held, required }));
    }
    let id = Id::new();
    let data = CreatePost { category_id, title, content, creator_id: actor_id.clone() };
    match store.create_post(data, id, now) {
        Ok(rid) => Ok(rid),
        Err(_) => Err(ApiError::StorageFailure),
    }
}

/// What a post edit decides: the actor and the post must exist;
/// authorisation uses the pre-edit values, so the actor must meet the
/// write threshold of the post's *current* category; re-categorising the
/// post additionally requires the write threshold of the target category;
/// and only the post's creator may edit it, whatever other authority the
/// actor holds.
pub open spec fn edit_post_decision(
    s: StoreView,
    actor: Seq<char>,
    id: Seq<char>,
    category_id: Seq<char>,
) -> Result<(), ApiError> {
    match user_by_id(s.users, actor) {
        None => Err(ApiError::NotFound(EntityKind::User)),
        Some(u) => match post_by_id(s.posts, id) {
            None => Err(ApiError::NotFound(EntityKind::Post)),
            Some(p) => match category_by_id(s.categories, p.category_id) {
                None => Err(ApiError::NotFound(EntityKind::Category)),
                Some(cur) => {
                    if !spec_is_allowed(u.permission, cur.minimum_write_permission) {
                        Err(
                            ApiError::Unauthorized(
                                DenialReason::Threshold {
                                    held: u.permission,
                                    required: cur.minimum_write_permission,
                                },
                            ),
                        )
                    } else {
                        match category_by_id(s.categories, category_id) {
                            None => Err(ApiError::NotFound(EntityKind::Category)),
                            Some(tgt) => {
                                if !spec_is_allowed(u.permission, tgt.minimum_write_permission) {
                                    Err(
                                        ApiError::Unauthorized(
                                            DenialReason::Threshold {
                                                held: u.permission,
                                                required: tgt.minimum_write_permission,
                                            },
                                        ),
                                    )
                                } else if p.creator_id != actor {
                                    Err(ApiError::Unauthorized(DenialReason::NotCreator))
                                } else {
                                    Ok(())
                                }
                            },
                        }
                    }
                },
            },
        },
    }
}

/// The post record as it stands after an edit: title, content and category
/// replaced, the tombstone and lock flags and the creator copied
/// unchanged, the edit time stamped.
pub open spec fn edited_post(
    p: PostView,
    category_id: Seq<char>,
    title: Seq<char>,
    content: Seq<char>,
    now: Seq<char>,
) -> PostView {
    PostView {
        id: p.id,
        category_id: category_id,
        title: title,
        content: content,
        creator_id: p.creator_id,
        deleted: p.deleted,
        locked: p.locked,
        date_created: p.date_created,
        date_edited: Some(now),
    }
}

/// Edits a post, possibly re-categorising it. Authorisation uses the
/// pre-edit record: the write threshold of the post's current category,
/// plus the target category's threshold when the post moves; the flags
/// the caller does not supply are copied unchanged.
pub fn edit_post(
    store: &mut Store,
    actor_id: &Id,
    id: &Id,
    category_id: Id,
    title: Title,
    content: Content,
    now: &str,
) -> (r: Result<(), ApiError>)
    requires
        old(store).wf(),
    ensures
        final(store).wf(),
        r == edit_post_decision(old(store)@, actor_id@, id@, category_id@),
        match r {
            Ok(_) => final(store)@ == (StoreView {
                posts: old(store)@.posts.update(
                    post_idx(old(store)@.posts, id@),
                    edited_post(
                        post_by_id(old(store)@.posts, id@).unwrap(),
                        category_id@,
                        title@,
                        content@,
                        now@,
                    ),
                ),
                ..old(store)@
            }),
            Err(_) => final(store)@ == old(store)@,
        },
{
    let held = match store.user_from_id(actor_id) {
        Some(u) => u.permission,
        None => {
            return Err(ApiError::NotFound(EntityKind::User));
        },
    };
    proof {
        lemma_find_first_spec(store@.posts, |p: PostView| p.id == id@);
    }
    let (is_creator, stored_deleted, stored_locked, current_category_id) = match store.post_from_id(
        id,
    ) {
        Some(p) => (p.creator_id == *actor_id, p.deleted, p.locked, p.category_id.clone()),
        None => {
            return Err(ApiError::NotFound(EntityKind::Post));
        },
    };
    let current_write = match store.category_from_id(&current_category_id) {
        Some(c) => c.minimum_write_permission,
        None => {
            return Err(ApiError::NotFound(EntityKind::Category));
        },
    };
    if !is_allowed(&held, &current_write) {
        return Err(
            ApiError::Unauthorized(DenialReason::Threshold { held, required: current_write }),
        );
    }
    let target_write = match store.category_from_id(&category_id) {
        Some(c) => c.minimum_write_permission,
        None => {
            return Err(ApiError::NotFound(EntityKind::Category));
        },
    };
    if !is_allowed(&held, &target_write) {
        return Err(
            ApiError::Unauthorized(DenialReason::Threshold { held, required: target_write }),
        );
    }
    if !is_creator {
        return Err(ApiError::Unauthorized(DenialReason::NotCreator));
    }
    let data = EditPost {
        id: id.clone(),
        category_id,
        title,
        content,
        deleted: stored_deleted,
        locked: stored_locked,
    };
    match store.edit_post(data, now) {
        Ok(_) => Ok(()),
        Err(_) => Err(ApiError::StorageFailure),
    }
}

/// What a post removal decides: the post must exist; the actor must exist
/// and either be the post's creator or meet the "important actions"
/// threshold; and the actor must meet the write threshold of the post's
/// category, which must itself resolve.
pub open spec fn remove_post_decision(s: StoreView, actor: Seq<char>, id: Seq<char>) -> Result<
    (),
    ApiError,
> {
    match post_by_id(s.posts, id) {
        None => Err(ApiError::NotFound(EntityKind::Post)),
        Some(p) => match user_by_id(s.users, actor) {
            None => Err(ApiError::NotFound(EntityKind::User)),
            Some(u) => {
                if p.creator_id != actor && !spec_is_allowed(
                    u.permission,
                    spec_important_actions_threshold(),
                ) {
                    Err(
                        ApiError::Unauthorized(
                            DenialReason::Threshold {
                                held: u.permission,
                                required: spec_important_actions_threshold(),
                            },
                        ),
                    )
                } else {
                    match category_by_id(s.categories, p.category_id) {
                        None => Err(ApiError::NotFound(EntityKind::Category)),
                        Some(c) => {
                            if !spec_is_allowed(u.permission, c.minimum_write_permission) {
                                Err(
                                    ApiError::Unauthorized(
                                        DenialReason::Threshold {
                                            held: u.permission,
                                            required: c.minimum_write_permission,
                                        },
                                    ),
                                )
                            } else {
                                Ok(())
                            }
                        },
                    }
                }
            },
        },
    }
}

/// Soft-deletes a post: the stored record is written back unchanged but
/// for the tombstone flag, the lock — deletion always force-locks — and
/// the edit stamp.
pub fn remove_post(store: &mut Store, actor_id: &Id, id: &Id, now: &str) -> (r: Result<
    (),
    ApiError,
>)
    requires
        old(store).wf(),
    ensures
        final(store).wf(),
        r == remove_post_decision(old(store)@, actor_id@, id@),
        match r {
            Ok(_) => ({
                let p = post_by_id(old(store)@.posts, id@).unwrap();
                final(store)@ == (StoreView {
                    posts: old(store)@.posts.update(
                        post_idx(old(store)@.posts, id@),
                        PostView { deleted: true, locked: true, date_edited: Some(now@), ..p },
                    ),
                    ..old(store)@
                })
            }),
            Err(_) => final(store)@ == old(store)@,
        },
{
    proof {
        lemma_find_first_spec(store@.posts, |p: PostView| p.id == id@);
    }
    let (p_category_id, p_title, p_content, p_is_creator) = match store.post_from_id(id) {
        Some(p) => (p.category_id.clone(), p.title.clone(), p.content.clone(), (p.creator_id
            == *actor_id)),
        None => {
            return Err(ApiError::NotFound(EntityKind::Post));
        },
    };
    let held = match store.user_from_id(actor_id) {
        Some(u) => u.permission,
        None => {
            return Err(ApiError::NotFound(EntityKind::User));
        },
    };
    let required = permission_for_important_actions();
    if !p_is_creator && !is_allowed(&held, &required) {
        return Err(ApiError::Unauthorized(DenialReason::Threshold { held, required }));
    }
    let cat_write = match store.category_from_id(&p_category_id) {
        Some(c) => c.minimum_write_permission,
        None => {
            return Err(ApiError::NotFound(EntityKind::Category));
        },
    };
    if !is_allowed(&held, &cat_write) {
        return Err(ApiError::Unauthorized(DenialReason::Threshold { held, required: cat_write }));
    }
    let data = EditPost {
        id: id.clone(),
        category_id: p_category_id,
        title: p_title,
        content: p_content,
        deleted: true,
        locked: true,
    };
    match store.edit_post(data, now) {
        Ok(_) => Ok(()),
        Err(_) => Err(ApiError::StorageFailure),
    }
}

/// What toggling a post's lock decides: the actor must exist and meet the
/// "important actions" threshold — the creator has no special standing —
/// and the post must exist.
pub open spec fn set_post_locked_decision(s: StoreView, actor: Seq<char>, id: Seq<char>) -> Result<
    (),
    ApiError,
> {
    match user_by_id(s.users, actor) {
        None => Err(ApiError::NotFound(EntityKind::User)),
        Some(u) => {
            if !spec_is_allowed(u.permission, spec_important_actions_threshold()) {
                Err(
                    ApiError::Unauthorized(
                        DenialReason::Threshold {
                            held: u.permission,
                            required: spec_important_actions_threshold(),
                        },
                    ),
                )
            } else {
                match post_by_id(s.posts, id) {
                    None => Err(ApiError::NotFound(EntityKind::Post)),
                    Some(_) => Ok(()),
                }
            }
        },
    }
}

/// Sets a post's lock flag without touching anything else but the edit
/// stamp. Locking is independent of deletion: a deleted post stays
/// deleted, an unlocked active post can be locked on its own.
pub fn set_post_locked(store: &mut Store, actor_id: &Id, id: &Id, locked: bool, now: &str) -> (r:
    Result<(), ApiError>)
    requires
        old(store).wf(),
    ensures
        final(store).wf(),
        r == set_post_locked_decision(old(store)@, actor_id@, id@),
        match r {
            Ok(_) => ({
                let p = post_by_id(old(store)@.posts, id@).unwrap();
                final(store)@ == (StoreView {
                    posts: old(store)@.posts.update(
                        post_idx(old(store)@.posts, id@),
                        PostView { locked: locked, date_edited: Some(now@), ..p },
                    ),
                    ..old(store)@
                })
            }),
            Err(_) => final(store)@ == old(store)@,
        },
{
    let held = match store.user_from_id(actor_id) {
        Some(u) => u.permission,
        None => {
            return Err(ApiError::NotFound(EntityKind::User));
        },
    };
    let required = permission_for_important_actions();
    if !is_allowed(&held, &required) {
        return Err(ApiError::Unauthorized(DenialReason::Threshold { held, required }));
    }
    proof {
        lemma_find_first_spec(store@.posts, |p: PostView| p.id == id@);
    }
    let (p_category_id, p_title, p_content, p_deleted) = match store.post_from_id(id) {
        Some(p) => (p.category_id.clone(), p.title.clone(), p.content.clone(), p.deleted),
        None => {
            return Err(ApiError::NotFound(EntityKind::Post));
        },
    };
    let data = EditPost {
        id: id.clone(),
        category_id: p_category_id,
        title: p_title,
        content: p_content,
        deleted: p_deleted,
        locked,
    };
    match store.edit_post(data, now) {
        Ok(_) => Ok(()),
        Err(_) => Err(ApiError::StorageFailure),
    }
}

/// What reply creation decides: the actor, the parent post and the post's
/// category must all resolve, and the actor must meet that category's
/// write threshold.
pub open spec fn create_reply_decision(s: StoreView, actor: Seq<char>, post_id: Seq<char>) -> Result<
    (),
    ApiError,
> {
    match user_by_id(s.users, actor) {
        None => Err(ApiError::NotFound(EntityKind::User)),
        Some(u) => match post_by_id(s.posts, post_id) {
            None => Err(ApiError::NotFound(EntityKind::Post)),
            Some(p) => match category_by_id(s.categories, p.category_id) {
                None => Err(ApiError::NotFound(EntityKind::Category)),
                Some(c) => {
                    if !spec_is_allowed(u.permission, c.minimum_write_permission) {
                        Err(
                            ApiError::Unauthorized(
                                DenialReason::Threshold {
                                    held: u.permission,
                                    required: c.minimum_write_permission,
                                },
                            ),
                        )
                    } else {
                        Ok(())
                    }
                },
            },
        },
    }
}

/// Creates a reply under a post, owned by the actor, stamped with `now`.
/// Authorisation derives from the parent post's category, exactly as for
/// posts.
pub fn create_reply(
    store: &mut Store,
    actor_id: &Id,
    post_id: Id,
    content: Content,
    now: &str,
) -> (r: Result<Id, ApiError>)
    requires
        old(store).wf(),
    ensures
        final(store).wf(),
        match r {
            Ok(rid) => create_reply_decision(old(store)@, actor_id@, post_id@) is Ok
                && reply_by_id(old(store)@.replies, rid@) is None && final(store)@ == (StoreView {
                replies: old(store)@.replies.push(
                    ReplyView {
                        id: rid@,
                        creator_id: actor_id@,
                        post_id: post_id@,
                        content: content@,
                        deleted: false,
                        date_created: now@,
                        date_edited: None,
                    },
                ),
                ..old(store)@
            }),
            Err(e) => final(store)@ == old(store)@ && match create_reply_decision(
                old(store)@,
                actor_id@,
                post_id@,
            ) {
                Err(d) => e == d,
                Ok(_) => e == ApiError::StorageFailure,
            },
        },
{
    let held = match store.user_from_id(actor_id) {
        Some(u) => u.permission,
        None => {
            return Err(ApiError::NotFound(EntityKind::User));
        },
    };
    let p_category_id = match store.post_from_id(&post_id) {
        Some(p) => p.category_id.clone(),
        None => {
            return Err(ApiError::NotFound(EntityKind::Post));
        },
    };
    let required = match store.category_from_id(&p_category_id) {
        Some(c) => c.minimum_write_permission,
        None => {
            return Err(ApiError::NotFound(EntityKind::Category));
        },
    };
    if !is_allowed(&held, &required) {
        return Err(ApiError::Unauthorized(DenialReason::Threshold { held, required }));
    }
    let id = Id::new();
    let data = CreateReply { creator_id: actor_id.clone(), post_id, content };
    match store.create_reply(data, id, now) {
        Ok(rid) => Ok(rid),
        Err(_) => Err(ApiError::StorageFailure),
    }
}

/// What a reply edit decides: the reply must exist and only its creator
/// may edit it — checked before anything else, as a stranger learns no
/// more than that the id is taken; then the actor, parent post and
/// category must resolve and the actor must meet the write threshold.
pub open spec fn edit_reply_decision(s: StoreView, actor: Seq<char>, id: Seq<char>) -> Result<
    (),
    ApiError,
> {
    match reply_by_id(s.replies, id) {
        None => Err(ApiError::NotFound(EntityKind::Reply)),
        Some(rep) => {
            if rep.creator_id != actor {
                Err(ApiError::Unauthorized(DenialReason::NotCreator))
            } else {
                match user_by_id(s.users, actor) {
                    None => Err(ApiError::NotFound(EntityKind::User)),
                    Some(u) => match post_by_id(s.posts, rep.post_id) {
                        None => Err(ApiError::NotFound(EntityKind::Post)),
                        Some(p) => match category_by_id(s.categories, p.category_id) {
                            None => Err(ApiError::NotFound(EntityKind::Category)),
                            Some(c) => {
                                if !spec_is_allowed(u.permission, c.minimum_write_permission) {
                                    Err(
                                        ApiError::Unauthorized(
                                            DenialReason::Threshold {
                                                held: u.permission,
                                                required: c.minimum_write_permission,
                                            },
                                        ),
                                    )
                                } else {
                                    Ok(())
                                }
                            },
                        },
                    },
                }
            }
        },
    }
}

/// Edits a reply's content; the tombstone flag is copied unchanged and the
/// edit time stamped.
pub fn edit_reply(store: &mut Store, actor_id: &Id, id: &Id, content: Content, now: &str) -> (r:
    Result<(), ApiError>)
    requires
        old(store).wf(),
    ensures
        final(store).wf(),
        r == edit_reply_decision(old(store)@, actor_id@, id@),
        match r {
            Ok(_) => ({
                let rep = reply_by_id(old(store)@.replies, id@).unwrap();
                final(store)@ == (StoreView {
                    replies: old(store)@.replies.update(
                        reply_idx(old(store)@.replies, id@),
                        ReplyView { content: content@, date_edited: Some(now@), ..rep },
                    ),
                    ..old(store)@
                })
            }),
            Err(_) => final(store)@ == old(store)@,
        },
{
    proof {
        lemma_find_first_spec(store@.replies, |rv: ReplyView| rv.id == id@);
    }
    let (rep_is_creator, rep_post_id, rep_deleted) = match store.reply_from_id(id) {
        Some(rep) => ((rep.creator_id == *actor_id), rep.post_id.clone(), rep.deleted),
        None => {
            return Err(ApiError::NotFound(EntityKind::Reply));
        },
    };
    if !rep_is_creator {
        return Err(ApiError::Unauthorized(DenialReason::NotCreator));
    }
    let held = match store.user_from_id(actor_id) {
        Some(u) => u.permission,
        None => {
            return Err(ApiError::NotFound(EntityKind::User));
        },
    };
    let p_category_id = match store.post_from_id(&rep_post_id) {
        Some(p) => p.category_id.clone(),
        None => {
            return Err(ApiError::NotFound(EntityKind::Post));
        },
    };
    let required = match store.category_from_id(&p_category_id) {
        Some(c) => c.minimum_write_permission,
        None => {
            return Err(ApiError::NotFound(EntityKind::Category));
        },
    };
    if !is_allowed(&held, &required) {
        return Err(ApiError::Unauthorized(DenialReason::Threshold { held, required }));
    }
    let data = EditReply { id: id.clone(), content, deleted: rep_deleted };
    match store.edit_reply(data, now) {
        Ok(_) => Ok(()),
        Err(_) => Err(ApiError::StorageFailure),
    }
}

/// What a reply removal decides: the reply must exist; the actor, parent
/// post and category must resolve; the actor must be the reply's creator
/// or meet the "important actions" threshold; and the actor must meet the
/// category's write threshold.
pub open spec fn remove_reply_decision(s: StoreView, actor: Seq<char>, id: Seq<char>) -> Result<
    (),
    ApiError,
> {
    match reply_by_id(s.replies, id) {
        None => Err(ApiError::NotFound(EntityKind::Reply)),
        Some(rep) => match user_by_id(s.users, actor) {
            None => Err(ApiError::NotFound(EntityKind::User)),
            Some(u) => match post_by_id(s.posts, rep.post_id) {
                None => Err(ApiError::NotFound(EntityKind::Post)),
                Some(p) => match category_by_id(s.categories, p.category_id) {
                    None => Err(ApiError::NotFound(EntityKind::Category)),
                    Some(c) => {
                        if rep.creator_id != actor && !spec_is_allowed(
                            u.permission,
                            spec_important_actions_threshold(),
                        ) {
                            Err(
                                ApiError::Unauthorized(
                                    DenialReason::Threshold {
                                        held: u.permission,
                                        required: spec_important_actions_threshold(),
                                    },
                                ),
                            )
                        } else if !spec_is_allowed(u.permission, c.minimum_write_permission) {
                            Err(
                                ApiError::Unauthorized(
                                    DenialReason::Threshold {
                                        held: u.permission,
                                        required: c.minimum_write_permission,
                                    },
                                ),
                            )
                        } else {
                            Ok(())
                        }
                    },
                },
            },
        },
    }
}

/// Soft-deletes a reply: the stored record is written back unchanged but
/// for the tombstone flag and the edit stamp.
pub fn remove_reply(store: &mut Store, actor_id: &Id, id: &Id, now: &str) -> (r: Result<
    (),
    ApiError,
>)
    requires
        old(store).wf(),
    ensures
        final(store).wf(),
        r == remove_reply_decision(old(store)@, actor_id@, id@),
        match r {
            Ok(_) => ({
                let rep = reply_by_id(old(store)@.replies, id@).unwrap();
                final(store)@ == (StoreView {
                    replies: old(store)@.replies.update(
                        reply_idx(old(store)@.replies, id@),
                        ReplyView { deleted: true, date_edited: Some(now@), ..rep },
                    ),
                    ..old(store)@
                })
            }),
            Err(_) => final(store)@ == old(store)@,
        },
{
    proof {
        lemma_find_first_spec(store@.replies, |rv: ReplyView| rv.id == id@);
    }
    let (rep_is_creator, rep_post_id, rep_content) = match store.reply_from_id(id) {
        Some(rep) => ((rep.creator_id == *actor_id), rep.post_id.clone(), rep.content.clone()),
        None => {
            return Err(ApiError::NotFound(EntityKind::Reply));
        },
    };
    let held = match store.user_from_id(actor_id) {
        Some(u) => u.permission,
        None => {
            return Err(ApiError::NotFound(EntityKind::User));
        },
    };
    let p_category_id = match store.post_from_id(&rep_post_id) {
        Some(p) => p.category_id.clone(),
        None => {
            return Err(ApiError::NotFound(EntityKind::Post));
        },
    };
    let cat_write = match store.category_from_id(&p_category_id) {
        Some(c) => c.minimum_write_permission,
        None => {
            return Err(ApiError::NotFound(EntityKind::Category));
        },
    };
    let required = permission_for_important_actions();
    if !rep_is_creator && !is_allowed(&held, &required) {
        return Err(ApiError::Unauthorized(DenialReason::Threshold { held, required }));
    }
    if !is_allowed(&held, &cat_write) {
        return Err(ApiError::Unauthorized(DenialReason::Threshold { held, required: cat_write }));
    }
    let data = EditReply { id: id.clone(), content: rep_content, deleted: true };
    match store.edit_reply(data, now) {
        Ok(_) => Ok(()),
        Err(_) => Err(ApiError::StorageFailure),
    }
}

/// Registers a new user: the username must be free (case-sensitive exact
/// match), the password is put through the one-way transform, and the new
/// user starts `Unverified` with no nickname and no avatar. On a taken
/// username nothing is created and `ValidationFailed` comes back — and
/// that error comes back only on a taken username.
pub fn register(store: &mut Store, username: Name, password: &Password, now: &str) -> (r: Result<
    Id,
    ApiError,
>)
    requires
        old(store).wf(),
    ensures
        final(store).wf(),
        user_by_username(old(store)@.users, username@) is Some <==> r == Err::<Id, ApiError>(
            ApiError::ValidationFailed(ValidationFault::UserAlreadyExists),
        ),
        match r {
            Ok(rid) => user_by_id(old(store)@.users, rid@) is None && exists|h: Seq<char>|
                #[trigger] bcrypt_verifies(password@, h) && final(store)@ == (StoreView {
                    users: old(store)@.users.push(
                        UserView {
                            id: rid@,
                            username: username@,
                            nickname: None,
                            password: h,
                            permission: Permission::Unverified,
                            avatar_id: None,
                            deleted: false,
                            date_created: now@,
                            date_edited: None,
                        },
                    ),
                    ..old(store)@
                }),
            Err(e) => final(store)@ == old(store)@ && (e == ApiError::ValidationFailed(
                ValidationFault::UserAlreadyExists,
            ) || e == ApiError::StorageFailure),
        },
{
    if store.user_from_username(&username).is_some() {
        return Err(ApiError::ValidationFailed(ValidationFault::UserAlreadyExists));
    }
    let hashed = match hash_password(password) {
        Ok(h) => h,
        Err(_) => {
            return Err(ApiError::StorageFailure);
        },
    };
    let ghost hv = hashed@;
    let id = Id::new();
    let data = CreateUser {
        username,
        nickname: None,
        password: hashed,
        permission: Permission::default(),
        avatar_id: None,
    };
    match store.create_user(data, id, now) {
        Ok(rid) => {
            proof {
                assert(bcrypt_verifies(password@, hv));
            }
            Ok(rid)
        },
        Err(_) => Err(ApiError::StorageFailure),
    }
}

/// Authenticates a user: resolves the username and checks the supplied
/// plaintext against the stored hash through the one-way transform. A
/// missing username and a failed check are indistinguishable to the
/// caller; success is owed exactly where the transform accepts the
/// stored pair.
pub fn login(store: &Store, username: &Name, password: &Password) -> (r: Result<Id, ApiError>)
    ensures
        match r {
            Ok(uid) => ({
                let u = user_by_username(store@.users, username@);
                u is Some && uid@ == u.unwrap().id && bcrypt_verifies(
                    password@,
                    u.unwrap().password,
                )
            }),
            Err(e) => ({
                let u = user_by_username(store@.users, username@);
                &&& u is Some ==> !bcrypt_verifies(password@, u.unwrap().password)
                &&& (e == ApiError::ValidationFailed(ValidationFault::InvalidCredentials) || (e
                    == ApiError::StorageFailure && u is Some))
            }),
        },
        user_by_username(store@.users, username@) is None ==> r == Err::<Id, ApiError>(
            ApiError::ValidationFailed(ValidationFault::InvalidCredentials),
        ),
        user_by_username(store@.users, username@) matches Some(u) && bcrypt_verifies(
            password@,
            u.password,
        ) ==> r is Ok,
{
    let user = match store.user_from_username(username) {
        Some(u) => u,
        None => {
            return Err(ApiError::ValidationFailed(ValidationFault::InvalidCredentials));
        },
    };
    match crate::password::verify_password(password, &user.password) {
        Ok(true) => Ok(user.id.clone()),
        Ok(false) => Err(ApiError::ValidationFailed(ValidationFault::InvalidCredentials)),
        Err(_) => Err(ApiError::StorageFailure),
    }
}

/// Edits the actor's own profile: each supplied field replaces the stored
/// one — a supplied `None` clears it — and every field not supplied is
/// copied unchanged, but for the edit stamp, which every edit sets. A
/// supplied password goes through the one-way transform. Permission and
/// the tombstone flag cannot be touched here.
pub fn edit_user(
    store: &mut Store,
    actor_id: &Id,
    nickname: Option<Option<Name>>,
    avatar_id: Option<Option<Id>>,
    password: Option<Password>,
    now: &str,
) -> (r: Result<(), ApiError>)
    requires
        old(store).wf(),
    ensures
        final(store).wf(),
        match r {
            Ok(_) => ({
                let u = user_by_id(old(store)@.users, actor_id@);
                u is Some && ({
                    let base = UserView {
                        nickname: merged(nickname.deep_view(), u.unwrap().nickname),
                        avatar_id: merged(avatar_id.deep_view(), u.unwrap().avatar_id),
                        date_edited: Some(now@),
                        ..u.unwrap()
                    };
                    match password {
                        None => final(store)@ == (StoreView {
                            users: old(store)@.users.update(
                                user_idx(old(store)@.users, actor_id@),
                                base,
                            ),
                            ..old(store)@
                        }),
                        Some(p) => exists|h: Seq<char>|
                            #[trigger] bcrypt_verifies(p@, h) && final(store)@ == (StoreView {
                                users: old(store)@.users.update(
                                    user_idx(old(store)@.users, actor_id@),
                                    UserView { password: h, ..base },
                                ),
                                ..old(store)@
                            }),
                    }
                })
            }),
            Err(e) => final(store)@ == old(store)@ && ((e == ApiError::NotFound(EntityKind::User)
                && user_by_id(old(store)@.users, actor_id@) is None) || (e
                == ApiError::StorageFailure && password is Some)),
        },
        user_by_id(old(store)@.users, actor_id@) is Some && password is None ==> r is Ok,
        user_by_id(old(store)@.users, actor_id@) is None ==> r == Err::<(), ApiError>(
            ApiError::NotFound(EntityKind::User),
        ),
{
    proof {
        lemma_find_first_spec(store@.users, |u: UserView| u.id == actor_id@);
    }
    let (u_nickname, u_password, u_permission, u_avatar_id, u_deleted) = match store.user_from_id(
        actor_id,
    ) {
        Some(u) => (
            match &u.nickname {
                Some(n) => Some(n.clone()),
                None => None,
            },
            u.password.clone(),
            u.permission,
            match &u.avatar_id {
                Some(a) => Some(a.clone()),
                None => None,
            },
            u.deleted,
        ),
        None => {
            return Err(ApiError::NotFound(EntityKind::User));
        },
    };
    let new_password = match password {
        None => u_password,
        Some(p) => match hash_password(&p) {
            Ok(h) => h,
            Err(_) => {
                return Err(ApiError::StorageFailure);
            },
        },
    };
    let data = EditUser {
        id: actor_id.clone(),
        nickname: match nickname {
            Some(n) => n,
            None => u_nickname,
        },
        password: new_password,
        permission: u_permission,
        avatar_id: match avatar_id {
            Some(a) => a,
            None => u_avatar_id,
        },
        deleted: u_deleted,
    };
    match store.edit_user(data, now) {
        Ok(_) => Ok(()),
        Err(_) => Err(ApiError::StorageFailure),
    }
}

/// What a permission grant decides: the granting actor must exist, meet
/// the "important actions" threshold, and itself satisfy the level being
/// granted; the target user must exist.
pub open spec fn edit_user_permission_decision(
    s: StoreView,
    actor: Seq<char>,
    target: Seq<char>,
    permission: Permission,
) -> Result<(), ApiError> {
    match user_by_id(s.users, actor) {
        None => Err(ApiError::NotFound(EntityKind::User)),
        Some(u) => {
            if !spec_is_allowed(u.permission, spec_important_actions_threshold()) {
                Err(
                    ApiError::Unauthorized(
                        DenialReason::Threshold {
                            held: u.permission,
                            required: spec_important_actions_threshold(),
                        },
                    ),
                )
            } else if !spec_is_allowed(u.permission, permission) {
                Err(
                    ApiError::Unauthorized(
                        DenialReason::Threshold { held: u.permission, required: permission },
                    ),
                )
            } else {
                match user_by_id(s.users, target) {
                    None => Err(ApiError::NotFound(EntityKind::User)),
                    Some(_) => Ok(()),
                }
            }
        },
    }
}

/// Grants a permission level to another user; everything else about the
/// target's record is copied unchanged, but for the edit stamp, which
/// every edit sets.
pub fn edit_user_permission(
    store: &mut Store,
    actor_id: &Id,
    target_id: &Id,
    permission: Permission,
    now: &str,
) -> (r: Result<(), ApiError>)
    requires
        old(store).wf(),
    ensures
        final(store).wf(),
        r == edit_user_permission_decision(old(store)@, actor_id@, target_id@, permission),
        match r {
            Ok(_) => ({
                let u = user_by_id(old(store)@.users, target_id@).unwrap();
                final(store)@ == (StoreView {
                    users: old(store)@.users.update(
                        user_idx(old(store)@.users, target_id@),
                        UserView { permission: permission, date_edited: Some(now@), ..u },
                    ),
                    ..old(store)@
                })
            }),
            Err(_) => final(store)@ == old(store)@,
        },
{
    let held = match store.user_from_id(actor_id) {
        Some(u) => u.permission,
        None => {
            return Err(ApiError::NotFound(EntityKind::User));
        },
    };
    let required = permission_for_important_actions();
    if !is_allowed(&held, &required) {
        return Err(ApiError::Unauthorized(DenialReason::Threshold { held, required }));
    }
    if !is_allowed(&held, &permission) {
        return Err(ApiError::Unauthorized(DenialReason::Threshold { held, required: permission }));
    }
    proof {
        lemma_find_first_spec(store@.users, |u: UserView| u.id == target_id@);
    }
    let (t_nickname, t_password, t_avatar_id, t_deleted) = match store.user_from_id(target_id) {
        Some(u) => (
            match &u.nickname {
                Some(n) => Some(n.clone()),
                None => None,
            },
            u.password.clone(),
            match &u.avatar_id {
                Some(a) => Some(a.clone()),
                None => None,
            },
            u.deleted,
        ),
        None => {
            return Err(ApiError::NotFound(EntityKind::User));
        },
    };
    let data = EditUser {
        id: target_id.clone(),
        nickname: t_nickname,
        password: t_password,
        permission,
        avatar_id: t_avatar_id,
        deleted: t_deleted,
    };
    match store.edit_user(data, now) {
        Ok(_) => Ok(()),
        Err(_) => Err(ApiError::StorageFailure),
    }
}

/// What recording an attachment decides: the actor must exist and meet
/// the fixed attachment-upload threshold.
pub open spec fn create_attachment_decision(s: StoreView, actor: Seq<char>) -> Result<
    (),
    ApiError,
> {
    match user_by_id(s.users, actor) {
        None => Err(ApiError::NotFound(EntityKind::User)),
        Some(u) => {
            if !spec_is_allowed(u.permission, spec_attachment_upload_threshold()) {
                Err(
                    ApiError::Unauthorized(
                        DenialReason::Threshold {
                            held: u.permission,
                            required: spec_attachment_upload_threshold(),
                        },
                    ),
                )
            } else {
                Ok(())
            }
        },
    }
}

/// Records an uploaded attachment owned by the actor. The caller persists
/// the bytes at the returned record's path; the record itself is immutable
/// once created.
pub fn create_attachment(store: &mut Store, actor_id: &Id, file_name: String, now: &str) -> (r:
    Result<Id, ApiError>)
    requires
        old(store).wf(),
    ensures
        final(store).wf(),
        match r {
            Ok(rid) => create_attachment_decision(old(store)@, actor_id@) is Ok
                && attachment_by_id(old(store)@.attachments, rid@) is None && final(store)@ == (
            StoreView {
                attachments: old(store)@.attachments.push(
                    AttachmentView {
                        id: rid@,
                        path: "files_uploaded/"@ + actor_id@ + "/"@ + rid@ + "/"@ + file_name@,
                        creator_id: actor_id@,
                        date_created: now@,
                    },
                ),
                ..old(store)@
            }),
            Err(e) => final(store)@ == old(store)@ && match create_attachment_decision(
                old(store)@,
                actor_id@,
            ) {
                Err(d) => e == d,
                Ok(_) => e == ApiError::StorageFailure,
            },
        },
{
    let held = match store.user_from_id(actor_id) {
        Some(u) => u.permission,
        None => {
            return Err(ApiError::NotFound(EntityKind::User));
        },
    };
    let required = crate::permission::permission_for_attachment_upload();
    if !is_allowed(&held, &required) {
        return Err(ApiError::Unauthorized(DenialReason::Threshold { held, required }));
    }
    let id = Id::new();
    let data = CreateAttachment { creator_id: actor_id.clone(), file_name };
    match store.create_attachment(data, id, now) {
        Ok(rid) => Ok(rid),
        Err(_) => Err(ApiError::StorageFailure),
    }
}

/// The permission a reader effectively holds: the stored one, or
/// `Unverified` for an unknown actor.
pub open spec fn reader_permission(s: StoreView, actor: Seq<char>) -> Permission {
    match user_by_id(s.users, actor) {
        Some(u) => u.permission,
        None => Permission::Unverified,
    }
}

/// Every category the actor may read, in insertion order. An unknown
/// actor reads as `Unverified`; categories above the reader's level are
/// filtered out, tombstoned ones are not.
#[verifier::loop_isolation(false)]
pub fn all_categories(store: &Store, actor_id: &Id) -> (r: Vec<Category>)
    ensures
        r.deep_view() == store@.categories.filter(
            |c: CategoryView|
                spec_is_allowed(reader_permission(store@, actor_id@), c.minimum_read_permission),
        ),
{
    let held = match store.user_from_id(actor_id) {
        Some(u) => u.permission,
        None => Permission::Unverified,
    };
    let ghost pred = |c: CategoryView|
        spec_is_allowed(reader_permission(store@, actor_id@), c.minimum_read_permission);
    let cats = store.all_categories();
    let mut out: Vec<Category> = Vec::new();
    let n = cats.len();
    proof {
        reveal(Seq::filter);
        assert(out.deep_view() =~= store@.categories.subrange(0, 0).filter(pred));
    }
    for i in 0..n
        invariant
            n == cats.len(),
            cats.deep_view() == store@.categories,
            out.deep_view() == store@.categories.subrange(0, i as int).filter(pred),
    {
        proof {
            let prefix = store@.categories.subrange(0, i as int);
            assert(store@.categories.subrange(0, i as int + 1) =~= prefix.push(
                store@.categories[i as int],
            ));
            prefix.lemma_filter_push(store@.categories[i as int], pred);
        }
        if is_allowed(&held, &cats[i].minimum_read_permission) {
            out.push(cats[i].clone());
            proof {
                assert(out.deep_view() =~= store@.categories.subrange(0, i as int + 1).filter(
                    pred,
                ));
            }
        }
    }
    proof {
        assert(store@.categories.subrange(0, n as int) =~= store@.categories);
    }
    out
}

/// What listing a category's posts decides: the category must exist and
/// the reader must meet its read threshold.
pub open spec fn posts_from_category_decision(
    s: StoreView,
    actor: Seq<char>,
    category_id: Seq<char>,
) -> Result<(), ApiError> {
    match category_by_id(s.categories, category_id) {
        None => Err(ApiError::NotFound(EntityKind::Category)),
        Some(c) => {
            if !spec_is_allowed(reader_permission(s, actor), c.minimum_read_permission) {
                Err(
                    ApiError::Unauthorized(
                        DenialReason::Threshold {
                            held: reader_permission(s, actor),
                            required: c.minimum_read_permission,
                        },
                    ),
                )
            } else {
                Ok(())
            }
        },
    }
}

/// Every post in a category, in insertion order, tombstoned posts
/// included, gated by the category's read threshold.
pub fn posts_from_category(store: &Store, actor_id: &Id, category_id: &Id) -> (r: Result<
    Vec<Post>,
    ApiError,
>)
    ensures
        match r {
            Ok(v) => posts_from_category_decision(store@, actor_id@, category_id@) is Ok
                && v.deep_view() == store@.posts.filter(
                |p: PostView| p.category_id == category_id@,
            ),
            Err(e) => posts_from_category_decision(store@, actor_id@, category_id@) == Err::<
                (),
                ApiError,
            >(e),
        },
{
    let held = match store.user_from_id(actor_id) {
        Some(u) => u.permission,
        None => Permission::Unverified,
    };
    let required = match store.category_from_id(category_id) {
        Some(c) => c.minimum_read_permission,
        None => {
            return Err(ApiError::NotFound(EntityKind::Category));
        },
    };
    if !is_allowed(&held, &required) {
        return Err(ApiError::Unauthorized(DenialReason::Threshold { held, required }));
    }
    Ok(store.posts_from_category(category_id))
}

/// What fetching one post decides: the category must exist, the reader
/// must meet its read threshold, and the post must exist and belong to
/// that category.
pub open spec fn post_from_id_decision(
    s: StoreView,
    actor: Seq<char>,
    category_id: Seq<char>,
    post_id: Seq<char>,
) -> Result<PostView, ApiError> {
    match category_by_id(s.categories, category_id) {
        None => Err(ApiError::NotFound(EntityKind::Category)),
        Some(c) => {
            if !spec_is_allowed(reader_permission(s, actor), c.minimum_read_permission) {
                Err(
                    ApiError::Unauthorized(
                        DenialReason::Threshold {
                            held: reader_permission(s, actor),
                            required: c.minimum_read_permission,
                        },
                    ),
                )
            } else {
                match post_by_id(s.posts, post_id) {
                    None => Err(ApiError::NotFound(EntityKind::Post)),
                    Some(p) => {
                        if p.category_id != c.id {
                            Err(ApiError::NotFound(EntityKind::Post))
                        } else {
                            Ok(p)
                        }
                    },
                }
            }
        },
    }
}

/// Fetches one post by id, within the category named, gated by the
/// category's read threshold.
pub fn post_from_id(store: &Store, actor_id: &Id, category_id: &Id, post_id: &Id) -> (r: Result<
    Post,
    ApiError,
>)
    ensures
        match r {
            Ok(p) => post_from_id_decision(store@, actor_id@, category_id@, post_id@) == Ok::<
                PostView,
                ApiError,
            >(p@),
            Err(e) => post_from_id_decision(store@, actor_id@, category_id@, post_id@) == Err::<
                PostView,
                ApiError,
            >(e),
        },
{
    let held = match store.user_from_id(actor_id) {
        Some(u) => u.permission,
        None => Permission::Unverified,
    };
    let category = match store.category_from_id(category_id) {
        Some(c) => c,
        None => {
            return Err(ApiError::NotFound(EntityKind::Category));
        },
    };
    if !is_allowed(&held, &category.minimum_read_permission) {
        return Err(
            ApiError::Unauthorized(
                DenialReason::Threshold { held, required: category.minimum_read_permission },
            ),
        );
    }
    let post = match store.post_from_id(post_id) {
        Some(p) => p,
        None => {
            return Err(ApiError::NotFound(EntityKind::Post));
        },
    };
    if !(post.category_id == category.id) {
        return Err(ApiError::NotFound(EntityKind::Post));
    }
    Ok(post.clone())
}

/// What listing a post's replies decides: the post and its category must
/// resolve and the reader must meet the category's read threshold.
pub open spec fn replies_from_post_decision(
    s: StoreView,
    actor: Seq<char>,
    post_id: Seq<char>,
) -> Result<(), ApiError> {
    match post_by_id(s.posts, post_id) {
        None => Err(ApiError::NotFound(EntityKind::Post)),
        Some(p) => match category_by_id(s.categories, p.category_id) {
            None => Err(ApiError::NotFound(EntityKind::Category)),
            Some(c) => {
                if !spec_is_allowed(reader_permission(s, actor), c.minimum_read_permission) {
                    Err(
                        ApiError::Unauthorized(
                            DenialReason::Threshold {
                                held: reader_permission(s, actor),
                                required: c.minimum_read_permission,
                            },
                        ),
                    )
                } else {
                    Ok(())
                }
            },
        },
    }
}

/// Every reply under a post, in insertion order, tombstoned replies
/// included, gated by the read threshold of the post's category.
pub fn replies_from_post(store: &Store, actor_id: &Id, post_id: &Id) -> (r: Result<
    Vec<Reply>,
    ApiError,
>)
    ensures
        match r {
            Ok(v) => replies_from_post_decision(store@, actor_id@, post_id@) is Ok
                && v.deep_view() == store@.replies.filter(|rv: ReplyView| rv.post_id == post_id@),
            Err(e) => replies_from_post_decision(store@, actor_id@, post_id@) == Err::<
                (),
                ApiError,
            >(e),
        },
{
    let held = match store.user_from_id(actor_id) {
        Some(u) => u.permission,
        None => Permission::Unverified,
    };
    let p_category_id = match store.post_from_id(post_id) {
        Some(p) => p.category_id.clone(),
        None => {
            return Err(ApiError::NotFound(EntityKind::Post));
        },
    };
    let required = match store.category_from_id(&p_category_id) {
        Some(c) => c.minimum_read_permission,
        None => {
            return Err(ApiError::NotFound(EntityKind::Category));
        },
    };
    if !is_allowed(&held, &required) {
        return Err(ApiError::Unauthorized(DenialReason::Threshold { held, required }));
    }
    Ok(store.replies_from_post(post_id))
}

/// Fetches a user's profile record by id.
pub fn user_from_id<'a>(store: &'a Store, id: &Id) -> (r: Result<&'a User, ApiError>)
    ensures
        match r {
            Ok(u) => user_by_id(store@.users, id@) == Some(u@),
            Err(e) => e == ApiError::NotFound(EntityKind::User) && user_by_id(
                store@.users,
                id@,
            ) is None,
        },
{
    match store.user_from_id(id) {
        Some(u) => Ok(u),
        None => Err(ApiError::NotFound(EntityKind::User)),
    }
}

/// Fetches an attachment record by id.
pub fn attachment_from_id<'a>(store: &'a Store, id: &Id) -> (r: Result<
    &'a crate::models::Attachment,
    ApiError,
>)
    ensures
        match r {
            Ok(a) => attachment_by_id(store@.attachments, id@) == Some(a@),
            Err(e) => e == ApiError::NotFound(EntityKind::Attachment) && attachment_by_id(
                store@.attachments,
                id@,
            ) is None,
        },
{
    match store.attachment_from_id(id) {
        Some(a) => Ok(a),
        None => Err(ApiError::NotFound(EntityKind::Attachment)),
    }
}

/// A category edit that supplies only a new title leaves both permission
/// thresholds and the tombstone flag unchanged from the pre-edit record:
/// in the store state `edit_category` ensures on success, the record under
/// the same id carries the new title, the old thresholds and the old flag.
pub proof fn lemma_edit_category_title_only(
    s: StoreView,
    s2: StoreView,
    actor: Seq<char>,
    id: Seq<char>,
    title: Seq<char>,
    now: Seq<char>,
)
    requires
        edit_category_decision(s, actor, id, None, None) is Ok,
        s2 == (StoreView {
            categories: s.categories.update(
                category_idx(s.categories, id),
                merged_category(
                    category_by_id(s.categories, id).unwrap(),
                    Some(title),
                    None,
                    None,
                    now,
                ),
            ),
            ..s
        }),
    ensures
        ({
            let before = category_by_id(s.categories, id).unwrap();
            let after = category_by_id(s2.categories, id).unwrap();
            &&& after.title == title
            &&& after.minimum_write_permission == before.minimum_write_permission
            &&& after.minimum_read_permission == before.minimum_read_permission
            &&& after.deleted == before.deleted
        }),
{
    let pred = |c: CategoryView| c.id == id;
    lemma_find_first_spec(s.categories, pred);
    let before = category_by_id(s.categories, id).unwrap();
    let nv = merged_category(before, Some(title), None, None, now);
    lemma_find_first_after_update(s.categories, pred, nv);
}

/// Editing a post is reserved to its creator: an actor who exists but did
/// not create the post is refused as unauthorized, whatever thresholds —
/// the "important actions" threshold included — that actor meets.
pub proof fn lemma_edit_post_creator_only(
    s: StoreView,
    actor: Seq<char>,
    id: Seq<char>,
    category_id: Seq<char>,
)
    requires
        user_by_id(s.users, actor) is Some,
        post_by_id(s.posts, id) is Some,
        category_by_id(s.categories, post_by_id(s.posts, id).unwrap().category_id) is Some,
        category_by_id(s.categories, category_id) is Some,
        post_by_id(s.posts, id).unwrap().creator_id != actor,
    ensures
        edit_post_decision(s, actor, id, category_id) matches Err(ApiError::Unauthorized(_)),
{
}

/// An actor who is not a post's creator but meets the "important actions"
/// threshold — and, as every deletion requires, the write threshold of the
/// post's category — succeeds in soft-deleting the post, and the record
/// left behind is locked as a side effect.
pub proof fn lemma_remove_post_moderator(s: StoreView, s2: StoreView, actor: Seq<char>, id: Seq<
    char,
>, now: Seq<char>)
    requires
        post_by_id(s.posts, id) is Some,
        user_by_id(s.users, actor) is Some,
        spec_is_allowed(
            user_by_id(s.users, actor).unwrap().permission,
            spec_important_actions_threshold(),
        ),
        category_by_id(s.categories, post_by_id(s.posts, id).unwrap().category_id) is Some,
        spec_is_allowed(
            user_by_id(s.users, actor).unwrap().permission,
            category_by_id(
                s.categories,
                post_by_id(s.posts, id).unwrap().category_id,
            ).unwrap().minimum_write_permission,
        ),
        s2 == (StoreView {
            posts: s.posts.update(
                post_idx(s.posts, id),
                PostView {
                    deleted: true,
                    locked: true,
                    date_edited: Some(now),
                    ..post_by_id(s.posts, id).unwrap()
                },
            ),
            ..s
        }),
    ensures
        remove_post_decision(s, actor, id) is Ok,
        post_by_id(s2.posts, id).unwrap().locked,
        post_by_id(s2.posts, id).unwrap().deleted,
{
    let pred = |p: PostView| p.id == id;
    lemma_find_first_spec(s.posts, pred);
    let nv = PostView {
        deleted: true,
        locked: true,
        date_edited: Some(now),
        ..post_by_id(s.posts, id).unwrap()
    };
    lemma_find_first_after_update(s.posts, pred, nv);
}

/// Two category edits serialised by the `Gate` compose so that the second
/// merge reads the record the first edit wrote: each field of the final
/// record is the second caller's supplied value, or failing that the
/// first caller's, or failing that the stored one — never a mix of the
/// two callers' fields drawn from a stale snapshot of the record.
pub proof fn lemma_serialized_category_edits(
    c: CategoryView,
    t1: Option<Seq<char>>,
    r1: Option<Permission>,
    w1: Option<Permission>,
    n1: Seq<char>,
    t2: Option<Seq<char>>,
    r2: Option<Permission>,
    w2: Option<Permission>,
    n2: Seq<char>,
)
    ensures
        ({
            let after = merged_category(merged_category(c, t1, r1, w1, n1), t2, r2, w2, n2);
            &&& after.title == merged(t2, merged(t1, c.title))
            &&& after.minimum_read_permission == merged(r2, merged(r1, c.minimum_read_permission))
            &&& after.minimum_write_permission == merged(
                w2,
                merged(w1, c.minimum_write_permission),
            )
            &&& after.deleted == c.deleted
            &&& after.date_edited == Some(n2)
        }),
{
}

} // verus!
