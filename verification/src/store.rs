//! The in-memory entity store: the one concrete implementation of the
//! persistence surface that the lifecycle operations depend on.
//!
//! Lookups resolve an id to the first matching record; the store invariant
//! [`Store::wf`] keeps ids (and usernames) unique, so "first" is "the".
//! Edits take a complete replacement record — partial-update semantics
//! belong to the lifecycle layer — and creation declines an id or username
//! collision, leaving the store untouched.

use vstd::prelude::*;
use vstd::pervasive::VecAdditionalExecFns;
use vstd::string::StringExecFns;

use crate::models::Attachment;
use crate::models::AttachmentView;
use crate::models::Category;
use crate::models::CategoryView;
use crate::models::Id;
use crate::models::Name;
use crate::models::Post;
use crate::models::PostView;
use crate::models::Reply;
use crate::models::ReplyView;
use crate::models::Title;
use crate::models::Content;
use crate::models::User;
use crate::models::UserView;
use crate::password::HashedPassword;
use crate::permission::Permission;

verus! {

/// The first element satisfying `pred`, if any.
pub open spec fn find_first<T>(s: Seq<T>, pred: spec_fn(T) -> bool) -> Option<T>
    decreases s.len(),
{
    if s.len() == 0 {
        None
    } else if pred(s[0]) {
        Some(s[0])
    } else {
        find_first(s.drop_first(), pred)
    }
}

/// The index of the first element satisfying `pred`, or `-1`.
pub open spec fn find_first_idx<T>(s: Seq<T>, pred: spec_fn(T) -> bool) -> int
    decreases s.len(),
{
    if s.len() == 0 {
        -1
    } else if pred(s[0]) {
        0
    } else {
        let rest = find_first_idx(s.drop_first(), pred);
        if rest == -1 {
            -1
        } else {
            rest + 1
        }
    }
}

/// Characterises `find_first_idx` and ties `find_first` to it: a result of
/// `-1` means no element matches; otherwise the index points at the first
/// match.
pub proof fn lemma_find_first_spec<T>(s: Seq<T>, pred: spec_fn(T) -> bool)
    ensures
        find_first_idx(s, pred) == -1 ==> forall|j: int| 0 <= j < s.len() ==> !pred(s[j]),
        find_first_idx(s, pred) != -1 ==> {
            let i = find_first_idx(s, pred);
            &&& 0 <= i < s.len()
            &&& pred(s[i])
            &&& forall|j: int| 0 <= j < i ==> !pred(s[j])
        },
        find_first(s, pred) == (if find_first_idx(s, pred) == -1 {
            None::<T>
        } else {
            Some(s[find_first_idx(s, pred)])
        }),
    decreases s.len(),
{
    if s.len() == 0 {
    } else if pred(s[0]) {
    } else {
        let t = s.drop_first();
        lemma_find_first_spec(t, pred);
        assert(forall|j: int| 0 <= j < t.len() ==> t[j] == s[j + 1]);
        let it = find_first_idx(t, pred);
        if it == -1 {
            assert forall|j: int| 0 <= j < s.len() implies !pred(s[j]) by {
                if j > 0 {
                    assert(t[j - 1] == s[j]);
                }
            }
        } else {
            assert(find_first_idx(s, pred) == it + 1);
            assert(s[it + 1] == t[it]);
            assert forall|j: int| 0 <= j < it + 1 implies !pred(s[j]) by {
                if j > 0 {
                    assert(t[j - 1] == s[j]);
                }
            }
        }
    }
}

/// The converse direction: an index that matches, below which nothing
/// matches, is exactly what `find_first_idx` returns.
pub proof fn lemma_find_first_idx_at<T>(s: Seq<T>, pred: spec_fn(T) -> bool, i: int)
    requires
        0 <= i < s.len(),
        pred(s[i]),
        forall|j: int| 0 <= j < i ==> !pred(s[j]),
    ensures
        find_first_idx(s, pred) == i,
        find_first(s, pred) == Some(s[i]),
    decreases s.len(),
{
    if i == 0 {
    } else {
        assert(!pred(s[0]));
        assert(forall|j: int| 0 <= j < s.drop_first().len() ==> s.drop_first()[j] == s[j + 1]);
        lemma_find_first_idx_at(s.drop_first(), pred, i - 1);
    }
}

/// Replacing the first match with another matching element leaves it the
/// first match: lookups after an id-preserving update resolve to the new
/// record.
pub proof fn lemma_find_first_after_update<T>(s: Seq<T>, pred: spec_fn(T) -> bool, x: T)
    requires
        find_first_idx(s, pred) != -1,
        pred(x),
    ensures
        find_first_idx(s.update(find_first_idx(s, pred), x), pred) == find_first_idx(s, pred),
        find_first(s.update(find_first_idx(s, pred), x), pred) == Some(x),
{
    let i = find_first_idx(s, pred);
    lemma_find_first_spec(s, pred);
    let u = s.update(i, x);
    assert(forall|j: int| 0 <= j < i ==> u[j] == s[j]);
    lemma_find_first_idx_at(u, pred, i);
}

/// If nothing matches, the search comes back empty.
pub proof fn lemma_find_first_none<T>(s: Seq<T>, pred: spec_fn(T) -> bool)
    requires
        forall|j: int| 0 <= j < s.len() ==> !pred(s[j]),
    ensures
        find_first_idx(s, pred) == -1,
        find_first(s, pred) is None,
    decreases s.len(),
{
    if s.len() == 0 {
    } else {
        assert(forall|j: int| 0 <= j < s.drop_first().len() ==> s.drop_first()[j] == s[j + 1]);
        lemma_find_first_none(s.drop_first(), pred);
    }
}

/// The user whose id is `id`, if any.
pub open spec fn user_by_id(users: Seq<UserView>, id: Seq<char>) -> Option<UserView> {
    find_first(users, |u: UserView| u.id == id)
}

/// The index of the user whose id is `id`, or `-1`.
pub open spec fn user_idx(users: Seq<UserView>, id: Seq<char>) -> int {
    find_first_idx(users, |u: UserView| u.id == id)
}

/// The user whose username is `username`, if any.
pub open spec fn user_by_username(users: Seq<UserView>, username: Seq<char>) -> Option<UserView> {
    find_first(users, |u: UserView| u.username == username)
}

/// The category whose id is `id`, if any.
pub open spec fn category_by_id(categories: Seq<CategoryView>, id: Seq<char>) -> Option<
    CategoryView,
> {
    find_first(categories, |c: CategoryView| c.id == id)
}

/// The index of the category whose id is `id`, or `-1`.
pub open spec fn category_idx(categories: Seq<CategoryView>, id: Seq<char>) -> int {
    find_first_idx(categories, |c: CategoryView| c.id == id)
}

/// The post whose id is `id`, if any.
pub open spec fn post_by_id(posts: Seq<PostView>, id: Seq<char>) -> Option<PostView> {
    find_first(posts, |p: PostView| p.id == id)
}

/// The index of the post whose id is `id`, or `-1`.
pub open spec fn post_idx(posts: Seq<PostView>, id: Seq<char>) -> int {
    find_first_idx(posts, |p: PostView| p.id == id)
}

/// The reply whose id is `id`, if any.
pub open spec fn reply_by_id(replies: Seq<ReplyView>, id: Seq<char>) -> Option<ReplyView> {
    find_first(replies, |r: ReplyView| r.id == id)
}

/// The index of the reply whose id is `id`, or `-1`.
pub open spec fn reply_idx(replies: Seq<ReplyView>, id: Seq<char>) -> int {
    find_first_idx(replies, |r: ReplyView| r.id == id)
}

/// The attachment whose id is `id`, if any.
pub open spec fn attachment_by_id(attachments: Seq<AttachmentView>, id: Seq<char>) -> Option<
    AttachmentView,
> {
    find_first(attachments, |a: AttachmentView| a.id == id)
}

/// The abstract contents of the store.
pub ghost struct StoreView {
    pub users: Seq<UserView>,
    pub categories: Seq<CategoryView>,
    pub posts: Seq<PostView>,
    pub replies: Seq<ReplyView>,
    pub attachments: Seq<AttachmentView>,
}

impl StoreView {
    /// The store invariant: within each collection ids are pairwise
    /// distinct, and usernames are unique among users.
    pub open spec fn wf(self) -> bool {
        &&& forall|i: int, j: int|
            0 <= i < j < self.users.len() ==> self.users[i].id != self.users[j].id
        &&& forall|i: int, j: int|
            0 <= i < j < self.users.len() ==> self.users[i].username != self.users[j].username
        &&& forall|i: int, j: int|
            0 <= i < j < self.categories.len() ==> self.categories[i].id != self.categories[j].id
        &&& forall|i: int, j: int|
            0 <= i < j < self.posts.len() ==> self.posts[i].id != self.posts[j].id
        &&& forall|i: int, j: int|
            0 <= i < j < self.replies.len() ==> self.replies[i].id != self.replies[j].id
        &&& forall|i: int, j: int|
            0 <= i < j < self.attachments.len() ==> self.attachments[i].id
                != self.attachments[j].id
    }
}

/// Opaque failure of the persistence layer: an id or username collision on
/// creation. Never carries internals outward.
#[derive(Clone, Copy, PartialEq, Eq, Structural, Debug)]
pub struct StorageError;

/// A request to create a user record.
pub struct CreateUser {
    pub username: Name,
    pub nickname: Option<Name>,
    pub password: HashedPassword,
    pub permission: Permission,
    pub avatar_id: Option<Id>,
}

/// A complete replacement record for a user edit; the username and the
/// creation date of the stored record are kept.
pub struct EditUser {
    pub id: Id,
    pub nickname: Option<Name>,
    pub password: HashedPassword,
    pub permission: Permission,
    pub avatar_id: Option<Id>,
    pub deleted: bool,
}

/// A request to create a category.
pub struct CreateCategory {
    pub title: Title,
    pub minimum_write_permission: Permission,
    pub minimum_read_permission: Permission,
}

/// A complete replacement record for a category edit.
pub struct EditCategory {
    pub id: Id,
    pub title: Title,
    pub minimum_write_permission: Permission,
    pub minimum_read_permission: Permission,
    pub deleted: bool,
}

/// A request to create a post.
pub struct CreatePost {
    pub category_id: Id,
    pub title: Title,
    pub content: Content,
    pub creator_id: Id,
}

/// A complete replacement record for a post edit; the creator and the
/// creation date of the stored record are kept.
pub struct EditPost {
    pub id: Id,
    pub category_id: Id,
    pub title: Title,
    pub content: Content,
    pub deleted: bool,
    pub locked: bool,
}

/// A request to create a reply.
pub struct CreateReply {
    pub creator_id: Id,
    pub post_id: Id,
    pub content: Content,
}

/// A complete replacement record for a reply edit.
pub struct EditReply {
    pub id: Id,
    pub content: Content,
    pub deleted: bool,
}

/// A request to record an uploaded attachment. The bytes themselves are
/// persisted by the caller; the store only records where they went.
pub struct CreateAttachment {
    pub creator_id: Id,
    pub file_name: String,
}

/// The in-memory entity store.
pub struct Store {
    users: Vec<User>,
    categories: Vec<Category>,
    posts: Vec<Post>,
    replies: Vec<Reply>,
    attachments: Vec<Attachment>,
}

impl View for Store {
    type V = StoreView;

    closed spec fn view(&self) -> StoreView {
        StoreView {
            users: self.users.deep_view(),
            categories: self.categories.deep_view(),
            posts: self.posts.deep_view(),
            replies: self.replies.deep_view(),
            attachments: self.attachments.deep_view(),
        }
    }
}

impl Store {
    /// The store invariant, lifted to the concrete type.
    pub open spec fn wf(&self) -> bool {
        self@.wf()
    }

    /// An empty store.
    pub fn new() -> (r: Store)
        ensures
            r.wf(),
            r@.users.len() == 0,
            r@.categories.len() == 0,
            r@.posts.len() == 0,
            r@.replies.len() == 0,
            r@.attachments.len() == 0,
    {
        Store {
            users: Vec::new(),
            categories: Vec::new(),
            posts: Vec::new(),
            replies: Vec::new(),
            attachments: Vec::new(),
        }
    }

    /// How many user records the store holds, tombstoned ones included.
    pub fn user_count(&self) -> (n: usize)
        ensures
            n == self@.users.len(),
    {
        self.users.len()
    }

    #[verifier::loop_isolation(false)]
    fn user_index(&self, id: &Id) -> (r: Option<usize>)
        ensures
            match r {
                Some(i) => i < self@.users.len() && user_idx(self@.users, id@) == i as int,
                None => user_idx(self@.users, id@) == -1,
            },
    {
        let ghost pred = |u: UserView| u.id == id@;
        let n = self.users.len();
        for i in 0..n
            invariant
                n == self.users.len(),
                forall|j: int| 0 <= j < i ==> !pred(#[trigger] self@.users[j]),
        {
            if self.users[i].id == *id {
                proof {
                    lemma_find_first_idx_at(self@.users, pred, i as int);
                }
                return Some(i);
            }
        }
        proof {
            lemma_find_first_none(self@.users, pred);
        }
        None
    }

    #[verifier::loop_isolation(false)]
    fn user_index_by_username(&self, username: &Name) -> (r: Option<usize>)
        ensures
            match r {
                Some(i) => i < self@.users.len() && find_first_idx(
                    self@.users,
                    |u: UserView| u.username == username@,
                ) == i as int,
                None => find_first_idx(self@.users, |u: UserView| u.username == username@) == -1,
            },
    {
        let ghost pred = |u: UserView| u.username == username@;
        let n = self.users.len();
        for i in 0..n
            invariant
                n == self.users.len(),
                forall|j: int| 0 <= j < i ==> !pred(#[trigger] self@.users[j]),
        {
            if self.users[i].username == *username {
                proof {
                    lemma_find_first_idx_at(self@.users, pred, i as int);
                }
                return Some(i);
            }
        }
        proof {
            lemma_find_first_none(self@.users, pred);
        }
        None
    }

    /// The stored user with the given id, or `None`.
    pub fn user_from_id(&self, id: &Id) -> (r: Option<&User>)
        ensures
            match r {
                Some(u) => user_by_id(self@.users, id@) == Some(u@),
                None => user_by_id(self@.users, id@) is None,
            },
    {
        proof {
            lemma_find_first_spec(self@.users, |u: UserView| u.id == id@);
        }
        match self.user_index(id) {
            Some(i) => Some(&self.users[i]),
            None => None,
        }
    }

    /// The stored user with the given username, or `None`.
    pub fn user_from_username(&self, username: &Name) -> (r: Option<&User>)
        ensures
            match r {
                Some(u) => user_by_username(self@.users, username@) == Some(u@),
                None => user_by_username(self@.users, username@) is None,
            },
    {
        proof {
            lemma_find_first_spec(self@.users, |u: UserView| u.username == username@);
        }
        match self.user_index_by_username(username) {
            Some(i) => Some(&self.users[i]),
            None => None,
        }
    }

    /// Creates a user record under the given fresh id, stamped with the
    /// given creation time. Declines an id or username collision, leaving
    /// the store untouched.
    pub fn create_user(&mut self, data: CreateUser, id: Id, now: &str) -> (r: Result<
        Id,
        StorageError,
    >)
        requires
            old(self).wf(),
        ensures
            final(self).wf(),
            r is Ok <==> (user_by_id(old(self)@.users, id@) is None && user_by_username(
                old(self)@.users,
                data.username@,
            ) is None),
            match r {
                Ok(rid) => rid@ == id@ && final(self)@ == (StoreView {
                    users: old(self)@.users.push(
                        UserView {
                            id: id@,
                            username: data.username@,
                            nickname: data.nickname.deep_view(),
                            password: data.password@,
                            permission: data.permission,
                            avatar_id: data.avatar_id.deep_view(),
                            deleted: false,
                            date_created: now@,
                            date_edited: None,
                        },
                    ),
                    ..old(self)@
                }),
                Err(_) => final(self)@ == old(self)@,
            },
    {
        proof {
            lemma_find_first_spec(self@.users, |u: UserView| u.id == id@);
            lemma_find_first_spec(self@.users, |u: UserView| u.username == data.username@);
        }
        if self.user_index(&id).is_some() {
            return Err(StorageError);
        }
        if self.user_index_by_username(&data.username).is_some() {
            return Err(StorageError);
        }
        let ghost nv = UserView {
            id: id@,
            username: data.username@,
            nickname: data.nickname.deep_view(),
            password: data.password@,
            permission: data.permission,
            avatar_id: data.avatar_id.deep_view(),
            deleted: false,
            date_created: now@,
            date_edited: None,
        };
        let user = User {
            id: id.clone(),
            username: data.username,
            nickname: data.nickname,
            password: data.password,
            permission: data.permission,
            avatar_id: data.avatar_id,
            deleted: false,
            date_created: now.to_owned(),
            date_edited: None,
        };
        assert(user@ == nv);
        self.users.push(user);
        proof {
            assert(self@.users =~= old(self)@.users.push(nv));
            assert(self@ == (StoreView { users: self@.users, ..old(self)@ }));
            let nu = self@.users;
            let ou = old(self)@.users;
            assert forall|i: int, j: int| 0 <= i < j < nu.len() implies nu[i].id != nu[j].id by {
                if j < ou.len() {
                } else {
                    assert(nu[i] == ou[i]);
                    assert(nu[j] == nv);
                }
            }
            assert forall|i: int, j: int|
                0 <= i < j < nu.len() implies nu[i].username != nu[j].username by {
                if j < ou.len() {
                } else {
                    assert(nu[i] == ou[i]);
                    assert(nu[j] == nv);
                }
            }
        }
        Ok(id)
    }

    /// Replaces the stored user record with the given id, keeping its
    /// username and creation date and stamping the edit time. Editing an
    /// id with no record is a no-op, as an update of a missing row would
    /// be.
    pub fn edit_user(&mut self, data: EditUser, now: &str) -> (r: Result<(), StorageError>)
        requires
            old(self).wf(),
        ensures
            final(self).wf(),
            r is Ok,
            ({
                let i = user_idx(old(self)@.users, data.id@);
                if i == -1 {
                    final(self)@ == old(self)@
                } else {
                    final(self)@ == (StoreView {
                        users: old(self)@.users.update(
                            i,
                            UserView {
                                id: old(self)@.users[i].id,
                                username: old(self)@.users[i].username,
                                nickname: data.nickname.deep_view(),
                                password: data.password@,
                                permission: data.permission,
                                avatar_id: data.avatar_id.deep_view(),
                                deleted: data.deleted,
                                date_created: old(self)@.users[i].date_created,
                                date_edited: Some(now@),
                            },
                        ),
                        ..old(self)@
                    })
                }
            }),
    {
        match self.user_index(&data.id) {
            None => Ok(()),
            Some(i) => {
                let stored = &self.users[i];
                let merged = User {
                    id: stored.id.clone(),
                    username: stored.username.clone(),
                    nickname: data.nickname,
                    password: data.password,
                    permission: data.permission,
                    avatar_id: data.avatar_id,
                    deleted: data.deleted,
                    date_created: stored.date_created.clone(),
                    date_edited: Some(now.to_owned()),
                };
                let ghost nv = merged@;
                self.users.set(i, merged);
                proof {
                    assert(self@.users =~= old(self)@.users.update(i as int, nv));
                    assert(self@ == (StoreView { users: self@.users, ..old(self)@ }));
                    let nu = self@.users;
                    let ou = old(self)@.users;
                    assert(forall|k: int| 0 <= k < nu.len() ==> nu[k].id == ou[k].id);
                    assert(forall|k: int|
                        0 <= k < nu.len() ==> nu[k].username == ou[k].username);
                }
                Ok(())
            },
        }
    }

    #[verifier::loop_isolation(false)]
    fn category_index(&self, id: &Id) -> (r: Option<usize>)
        ensures
            match r {
                Some(i) => i < self@.categories.len() && category_idx(self@.categories, id@)
                    == i as int,
                None => category_idx(self@.categories, id@) == -1,
            },
    {
        let ghost pred = |c: CategoryView| c.id == id@;
        let n = self.categories.len();
        for i in 0..n
            invariant
                n == self.categories.len(),
                forall|j: int| 0 <= j < i ==> !pred(#[trigger] self@.categories[j]),
        {
            if self.categories[i].id == *id {
                proof {
                    lemma_find_first_idx_at(self@.categories, pred, i as int);
                }
                return Some(i);
            }
        }
        proof {
            lemma_find_first_none(self@.categories, pred);
        }
        None
    }

    /// The stored category with the given id, or `None`.
    pub fn category_from_id(&self, id: &Id) -> (r: Option<&Category>)
        ensures
            match r {
                Some(c) => category_by_id(self@.categories, id@) == Some(c@),
                None => category_by_id(self@.categories, id@) is None,
            },
    {
        proof {
            lemma_find_first_spec(self@.categories, |c: CategoryView| c.id == id@);
        }
        match self.category_index(id) {
            Some(i) => Some(&self.categories[i]),
            None => None,
        }
    }

    /// Every stored category, in insertion order.
    #[verifier::loop_isolation(false)]
    pub fn all_categories(&self) -> (r: Vec<Category>)
        ensures
            r.deep_view() == self@.categories,
    {
        let mut out: Vec<Category> = Vec::new();
        let n = self.categories.len();
        assert(out.deep_view() =~= self@.categories.subrange(0, 0));
        for i in 0..n
            invariant
                n == self.categories.len(),
                out.deep_view() == self@.categories.subrange(0, i as int),
        {
            out.push(self.categories[i].clone());
            proof {
                assert(out.deep_view() =~= self@.categories.subrange(0, i as int + 1));
            }
        }
        proof {
            assert(self@.categories.subrange(0, n as int) =~= self@.categories);
        }
        out
    }

    /// Creates a category under the given fresh id. Declines an id
    /// collision, leaving the store untouched.
    pub fn create_category(&mut self, data: CreateCategory, id: Id, now: &str) -> (r: Result<
        Id,
        StorageError,
    >)
        requires
            old(self).wf(),
        ensures
            final(self).wf(),
            r is Ok <==> category_by_id(old(self)@.categories, id@) is None,
            match r {
                Ok(rid) => rid@ == id@ && final(self)@ == (StoreView {
                    categories: old(self)@.categories.push(
                        CategoryView {
                            id: id@,
                            title: data.title@,
                            minimum_write_permission: data.minimum_write_permission,
                            minimum_read_permission: data.minimum_read_permission,
                            deleted: false,
                            date_created: now@,
                            date_edited: None,
                        },
                    ),
                    ..old(self)@
                }),
                Err(_) => final(self)@ == old(self)@,
            },
    {
        proof {
            lemma_find_first_spec(self@.categories, |c: CategoryView| c.id == id@);
        }
        if self.category_index(&id).is_some() {
            return Err(StorageError);
        }
        let ghost nv = CategoryView {
            id: id@,
            title: data.title@,
            minimum_write_permission: data.minimum_write_permission,
            minimum_read_permission: data.minimum_read_permission,
            deleted: false,
            date_created: now@,
            date_edited: None,
        };
        let category = Category {
            id: id.clone(),
            title: data.title,
            minimum_write_permission: data.minimum_write_permission,
            minimum_read_permission: data.minimum_read_permission,
            deleted: false,
            date_created: now.to_owned(),
            date_edited: None,
        };
        assert(category@ == nv);
        self.categories.push(category);
        proof {
            assert(self@.categories =~= old(self)@.categories.push(nv));
            assert(self@ == (StoreView { categories: self@.categories, ..old(self)@ }));
            let nc = self@.categories;
            let oc = old(self)@.categories;
            assert forall|i: int, j: int| 0 <= i < j < nc.len() implies nc[i].id != nc[j].id by {
                if j < oc.len() {
                } else {
                    assert(nc[i] == oc[i]);
                    assert(nc[j] == nv);
                }
            }
        }
        Ok(id)
    }

    /// Replaces the stored category record with the given id, keeping its
    /// creation date and stamping the edit time. Editing an id with no
    /// record is a no-op.
    pub fn edit_category(&mut self, data: EditCategory, now: &str) -> (r: Result<
        (),
        StorageError,
    >)
        requires
            old(self).wf(),
        ensures
            final(self).wf(),
            r is Ok,
            ({
                let i = category_idx(old(self)@.categories, data.id@);
                if i == -1 {
                    final(self)@ == old(self)@
                } else {
                    final(self)@ == (StoreView {
                        categories: old(self)@.categories.update(
                            i,
                            CategoryView {
                                id: old(self)@.categories[i].id,
                                title: data.title@,
                                minimum_write_permission: data.minimum_write_permission,
                                minimum_read_permission: data.minimum_read_permission,
                                deleted: data.deleted,
                                date_created: old(self)@.categories[i].date_created,
                                date_edited: Some(now@),
                            },
                        ),
                        ..old(self)@
                    })
                }
            }),
    {
        match self.category_index(&data.id) {
            None => Ok(()),
            Some(i) => {
                let stored = &self.categories[i];
                let merged = Category {
                    id: stored.id.clone(),
                    title: data.title,
                    minimum_write_permission: data.minimum_write_permission,
                    minimum_read_permission: data.minimum_read_permission,
                    deleted: data.deleted,
                    date_created: stored.date_created.clone(),
                    date_edited: Some(now.to_owned()),
                };
                let ghost nv = merged@;
                self.categories.set(i, merged);
                proof {
                    assert(self@.categories =~= old(self)@.categories.update(i as int, nv));
                    assert(self@ == (StoreView { categories: self@.categories, ..old(self)@ }));
                    let nc = self@.categories;
                    let oc = old(self)@.categories;
                    assert(forall|k: int| 0 <= k < nc.len() ==> nc[k].id == oc[k].id);
                }
                Ok(())
            },
        }
    }

    #[verifier::loop_isolation(false)]
    fn post_index(&self, id: &Id) -> (r: Option<usize>)
        ensures
            match r {
                Some(i) => i < self@.posts.len() && post_idx(self@.posts, id@) == i as int,
                None => post_idx(self@.posts, id@) == -1,
            },
    {
        let ghost pred = |p: PostView| p.id == id@;
        let n = self.posts.len();
        for i in 0..n
            invariant
                n == self.posts.len(),
                forall|j: int| 0 <= j < i ==> !pred(#[trigger] self@.posts[j]),
        {
            if self.posts[i].id == *id {
                proof {
                    lemma_find_first_idx_at(self@.posts, pred, i as int);
                }
                return Some(i);
            }
        }
        proof {
            lemma_find_first_none(self@.posts, pred);
        }
        None
    }

    /// The stored post with the given id, or `None`.
    pub fn post_from_id(&self, id: &Id) -> (r: Option<&Post>)
        ensures
            match r {
                Some(p) => post_by_id(self@.posts, id@) == Some(p@),
                None => post_by_id(self@.posts, id@) is None,
            },
    {
        proof {
            lemma_find_first_spec(self@.posts, |p: PostView| p.id == id@);
        }
        match self.post_index(id) {
            Some(i) => Some(&self.posts[i]),
            None => None,
        }
    }

    /// Every post filed under the given category, in insertion order,
    /// tombstoned posts included.
    #[verifier::loop_isolation(false)]
    pub fn posts_from_category(&self, id: &Id) -> (r: Vec<Post>)
        ensures
            r.deep_view() == self@.posts.filter(|p: PostView| p.category_id == id@),
    {
        let ghost pred = |p: PostView| p.category_id == id@;
        let mut out: Vec<Post> = Vec::new();
        let n = self.posts.len();
        proof {
            reveal(Seq::filter);
            assert(out.deep_view() =~= self@.posts.subrange(0, 0).filter(pred));
        }
        for i in 0..n
            invariant
                n == self.posts.len(),
                out.deep_view() == self@.posts.subrange(0, i as int).filter(pred),
        {
            proof {
                let prefix = self@.posts.subrange(0, i as int);
                assert(self@.posts.subrange(0, i as int + 1) =~= prefix.push(
                    self@.posts[i as int],
                ));
                prefix.lemma_filter_push(self@.posts[i as int], pred);
            }
            if self.posts[i].category_id == *id {
                out.push(self.posts[i].clone());
                proof {
                    assert(out.deep_view() =~= self@.posts.subrange(0, i as int + 1).filter(
                        pred,
                    ));
                }
            }
        }
        proof {
            assert(self@.posts.subrange(0, n as int) =~= self@.posts);
        }
        out
    }

    /// Creates a post under the given fresh id: born unlocked and not
    /// deleted. Declines an id collision, leaving the store untouched.
    pub fn create_post(&mut self, data: CreatePost, id: Id, now: &str) -> (r: Result<
        Id,
        StorageError,
    >)
        requires
            old(self).wf(),
        ensures
            final(self).wf(),
            r is Ok <==> post_by_id(old(self)@.posts, id@) is None,
            match r {
                Ok(rid) => rid@ == id@ && final(self)@ == (StoreView {
                    posts: old(self)@.posts.push(
                        PostView {
                            id: id@,
                            category_id: data.category_id@,
                            title: data.title@,
                            content: data.content@,
                            creator_id: data.creator_id@,
                            deleted: false,
                            locked: false,
                            date_created: now@,
                            date_edited: None,
                        },
                    ),
                    ..old(self)@
                }),
                Err(_) => final(self)@ == old(self)@,
            },
    {
        proof {
            lemma_find_first_spec(self@.posts, |p: PostView| p.id == id@);
        }
        if self.post_index(&id).is_some() {
            return Err(StorageError);
        }
        let ghost nv = PostView {
            id: id@,
            category_id: data.category_id@,
            title: data.title@,
            content: data.content@,
            creator_id: data.creator_id@,
            deleted: false,
            locked: false,
            date_created: now@,
            date_edited: None,
        };
        let post = Post {
            id: id.clone(),
            category_id: data.category_id,
            title: data.title,
            content: data.content,
            creator_id: data.creator_id,
            deleted: false,
            locked: false,
            date_created: now.to_owned(),
            date_edited: None,
        };
        assert(post@ == nv);
        self.posts.push(post);
        proof {
            assert(self@.posts =~= old(self)@.posts.push(nv));
            assert(self@ == (StoreView { posts: self@.posts, ..old(self)@ }));
            let np = self@.posts;
            let op = old(self)@.posts;
            assert forall|i: int, j: int| 0 <= i < j < np.len() implies np[i].id != np[j].id by {
                if j < op.len() {
                } else {
                    assert(np[i] == op[i]);
                    assert(np[j] == nv);
                }
            }
        }
        Ok(id)
    }

    /// Replaces the stored post record with the given id, keeping its
    /// creator and creation date and stamping the edit time. Editing an id
    /// with no record is a no-op.
    pub fn edit_post(&mut self, data: EditPost, now: &str) -> (r: Result<(), StorageError>)
        requires
            old(self).wf(),
        ensures
            final(self).wf(),
            r is Ok,
            ({
                let i = post_idx(old(self)@.posts, data.id@);
                if i == -1 {
                    final(self)@ == old(self)@
                } else {
                    final(self)@ == (StoreView {
                        posts: old(self)@.posts.update(
                            i,
                            PostView {
                                id: old(self)@.posts[i].id,
                                category_id: data.category_id@,
                                title: data.title@,
                                content: data.content@,
                                creator_id: old(self)@.posts[i].creator_id,
                                deleted: data.deleted,
                                locked: data.locked,
                                date_created: old(self)@.posts[i].date_created,
                                date_edited: Some(now@),
                            },
                        ),
                        ..old(self)@
                    })
                }
            }),
    {
        match self.post_index(&data.id) {
            None => Ok(()),
            Some(i) => {
                let stored = &self.posts[i];
                let merged = Post {
                    id: stored.id.clone(),
                    category_id: data.category_id,
                    title: data.title,
                    content: data.content,
                    creator_id: stored.creator_id.clone(),
                    deleted: data.deleted,
                    locked: data.locked,
                    date_created: stored.date_created.clone(),
                    date_edited: Some(now.to_owned()),
                };
                let ghost nv = merged@;
                self.posts.set(i, merged);
                proof {
                    assert(self@.posts =~= old(self)@.posts.update(i as int, nv));
                    assert(self@ == (StoreView { posts: self@.posts, ..old(self)@ }));
                    let np = self@.posts;
                    let op = old(self)@.posts;
                    assert(forall|k: int| 0 <= k < np.len() ==> np[k].id == op[k].id);
                }
                Ok(())
            },
        }
    }

    #[verifier::loop_isolation(false)]
    fn reply_index(&self, id: &Id) -> (r: Option<usize>)
        ensures
            match r {
                Some(i) => i < self@.replies.len() && reply_idx(self@.replies, id@) == i as int,
                None => reply_idx(self@.replies, id@) == -1,
            },
    {
        let ghost pred = |rv: ReplyView| rv.id == id@;
        let n = self.replies.len();
        for i in 0..n
            invariant
                n == self.replies.len(),
                forall|j: int| 0 <= j < i ==> !pred(#[trigger] self@.replies[j]),
        {
            if self.replies[i].id == *id {
                proof {
                    lemma_find_first_idx_at(self@.replies, pred, i as int);
                }
                return Some(i);
            }
        }
        proof {
            lemma_find_first_none(self@.replies, pred);
        }
        None
    }

    /// The stored reply with the given id, or `None`.
    pub fn reply_from_id(&self, id: &Id) -> (r: Option<&Reply>)
        ensures
            match r {
                Some(rep) => reply_by_id(self@.replies, id@) == Some(rep@),
                None => reply_by_id(self@.replies, id@) is None,
            },
    {
        proof {
            lemma_find_first_spec(self@.replies, |rv: ReplyView| rv.id == id@);
        }
        match self.reply_index(id) {
            Some(i) => Some(&self.replies[i]),
            None => None,
        }
    }

    /// Every reply under the given post, in insertion order, tombstoned
    /// replies included.
    #[verifier::loop_isolation(false)]
    pub fn replies_from_post(&self, id: &Id) -> (r: Vec<Reply>)
        ensures
            r.deep_view() == self@.replies.filter(|rv: ReplyView| rv.post_id == id@),
    {
        let ghost pred = |rv: ReplyView| rv.post_id == id@;
        let mut out: Vec<Reply> = Vec::new();
        let n = self.replies.len();
        proof {
            reveal(Seq::filter);
            assert(out.deep_view() =~= self@.replies.subrange(0, 0).filter(pred));
        }
        for i in 0..n
            invariant
                n == self.replies.len(),
                out.deep_view() == self@.replies.subrange(0, i as int).filter(pred),
        {
            proof {
                let prefix = self@.replies.subrange(0, i as int);
                assert(self@.replies.subrange(0, i as int + 1) =~= prefix.push(
                    self@.replies[i as int],
                ));
                prefix.lemma_filter_push(self@.replies[i as int], pred);
            }
            if self.replies[i].post_id == *id {
                out.push(self.replies[i].clone());
                proof {
                    assert(out.deep_view() =~= self@.replies.subrange(0, i as int + 1).filter(
                        pred,
                    ));
                }
            }
        }
        proof {
            assert(self@.replies.subrange(0, n as int) =~= self@.replies);
        }
        out
    }

    /// Creates a reply under the given fresh id. Declines an id collision,
    /// leaving the store untouched.
    pub fn create_reply(&mut self, data: CreateReply, id: Id, now: &str) -> (r: Result<
        Id,
        StorageError,
    >)
        requires
            old(self).wf(),
        ensures
            final(self).wf(),
            r is Ok <==> reply_by_id(old(self)@.replies, id@) is None,
            match r {
                Ok(rid) => rid@ == id@ && final(self)@ == (StoreView {
                    replies: old(self)@.replies.push(
                        ReplyView {
                            id: id@,
                            creator_id: data.creator_id@,
                            post_id: data.post_id@,
                            content: data.content@,
                            deleted: false,
                            date_created: now@,
                            date_edited: None,
                        },
                    ),
                    ..old(self)@
                }),
                Err(_) => final(self)@ == old(self)@,
            },
    {
        proof {
            lemma_find_first_spec(self@.replies, |rv: ReplyView| rv.id == id@);
        }
        if self.reply_index(&id).is_some() {
            return Err(StorageError);
        }
        let ghost nv = ReplyView {
            id: id@,
            creator_id: data.creator_id@,
            post_id: data.post_id@,
            content: data.content@,
            deleted: false,
            date_created: now@,
            date_edited: None,
        };
        let reply = Reply {
            id: id.clone(),
            creator_id: data.creator_id,
            post_id: data.post_id,
            content: data.content,
            deleted: false,
            date_created: now.to_owned(),
            date_edited: None,
        };
        assert(reply@ == nv);
        self.replies.push(reply);
        proof {
            assert(self@.replies =~= old(self)@.replies.push(nv));
            assert(self@ == (StoreView { replies: self@.replies, ..old(self)@ }));
            let nr = self@.replies;
            let orp = old(self)@.replies;
            assert forall|i: int, j: int| 0 <= i < j < nr.len() implies nr[i].id != nr[j].id by {
                if j < orp.len() {
                } else {
                    assert(nr[i] == orp[i]);
                    assert(nr[j] == nv);
                }
            }
        }
        Ok(id)
    }

    /// Replaces the stored reply record with the given id, keeping its
    /// creator, post and creation date and stamping the edit time. Editing
    /// an id with no record is a no-op.
    pub fn edit_reply(&mut self, data: EditReply, now: &str) -> (r: Result<(), StorageError>)
        requires
            old(self).wf(),
        ensures
            final(self).wf(),
            r is Ok,
            ({
                let i = reply_idx(old(self)@.replies, data.id@);
                if i == -1 {
                    final(self)@ == old(self)@
                } else {
                    final(self)@ == (StoreView {
                        replies: old(self)@.replies.update(
                            i,
                            ReplyView {
                                id: old(self)@.replies[i].id,
                                creator_id: old(self)@.replies[i].creator_id,
                                post_id: old(self)@.replies[i].post_id,
                                content: data.content@,
                                deleted: data.deleted,
                                date_created: old(self)@.replies[i].date_created,
                                date_edited: Some(now@),
                            },
                        ),
                        ..old(self)@
                    })
                }
            }),
    {
        match self.reply_index(&data.id) {
            None => Ok(()),
            Some(i) => {
                let stored = &self.replies[i];
                let merged = Reply {
                    id: stored.id.clone(),
                    creator_id: stored.creator_id.clone(),
                    post_id: stored.post_id.clone(),
                    content: data.content,
                    deleted: data.deleted,
                    date_created: stored.date_created.clone(),
                    date_edited: Some(now.to_owned()),
                };
                let ghost nv = merged@;
                self.replies.set(i, merged);
                proof {
                    assert(self@.replies =~= old(self)@.replies.update(i as int, nv));
                    assert(self@ == (StoreView { replies: self@.replies, ..old(self)@ }));
                    let nr = self@.replies;
                    let orp = old(self)@.replies;
                    assert(forall|k: int| 0 <= k < nr.len() ==> nr[k].id == orp[k].id);
                }
                Ok(())
            },
        }
    }

    #[verifier::loop_isolation(false)]
    fn attachment_index(&self, id: &Id) -> (r: Option<usize>)
        ensures
            match r {
                Some(i) => i < self@.attachments.len() && find_first_idx(
                    self@.attachments,
                    |a: AttachmentView| a.id == id@,
                ) == i as int,
                None => find_first_idx(self@.attachments, |a: AttachmentView| a.id == id@)
                    == -1,
            },
    {
        let ghost pred = |a: AttachmentView| a.id == id@;
        let n = self.attachments.len();
        for i in 0..n
            invariant
                n == self.attachments.len(),
                forall|j: int| 0 <= j < i ==> !pred(#[trigger] self@.attachments[j]),
        {
            if self.attachments[i].id == *id {
                proof {
                    lemma_find_first_idx_at(self@.attachments, pred, i as int);
                }
                return Some(i);
            }
        }
        proof {
            lemma_find_first_none(self@.attachments, pred);
        }
        None
    }

    /// The stored attachment with the given id, or `None`.
    pub fn attachment_from_id(&self, id: &Id) -> (r: Option<&Attachment>)
        ensures
            match r {
                Some(a) => attachment_by_id(self@.attachments, id@) == Some(a@),
                None => attachment_by_id(self@.attachments, id@) is None,
            },
    {
        proof {
            lemma_find_first_spec(self@.attachments, |a: AttachmentView| a.id == id@);
        }
        match self.attachment_index(id) {
            Some(i) => Some(&self.attachments[i]),
            None => None,
        }
    }

    /// Records an uploaded attachment under the given fresh id. The stored
    /// path is `files_uploaded/{creator}/{attachment}/{file name}`; the
    /// caller is responsible for having put the bytes there. Declines an
    /// id collision, leaving the store untouched.
    pub fn create_attachment(&mut self, data: CreateAttachment, id: Id, now: &str) -> (r: Result<
        Id,
        StorageError,
    >)
        requires
            old(self).wf(),
        ensures
            final(self).wf(),
            r is Ok <==> attachment_by_id(old(self)@.attachments, id@) is None,
            match r {
                Ok(rid) => rid@ == id@ && final(self)@ == (StoreView {
                    attachments: old(self)@.attachments.push(
                        AttachmentView {
                            id: id@,
                            path: "files_uploaded/"@ + data.creator_id@ + "/"@ + id@ + "/"@
                                + data.file_name@,
                            creator_id: data.creator_id@,
                            date_created: now@,
                        },
                    ),
                    ..old(self)@
                }),
                Err(_) => final(self)@ == old(self)@,
            },
    {
        proof {
            lemma_find_first_spec(self@.attachments, |a: AttachmentView| a.id == id@);
        }
        if self.attachment_index(&id).is_some() {
            return Err(StorageError);
        }
        let path = "files_uploaded/".to_owned().concat(data.creator_id.as_str()).concat(
            "/",
        ).concat(id.as_str()).concat("/").concat(data.file_name.as_str());
        let ghost nv = AttachmentView {
            id: id@,
            path: path@,
            creator_id: data.creator_id@,
            date_created: now@,
        };
        let attachment = Attachment {
            id: id.clone(),
            path,
            creator_id: data.creator_id,
            date_created: now.to_owned(),
        };
        assert(attachment@ == nv);
        self.attachments.push(attachment);
        proof {
            assert(self@.attachments =~= old(self)@.attachments.push(nv));
            assert(self@ == (StoreView { attachments: self@.attachments, ..old(self)@ }));
            let na = self@.attachments;
            let oa = old(self)@.attachments;
            assert forall|i: int, j: int| 0 <= i < j < na.len() implies na[i].id != na[j].id by {
                if j < oa.len() {
                } else {
                    assert(na[i] == oa[i]);
                    assert(na[j] == nv);
                }
            }
        }
        Ok(id)
    }
}


} // verus!
