//! The data model: length-validated value types (`Id`, `Name`, `Title`,
//! `Content`) and the entity records (`User`, `Category`, `Post`, `Reply`,
//! `Attachment`).
//!
//! A raw string can never stand in for a validated field: each value type
//! is constructed only through its checking constructor, or (for `Id`)
//! freshly generated. Every entity has a ghost view holding the same data
//! over `Seq<char>`, which the store and lifecycle contracts speak of.

use vstd::prelude::*;
use vstd::string::StrSliceExecFns;

use crate::password::HashedPassword;
use crate::permission::Permission;

verus! {

/// Returned by a checking constructor whose input violates the length
/// bounds of the value type.
#[derive(Clone, Copy, PartialEq, Eq, Structural, Debug)]
pub struct InvalidLength;

/// A fixed-length opaque identifier: exactly eight characters.
#[derive(Debug)]
pub struct Id {
    text: String,
}

/// A username or nickname: one to thirty-two characters.
#[derive(Debug)]
pub struct Name {
    text: String,
}

/// A category or post title: one to one hundred twenty-eight characters.
#[derive(Debug)]
pub struct Title {
    text: String,
}

/// The body of a post or reply: one to one thousand twenty-four characters.
#[derive(Debug)]
pub struct Content {
    text: String,
}

impl View for Id {
    type V = Seq<char>;

    closed spec fn view(&self) -> Seq<char> {
        self.text@
    }
}

impl DeepView for Id {
    type V = Seq<char>;

    open spec fn deep_view(&self) -> Seq<char> {
        self@
    }
}

impl View for Name {
    type V = Seq<char>;

    closed spec fn view(&self) -> Seq<char> {
        self.text@
    }
}

impl DeepView for Name {
    type V = Seq<char>;

    open spec fn deep_view(&self) -> Seq<char> {
        self@
    }
}

impl View for Title {
    type V = Seq<char>;

    closed spec fn view(&self) -> Seq<char> {
        self.text@
    }
}

impl DeepView for Title {
    type V = Seq<char>;

    open spec fn deep_view(&self) -> Seq<char> {
        self@
    }
}

impl View for Content {
    type V = Seq<char>;

    closed spec fn view(&self) -> Seq<char> {
        self.text@
    }
}

impl DeepView for Content {
    type V = Seq<char>;

    open spec fn deep_view(&self) -> Seq<char> {
        self@
    }
}

/// Relies on `uuid::Uuid::new_v4` together with `Uuid`'s `Display`
/// implementation: the hyphenated form of a version-4 UUID is thirty-six
/// ASCII characters. A failing OS randomness source aborts inside the
/// call: identifier generation has no error path.
#[verifier::external_body]
fn fresh_uuid_text() -> (r: String)
    ensures
        r@.len() == 36,
        vstd::utf8::is_ascii_chars(r@),
{
    uuid::Uuid::new_v4().to_string()
}

impl Id {
    /// The identifier invariant: exactly eight characters.
    pub open spec fn wf(&self) -> bool {
        self@.len() == 8
    }

    /// Generates a fresh random identifier: the first eight characters
    /// of a version-4 UUID.
    pub fn new() -> (r: Id)
        ensures
            r.wf(),
    {
        let uuid_text = fresh_uuid_text();
        let text = uuid_text.as_str().substring_ascii(0, 8).to_owned();
        Id { text }
    }

    /// Validates an incoming string as an identifier.
    pub fn from_text(text: String) -> (r: Result<Id, InvalidLength>)
        ensures
            match r {
                Ok(id) => id@ == text@ && id.wf(),
                Err(_) => text@.len() != 8,
            },
            text@.len() == 8 ==> r is Ok,
    {
        let n = text.as_str().unicode_len();
        if n == 8 {
            Ok(Id { text })
        } else {
            Err(InvalidLength)
        }
    }

    /// The identifier as text.
    pub fn as_str(&self) -> (r: &str)
        ensures
            r@ == self@,
    {
        self.text.as_str()
    }
}

impl Clone for Id {
    fn clone(&self) -> (r: Self)
        ensures
            r == *self,
    {
        Id { text: self.text.clone() }
    }
}

impl PartialEq for Id {
    fn eq(&self, other: &Self) -> (r: bool) {
        self.text == other.text
    }
}

impl vstd::std_specs::cmp::PartialEqSpecImpl for Id {
    open spec fn obeys_eq_spec() -> bool {
        true
    }

    open spec fn eq_spec(&self, other: &Self) -> bool {
        self@ == other@
    }
}

impl Name {
    /// The name invariant: one to thirty-two characters.
    pub open spec fn wf(&self) -> bool {
        1 <= self@.len() <= 32
    }

    /// Validates an incoming string as a name.
    pub fn from_text(text: String) -> (r: Result<Name, InvalidLength>)
        ensures
            match r {
                Ok(name) => name@ == text@ && name.wf(),
                Err(_) => !(1 <= text@.len() <= 32),
            },
            1 <= text@.len() <= 32 ==> r is Ok,
    {
        let n = text.as_str().unicode_len();
        if 1 <= n && n <= 32 {
            Ok(Name { text })
        } else {
            Err(InvalidLength)
        }
    }

    /// The name as text.
    pub fn as_str(&self) -> (r: &str)
        ensures
            r@ == self@,
    {
        self.text.as_str()
    }
}

impl Clone for Name {
    fn clone(&self) -> (r: Self)
        ensures
            r == *self,
    {
        Name { text: self.text.clone() }
    }
}

impl PartialEq for Name {
    fn eq(&self, other: &Self) -> (r: bool) {
        self.text == other.text
    }
}

impl vstd::std_specs::cmp::PartialEqSpecImpl for Name {
    open spec fn obeys_eq_spec() -> bool {
        true
    }

    open spec fn eq_spec(&self, other: &Self) -> bool {
        self@ == other@
    }
}

impl Title {
    /// The title invariant: one to one hundred twenty-eight characters.
    pub open spec fn wf(&self) -> bool {
        1 <= self@.len() <= 128
    }

    /// Validates an incoming string as a title.
    pub fn from_text(text: String) -> (r: Result<Title, InvalidLength>)
        ensures
            match r {
                Ok(title) => title@ == text@ && title.wf(),
                Err(_) => !(1 <= text@.len() <= 128),
            },
            1 <= text@.len() <= 128 ==> r is Ok,
    {
        let n = text.as_str().unicode_len();
        if 1 <= n && n <= 128 {
            Ok(Title { text })
        } else {
            Err(InvalidLength)
        }
    }

    /// The title as text.
    pub fn as_str(&self) -> (r: &str)
        ensures
            r@ == self@,
    {
        self.text.as_str()
    }
}

impl Clone for Title {
    fn clone(&self) -> (r: Self)
        ensures
            r == *self,
    {
        Title { text: self.text.clone() }
    }
}

impl Content {
    /// The content invariant: one to one thousand twenty-four characters.
    pub open spec fn wf(&self) -> bool {
        1 <= self@.len() <= 1024
    }

    /// Validates an incoming string as post or reply content.
    pub fn from_text(text: String) -> (r: Result<Content, InvalidLength>)
        ensures
            match r {
                Ok(content) => content@ == text@ && content.wf(),
                Err(_) => !(1 <= text@.len() <= 1024),
            },
            1 <= text@.len() <= 1024 ==> r is Ok,
    {
        let n = text.as_str().unicode_len();
        if 1 <= n && n <= 1024 {
            Ok(Content { text })
        } else {
            Err(InvalidLength)
        }
    }

    /// The content as text.
    pub fn as_str(&self) -> (r: &str)
        ensures
            r@ == self@,
    {
        self.text.as_str()
    }
}

impl Clone for Content {
    fn clone(&self) -> (r: Self)
        ensures
            r == *self,
    {
        Content { text: self.text.clone() }
    }
}

/// A registered user. Never physically removed: deletion sets the
/// tombstone flag.
#[derive(Debug)]
pub struct User {
    pub id: Id,
    pub username: Name,
    pub nickname: Option<Name>,
    pub password: HashedPassword,
    pub permission: Permission,
    pub avatar_id: Option<Id>,
    pub deleted: bool,
    pub date_created: String,
    pub date_edited: Option<String>,
}

/// The ghost image of a `User`.
pub ghost struct UserView {
    pub id: Seq<char>,
    pub username: Seq<char>,
    pub nickname: Option<Seq<char>>,
    pub password: Seq<char>,
    pub permission: Permission,
    pub avatar_id: Option<Seq<char>>,
    pub deleted: bool,
    pub date_created: Seq<char>,
    pub date_edited: Option<Seq<char>>,
}

impl View for User {
    type V = UserView;

    open spec fn view(&self) -> UserView {
        UserView {
            id: self.id@,
            username: self.username@,
            nickname: self.nickname.deep_view(),
            password: self.password@,
            permission: self.permission,
            avatar_id: self.avatar_id.deep_view(),
            deleted: self.deleted,
            date_created: self.date_created@,
            date_edited: self.date_edited.deep_view(),
        }
    }
}

impl DeepView for User {
    type V = UserView;

    open spec fn deep_view(&self) -> UserView {
        self@
    }
}

impl Clone for User {
    fn clone(&self) -> (r: Self)
        ensures
            r@ == self@,
    {
        User {
            id: self.id.clone(),
            username: self.username.clone(),
            nickname: match &self.nickname {
                Some(n) => Some(n.clone()),
                None => None,
            },
            password: self.password.clone(),
            permission: self.permission,
            avatar_id: match &self.avatar_id {
                Some(a) => Some(a.clone()),
                None => None,
            },
            deleted: self.deleted,
            date_created: self.date_created.clone(),
            date_edited: match &self.date_edited {
                Some(d) => Some(d.clone()),
                None => None,
            },
        }
    }
}

/// A discussion category with its two independent permission thresholds.
#[derive(Debug)]
pub struct Category {
    pub id: Id,
    pub title: Title,
    pub minimum_write_permission: Permission,
    pub minimum_read_permission: Permission,
    pub deleted: bool,
    pub date_created: String,
    pub date_edited: Option<String>,
}

/// The ghost image of a `Category`.
pub ghost struct CategoryView {
    pub id: Seq<char>,
    pub title: Seq<char>,
    pub minimum_write_permission: Permission,
    pub minimum_read_permission: Permission,
    pub deleted: bool,
    pub date_created: Seq<char>,
    pub date_edited: Option<Seq<char>>,
}

impl View for Category {
    type V = CategoryView;

    open spec fn view(&self) -> CategoryView {
        CategoryView {
            id: self.id@,
            title: self.title@,
            minimum_write_permission: self.minimum_write_permission,
            minimum_read_permission: self.minimum_read_permission,
            deleted: self.deleted,
            date_created: self.date_created@,
            date_edited: self.date_edited.deep_view(),
        }
    }
}

impl DeepView for Category {
    type V = CategoryView;

    open spec fn deep_view(&self) -> CategoryView {
        self@
    }
}

impl Clone for Category {
    fn clone(&self) -> (r: Self)
        ensures
            r@ == self@,
    {
        Category {
            id: self.id.clone(),
            title: self.title.clone(),
            minimum_write_permission: self.minimum_write_permission,
            minimum_read_permission: self.minimum_read_permission,
            deleted: self.deleted,
            date_created: self.date_created.clone(),
            date_edited: match &self.date_edited {
                Some(d) => Some(d.clone()),
                None => None,
            },
        }
    }
}

/// A post inside a category. Soft-deletion also locks the post; the lock
/// can additionally be toggled on its own.
#[derive(Debug)]
pub struct Post {
    pub id: Id,
    pub category_id: Id,
    pub title: Title,
    pub content: Content,
    pub creator_id: Id,
    pub deleted: bool,
    pub locked: bool,
    pub date_created: String,
    pub date_edited: Option<String>,
}

/// The ghost image of a `Post`.
pub ghost struct PostView {
    pub id: Seq<char>,
    pub category_id: Seq<char>,
    pub title: Seq<char>,
    pub content: Seq<char>,
    pub creator_id: Seq<char>,
    pub deleted: bool,
    pub locked: bool,
    pub date_created: Seq<char>,
    pub date_edited: Option<Seq<char>>,
}

impl View for Post {
    type V = PostView;

    open spec fn view(&self) -> PostView {
        PostView {
            id: self.id@,
            category_id: self.category_id@,
            title: self.title@,
            content: self.content@,
            creator_id: self.creator_id@,
            deleted: self.deleted,
            locked: self.locked,
            date_created: self.date_created@,
            date_edited: self.date_edited.deep_view(),
        }
    }
}

impl DeepView for Post {
    type V = PostView;

    open spec fn deep_view(&self) -> PostView {
        self@
    }
}

impl Clone for Post {
    fn clone(&self) -> (r: Self)
        ensures
            r@ == self@,
    {
        Post {
            id: self.id.clone(),
            category_id: self.category_id.clone(),
            title: self.title.clone(),
            content: self.content.clone(),
            creator_id: self.creator_id.clone(),
            deleted: self.deleted,
            locked: self.locked,
            date_created: self.date_created.clone(),
            date_edited: match &self.date_edited {
                Some(d) => Some(d.clone()),
                None => None,
            },
        }
    }
}

/// A reply under a post.
#[derive(Debug)]
pub struct Reply {
    pub id: Id,
    pub creator_id: Id,
    pub post_id: Id,
    pub content: Content,
    pub deleted: bool,
    pub date_created: String,
    pub date_edited: Option<String>,
}

/// The ghost image of a `Reply`.
pub ghost struct ReplyView {
    pub id: Seq<char>,
    pub creator_id: Seq<char>,
    pub post_id: Seq<char>,
    pub content: Seq<char>,
    pub deleted: bool,
    pub date_created: Seq<char>,
    pub date_edited: Option<Seq<char>>,
}

impl View for Reply {
    type V = ReplyView;

    open spec fn view(&self) -> ReplyView {
        ReplyView {
            id: self.id@,
            creator_id: self.creator_id@,
            post_id: self.post_id@,
            content: self.content@,
            deleted: self.deleted,
            date_created: self.date_created@,
            date_edited: self.date_edited.deep_view(),
        }
    }
}

impl DeepView for Reply {
    type V = ReplyView;

    open spec fn deep_view(&self) -> ReplyView {
        self@
    }
}

impl Clone for Reply {
    fn clone(&self) -> (r: Self)
        ensures
            r@ == self@,
    {
        Reply {
            id: self.id.clone(),
            creator_id: self.creator_id.clone(),
            post_id: self.post_id.clone(),
            content: self.content.clone(),
            deleted: self.deleted,
            date_created: self.date_created.clone(),
            date_edited: match &self.date_edited {
                Some(d) => Some(d.clone()),
                None => None,
            },
        }
    }
}

/// An uploaded attachment record: immutable once created.
#[derive(Debug)]
pub struct Attachment {
    pub id: Id,
    pub path: String,
    pub creator_id: Id,
    pub date_created: String,
}

/// The ghost image of an `Attachment`.
pub ghost struct AttachmentView {
    pub id: Seq<char>,
    pub path: Seq<char>,
    pub creator_id: Seq<char>,
    pub date_created: Seq<char>,
}

impl View for Attachment {
    type V = AttachmentView;

    open spec fn view(&self) -> AttachmentView {
        AttachmentView {
            id: self.id@,
            path: self.path@,
            creator_id: self.creator_id@,
            date_created: self.date_created@,
        }
    }
}

impl DeepView for Attachment {
    type V = AttachmentView;

    open spec fn deep_view(&self) -> AttachmentView {
        self@
    }
}

impl Clone for Attachment {
    fn clone(&self) -> (r: Self)
        ensures
            r@ == self@,
    {
        Attachment {
            id: self.id.clone(),
            path: self.path.clone(),
            creator_id: self.creator_id.clone(),
            date_created: self.date_created.clone(),
        }
    }
}

} // verus!
