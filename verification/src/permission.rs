//! The permission ordering: a small total order over access levels, plus the
//! two fixed thresholds that gate attachment uploads and "important actions"
//! (category management, permission grants and cross-user moderation).
//!
//! `Banned` sits outside the ladder: a banned actor is allowed nothing, and
//! no ordinary threshold is satisfied by a banned actor.

use vstd::prelude::*;

verus! {

/// An access level attached to a user. Apart from `Banned`, the levels are
/// totally ordered: `Unverified < User < Admin < Root`.
#[derive(Clone, Copy, PartialEq, Eq, Structural, Debug)]
pub enum Permission {
    Banned,
    Unverified,
    User,
    Admin,
    Root,
}

/// The numeric rank of a level inside the ladder. `Banned` ranks below
/// everything but is additionally incomparable: see `spec_is_allowed`.
pub open spec fn rank(p: Permission) -> int {
    match p {
        Permission::Banned => 0,
        Permission::Unverified => 1,
        Permission::User => 2,
        Permission::Admin => 3,
        Permission::Root => 4,
    }
}

/// What the allow-check decides: a held level satisfies a required level
/// iff both are `Banned`, or neither is and the held rank is at least the
/// required rank.
pub open spec fn spec_is_allowed(held: Permission, required: Permission) -> bool {
    if held is Banned || required is Banned {
        held is Banned && required is Banned
    } else {
        rank(required) <= rank(held)
    }
}

/// Decides whether an actor holding `held` may perform an action that
/// requires `required`. The match is deliberately exhaustive over every
/// pair of levels, so that adding a level forces every case to be revisited.
pub fn is_allowed(held: &Permission, required: &Permission) -> (r: bool)
    ensures
        r == spec_is_allowed(*held, *required),
{
    match (held, required) {
        (Permission::Banned, Permission::Banned)
        | (Permission::Unverified, Permission::Unverified)
        | (Permission::User, Permission::Unverified | Permission::User)
        | (Permission::Admin, Permission::Unverified | Permission::User | Permission::Admin)
        | (
            Permission::Root,
            Permission::Unverified | Permission::Admin | Permission::User | Permission::Root,
        ) => true,
        (_, Permission::Banned)
        | (Permission::Banned, _)
        | (Permission::Unverified, Permission::User | Permission::Admin | Permission::Root)
        | (Permission::User, Permission::Admin | Permission::Root)
        | (Permission::Admin, Permission::Root) => false,
    }
}

/// The minimum level required to upload an attachment.
pub open spec fn spec_attachment_upload_threshold() -> Permission {
    Permission::User
}

/// The minimum level required for "important actions".
pub open spec fn spec_important_actions_threshold() -> Permission {
    Permission::Admin
}

/// The minimum level required to upload an attachment.
pub fn permission_for_attachment_upload() -> (r: Permission)
    ensures
        r == spec_attachment_upload_threshold(),
{
    Permission::User
}

/// The minimum level required for "important actions": category creation,
/// edits and removal, permission grants, and cross-user moderation.
pub fn permission_for_important_actions() -> (r: Permission)
    ensures
        r == spec_important_actions_threshold(),
{
    Permission::Admin
}

/// The display name of each level.
pub open spec fn spec_name(p: Permission) -> Seq<char> {
    match p {
        Permission::Banned => "Banned"@,
        Permission::Unverified => "Unverified"@,
        Permission::User => "User"@,
        Permission::Admin => "Admin"@,
        Permission::Root => "Root"@,
    }
}

impl Permission {
    /// The level's display name, as used in outward messages.
    pub fn name(&self) -> (r: String)
        ensures
            r@ == spec_name(*self),
    {
        match self {
            Permission::Banned => "Banned".to_owned(),
            Permission::Unverified => "Unverified".to_owned(),
            Permission::User => "User".to_owned(),
            Permission::Admin => "Admin".to_owned(),
            Permission::Root => "Root".to_owned(),
        }
    }
}

impl Default for Permission {
    /// A freshly registered user starts out `Unverified`.
    fn default() -> (r: Self)
        ensures
            r == Permission::Unverified,
    {
        Permission::Unverified
    }
}

/// The allow-check is reflexive: every level, `Banned` included, satisfies
/// itself as a threshold.
pub proof fn lemma_is_allowed_reflexive(p: Permission)
    ensures
        spec_is_allowed(p, p),
{
}

/// The allow-check is monotonic along the ladder: a held level satisfies
/// every required level of lower or equal rank. `Banned` is excluded as the
/// required level: it sits outside the ladder, and no level other than
/// `Banned` itself satisfies it.
pub proof fn lemma_is_allowed_monotonic(held: Permission, required: Permission)
    requires
        required != Permission::Banned,
        rank(required) <= rank(held),
    ensures
        spec_is_allowed(held, required),
{
}

/// `Root` satisfies every required level on the ladder. The one exception
/// is `Banned`, which no other level satisfies.
pub proof fn lemma_root_allows_all(required: Permission)
    requires
        required != Permission::Banned,
    ensures
        spec_is_allowed(Permission::Root, required),
{
}

} // verus!
