//! The signed-in user that a session remembers, and who may manage users.
use vstd::prelude::*;

use crate::text::equals_text;

verus! {

/// The signed-in user that the session remembers.
#[derive(Debug, Clone)]
pub struct SessionUser {
    pub id: i32,
    pub name: String,
    pub role: String,
}

/// The session belongs to a user with the role `admin`.
pub open spec fn admin_session(session: Option<SessionUser>) -> bool {
    session matches Some(u) && u.role@ == "admin"@
}

/// Whether the session belongs to an administrator; only they may change users.
pub fn is_admin(session: &Option<SessionUser>) -> (res: bool)
    ensures
        res == admin_session(*session),
{
    match session {
        Some(u) => equals_text(u.role.as_str(), "admin"),
        None => false,
    }
}

/// The form that changes a user's role.
#[derive(Debug, Clone)]
pub struct RoleFormData {
    pub role: String,
}

} // verus!
