//! A plain struct with named fields, and the builder shorthand that fills
//! it from function parameters.

use vstd::prelude::*;

verus! {

/// An account holder.
pub struct User {
    pub username: String,
    pub email: String,
    pub sign_in_count: u32,
    pub is_active: bool,
}

/// A fresh, active user who has not signed in yet.
pub fn build_user(email: String, username: String) -> (u: User)
    ensures
        u.email == email,
        u.username == username,
        u.is_active,
        u.sign_in_count == 0,
{
    User { email, username, is_active: true, sign_in_count: 0 }
}

} // verus!
