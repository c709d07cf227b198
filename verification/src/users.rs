//! The user record from the struct examples.

use vstd::prelude::*;

verus! {

/// An account, owning all of its data.
pub struct User {
    pub username: String,
    pub email: String,
    pub sign_in_count: u64,
    pub active: bool,
}

/// A fresh, active account with a single sign-in.
pub fn build_user(email: String, username: String) -> (r: User)
    ensures
        r.email == email,
        r.username == username,
        r.active == true,
        r.sign_in_count == 1,
{
    User { email, username, active: true, sign_in_count: 1 }
}

} // verus!
