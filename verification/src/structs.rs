//! Structs: a user record built from named fields, and struct-update
//! syntax that replaces one field while carrying the rest over.

use vstd::prelude::*;

verus! {

/// A user account: a name, an email address, and an active flag.
#[derive(Debug)]
pub struct User {
    pub username: String,
    pub email: String,
    pub active: bool,
}

/// A fresh user with the given email, every other field taken over
/// unchanged from `user` by struct-update syntax.
pub fn update_email(new_email: String, user: User) -> (updated: User)
    ensures
        updated.email == new_email,
        updated.username == user.username,
        updated.active == user.active,
{
    User { email: new_email, ..user }
}

} // verus!
