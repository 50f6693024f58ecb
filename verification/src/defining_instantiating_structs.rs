//! A user account and three ways to make one.
use vstd::prelude::*;
use vstd::string::*;

verus! {

/// A user account.
#[derive(Debug)]
pub struct User {
    pub username: String,
    pub email: String,
    pub sign_in_count: u64,
    pub active: bool,
}

impl User {
    /// The account is as new: active, and signed in once.
    pub open spec fn is_new(&self) -> bool {
        self.active && self.sign_in_count == 1
    }
}

/// Makes a new account for `email` and `username`, naming each field.
pub fn build_user(email: String, username: String) -> (user: User)
    ensures
        user.email == email,
        user.username == username,
        user.is_new(),
{
    User { email: email, username: username, active: true, sign_in_count: 1 }
}

/// Makes a new account for `email` and `username`, with the short form for
/// fields that are named like the values put into them.
pub fn field_init_shorthand(email: String, username: String) -> (user: User)
    ensures
        user.email == email,
        user.username == username,
        user.is_new(),
{
    User { email, username, active: true, sign_in_count: 1 }
}

/// Makes an account for `email` and `username` that takes everything else
/// from `user1`.
pub fn struct_update_syntax(user1: User, email: String, username: String) -> (user2: User)
    ensures
        user2.email == email,
        user2.username == username,
        user2.active == user1.active,
        user2.sign_in_count == user1.sign_in_count,
{
    User { email, username, ..user1 }
}

/// Makes the sample account, field by field.
fn sample_user() -> (user: User)
    ensures
        user.email@ == "someone@gmail.com"@,
        user.username@ == "username123"@,
        user.is_new(),
{
    User {
        email: String::from_str("someone@gmail.com"),
        username: String::from_str("username123"),
        active: true,
        sign_in_count: 1,
    }
}

/// Makes the sample account and reads its email address.
pub fn instanciate_struct_use_value() -> (email: String)
    ensures
        email@ == "someone@gmail.com"@,
{
    let user1 = sample_user();
    user1.email
}

/// Makes the sample account and gives it a new email address: the address
/// before the change and the address after it.
pub fn instanciate_struct_change_field_value() -> (emails: (String, String))
    ensures
        emails.0@ == "someone@gmail.com"@,
        emails.1@ == "newemail@gmail.com"@,
{
    let mut user2 = sample_user();
    let before = user2.email.clone();
    user2.email = String::from_str("newemail@gmail.com");
    (before, user2.email)
}

} // verus!
