//! The decisions of the first web site's registration and login.

use vstd::prelude::*;
use vstd::string::*;
use crate::text::str_eq;
use crate::web::models::User;
use crate::carnival_web::password::{verify_password, password_verification};

verus! {

/// The key the first web site hashes passwords under.
pub open spec fn dev_hmac_key() -> Seq<u8> {
    seq![100u8, 101, 118, 45, 86, 69, 82, 89, 115, 101, 99, 117, 114, 101]
}

/// The first step of a registration: the answer when the two passwords
/// differ; `None` when the username is to be checked next.
pub fn register_begin(password: &str, password_conf: &str) -> (r: Option<String>)
    ensures
        match r {
            Some(msg) => password@ != password_conf@ && msg@ == "Passwords do not match"@,
            None => password@ == password_conf@,
        },
{
    if !str_eq(password, password_conf) {
        return Some(String::from_str("Passwords do not match"));
    }
    None
}

/// The answer when the username is taken; `None` when the account is to be
/// created next.
pub fn register_username_checked(taken: bool) -> (r: Option<String>)
    ensures
        match r {
            Some(msg) => taken && msg@ == "Username already exists"@,
            None => !taken,
        },
{
    if taken {
        Some(String::from_str("Username already exists"))
    } else {
        None
    }
}

/// The answer once the account was (or was not) created.
pub fn register_created(created: bool) -> (r: String)
    ensures
        r@ == (if created {
            "Ok"@
        } else {
            "Error creating user."@
        }),
{
    if created {
        String::from_str("Ok")
    } else {
        String::from_str("Error creating user.")
    }
}

/// The answer when no user has the name; `None` when the user is to be
/// loaded next.
pub fn login_user_known(exists: bool) -> (r: Option<String>)
    ensures
        match r {
            Some(msg) => !exists && msg@ == "User does not exist"@,
            None => exists,
        },
{
    if exists {
        None
    } else {
        Some(String::from_str("User does not exist"))
    }
}

/// The answer to a login once the user was loaded (`None`: loading failed):
/// a token when the password matches; `None` when the stored hash cannot be
/// read, a fatal error.
pub fn login_check_password(user: Option<&User>, password: &str) -> (r: Option<String>)
    ensures
        match user {
            None => r matches Some(msg) && msg@ == "Error fetching user"@,
            Some(u) => match password_verification(password@, u.password_view(), dev_hmac_key()) {
                Some(true) => r matches Some(msg) && msg@ == "totally-real-token"@,
                Some(false) => r matches Some(msg) && msg@ == "Incorrect username or password"@,
                None => r is None,
            },
        },
{
    match user {
        None => Some(String::from_str("Error fetching user")),
        Some(u) => {
            let key: [u8; 14] = [100, 101, 118, 45, 86, 69, 82, 89, 115, 101, 99, 117, 114, 101];
            assert(key@ =~= dev_hmac_key());
            match verify_password(password, u.get_password(), &key) {
                Some(true) => Some(String::from_str("totally-real-token")),
                Some(false) => Some(String::from_str("Incorrect username or password")),
                None => None,
            }
        },
    }
}

} // verus!
