//! Signup: validate the four fields, enforce email uniqueness, hash the
//! password, append the record and issue a bearer token.

use vstd::prelude::*;

use crate::hashing::bcrypt_matches;
use crate::hashing::hash_password;
use crate::model::email_taken;
use crate::model::emails_unique;
use crate::model::find_by_email;
use crate::model::lemma_push_fresh_email_keeps_unique;
use crate::model::User;
use crate::model::UserData;
use crate::text::blank;
use crate::text::is_blank;
use crate::token::create_jwt;
use crate::token::jwt_token_of;
use crate::token::TOKEN_LIFETIME_SECS;

verus! {

/// The outcome of a signup, as the transport layer reports it.
pub struct SignupResponse {
    pub status_code: u16,
    pub message: String,
    pub token: Option<String>,
}

/// All four signup fields carry more than whitespace.
pub open spec fn valid_signup_fields(req: &User) -> bool {
    &&& !blank(req.email@)
    &&& !blank(req.password@)
    &&& !blank(req.name@)
    &&& !blank(req.username@)
}

/// The message for the first blank field, checked in the fixed order
/// email, password, name, username.
pub open spec fn first_validation_error(req: &User) -> Seq<char> {
    if blank(req.email@) {
        "Email cannot be empty"@
    } else if blank(req.password@) {
        "Password cannot be empty"@
    } else if blank(req.name@) {
        "Name cannot be empty"@
    } else {
        "UserName cannot be empty"@
    }
}

/// Reject a signup request with a blank field, naming the first one.
pub fn validate_signup(req: &User) -> (r: Option<SignupResponse>)
    ensures
        r is None <==> valid_signup_fields(req),
        r matches Some(resp) ==> {
            &&& resp.status_code == 400
            &&& resp.message@ == first_validation_error(req)
            &&& resp.token is None
        },
{
    if is_blank(&req.email) {
        Some(SignupResponse {
            status_code: 400,
            message: "Email cannot be empty".to_owned(),
            token: None,
        })
    } else if is_blank(&req.password) {
        Some(SignupResponse {
            status_code: 400,
            message: "Password cannot be empty".to_owned(),
            token: None,
        })
    } else if is_blank(&req.name) {
        Some(SignupResponse {
            status_code: 400,
            message: "Name cannot be empty".to_owned(),
            token: None,
        })
    } else if is_blank(&req.username) {
        Some(SignupResponse {
            status_code: 400,
            message: "UserName cannot be empty".to_owned(),
            token: None,
        })
    } else {
        None
    }
}

/// Append the already-hashed record and hand back the already-issued
/// token, unless the email is taken. This is the whole mutation of a
/// signup; it fails only on a conflict.
pub fn signup_commit(data: &mut UserData, req: &User, password_hash: String, token: String) -> (r:
    SignupResponse)
    requires
        old(data).total_records < i32::MAX,
    ensures
        email_taken(old(data).people@, req.email@) ==> {
            &&& *final(data) == *old(data)
            &&& r.status_code == 400
            &&& r.message@ == "A user with this email already exists"@
            &&& r.token is None
        },
        !email_taken(old(data).people@, req.email@) ==> {
            &&& final(data).people@ == old(data).people@.push(
                User {
                    name: req.name,
                    username: req.username,
                    password: password_hash,
                    email: req.email,
                    verification_code: None,
                },
            )
            &&& final(data).total_records == old(data).total_records + 1
            &&& r.status_code == 201
            &&& r.message@ == "User created successfully"@
            &&& r.token == Some(token)
        },
        emails_unique(old(data).people@) ==> emails_unique(final(data).people@),
{
    if find_by_email(&data.people, &req.email).is_some() {
        return SignupResponse {
            status_code: 400,
            message: "A user with this email already exists".to_owned(),
            token: None,
        };
    }
    let record = User {
        name: req.name.clone(),
        username: req.username.clone(),
        password: password_hash,
        email: req.email.clone(),
        verification_code: None,
    };
    proof {
        if emails_unique(data.people@) {
            lemma_push_fresh_email_keeps_unique(data.people@, record);
        }
    }
    data.people.push(record);
    data.total_records = data.total_records + 1;
    SignupResponse {
        status_code: 201,
        message: "User created successfully".to_owned(),
        token: Some(token),
    }
}

/// The full signup operation over an exclusively borrowed directory
/// snapshot: validation, uniqueness, hashing, append, token. A status of
/// 500 reports an internal failure of the hasher and leaves the directory
/// untouched.
pub fn signup(data: &mut UserData, req: &User, cost: u32, secret: &Vec<u8>, now: usize) -> (r:
    SignupResponse)
    requires
        old(data).total_records < i32::MAX,
        now + TOKEN_LIFETIME_SECS <= usize::MAX,
    ensures
        !valid_signup_fields(req) ==> {
            &&& *final(data) == *old(data)
            &&& r.status_code == 400
            &&& r.message@ == first_validation_error(req)
            &&& r.token is None
        },
        valid_signup_fields(req) && email_taken(old(data).people@, req.email@) ==> {
            &&& *final(data) == *old(data)
            &&& r.status_code == 400
            &&& r.message@ == "A user with this email already exists"@
            &&& r.token is None
        },
        valid_signup_fields(req) && !email_taken(old(data).people@, req.email@) ==> (r.status_code
            == 201 || r.status_code == 500),
        r.status_code == 500 ==> {
            &&& *final(data) == *old(data)
            &&& r.message@ == "Internal server error"@
            &&& r.token is None
        },
        r.status_code == 201 ==> {
            &&& valid_signup_fields(req)
            &&& !email_taken(old(data).people@, req.email@)
            &&& r.message@ == "User created successfully"@
            &&& (r.token matches Some(t) && t@ == jwt_token_of(
                req.username@,
                "User"@,
                now + TOKEN_LIFETIME_SECS,
                secret@,
            ))
            &&& final(data).total_records == old(data).total_records + 1
            &&& exists|u: User|
                {
                    &&& final(data).people@ == old(data).people@.push(u)
                    &&& u.name@ == req.name@
                    &&& u.username@ == req.username@
                    &&& u.email@ == req.email@
                    &&& u.verification_code is None
                    &&& bcrypt_matches(req.password@, u.password@)
                }
        },
        emails_unique(old(data).people@) ==> emails_unique(final(data).people@),
{
    if let Some(resp) = validate_signup(req) {
        return resp;
    }
    if find_by_email(&data.people, &req.email).is_some() {
        return SignupResponse {
            status_code: 400,
            message: "A user with this email already exists".to_owned(),
            token: None,
        };
    }
    let hashed = match hash_password(&req.password, cost) {
        Some(h) => h,
        None => {
            return SignupResponse {
                status_code: 500,
                message: "Internal server error".to_owned(),
                token: None,
            };
        },
    };
    let token = create_jwt(&req.username, secret, now);
    signup_commit(data, req, hashed, token)
}

} // verus!
