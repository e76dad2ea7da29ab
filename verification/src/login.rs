//! Login: look the record up by email, check the password against the
//! stored bcrypt hash, and issue a bearer token. Nothing is mutated.

use vstd::prelude::*;

use crate::hashing::bcrypt_matches;
use crate::hashing::verify_password;
use crate::model::email_taken;
use crate::model::find_by_email;
use crate::model::is_first_email_match;
use crate::model::UserData;
use crate::token::create_jwt;
use crate::token::jwt_token_of;
use crate::token::TOKEN_LIFETIME_SECS;

verus! {

/// The body of a login request.
pub struct LoginRequest {
    pub email: String,
    pub password: String,
}

/// The outcome of a login, as the transport layer reports it.
pub struct LoginResponse {
    pub status_code: u16,
    pub message: String,
    pub token: Option<String>,
}

/// Authenticate against the directory snapshot. The record is the first
/// one carrying the email; the password matches iff bcrypt accepts it
/// against the stored hash, and a match is owed a token.
pub fn login(data: &UserData, req: &LoginRequest, secret: &Vec<u8>, now: usize) -> (r:
    LoginResponse)
    requires
        now + TOKEN_LIFETIME_SECS <= usize::MAX,
    ensures
        r.status_code == 200 || r.status_code == 401 || r.status_code == 404,
        r.status_code == 404 <==> !email_taken(data.people@, req.email@),
        !email_taken(data.people@, req.email@) ==> {
            &&& r.message@ == "User not found."@
            &&& r.token is None
        },
        forall|i: int|
            is_first_email_match(data.people@, req.email@, i) ==> if bcrypt_matches(
                req.password@,
                data.people@[i].password@,
            ) {
                &&& r.status_code == 200
                &&& r.message@ == "Login successful"@
                &&& (r.token matches Some(t) && t@ == jwt_token_of(
                    data.people@[i].username@,
                    "User"@,
                    now + TOKEN_LIFETIME_SECS,
                    secret@,
                ))
            } else {
                &&& r.status_code == 401
                &&& r.message@ == "Invalid password."@
                &&& r.token is None
            },
{
    let idx = match find_by_email(&data.people, &req.email) {
        Some(i) => i,
        None => {
            return LoginResponse {
                status_code: 404,
                message: "User not found.".to_owned(),
                token: None,
            };
        },
    };
    if verify_password(&req.password, &data.people[idx].password) {
        let token = create_jwt(&data.people[idx].username, secret, now);
        LoginResponse {
            status_code: 200,
            message: "Login successful".to_owned(),
            token: Some(token),
        }
    } else {
        LoginResponse {
            status_code: 401,
            message: "Invalid password.".to_owned(),
            token: None,
        }
    }
}

} // verus!
