//! Change the password of the account named by a bearer token: validate
//! the token, look the record up by the token's subject, store the new
//! hash.

use vstd::prelude::*;

use crate::hashing::bcrypt_matches;
use crate::hashing::hash_password;
use crate::model::emails_unique;
use crate::model::find_by_username;
use crate::model::is_first_username_match;
use crate::model::lemma_update_same_email_keeps_unique;
use crate::model::username_taken;
use crate::model::User;
use crate::model::UserData;
use crate::token::jwt_token_of;
use crate::token::validate_jwt;

verus! {

/// The body of a change-password request; the bearer token travels in the
/// request's authorization header.
pub struct ChangePasswordRequest {
    pub new_password: String,
}

/// The outcome of a password change, as the transport layer reports it.
pub struct ChangePasswordResponse {
    pub status_code: u16,
    pub message: String,
}

/// Store an already-hashed password on the first record carrying this
/// username. This is the whole mutation of a password change; it fails
/// only when the username names no record.
pub fn change_password_commit(data: &mut UserData, username: &String, password_hash: String) -> (r:
    ChangePasswordResponse)
    ensures
        !username_taken(old(data).people@, username@) ==> {
            &&& *final(data) == *old(data)
            &&& r.status_code == 404
            &&& r.message@ == "User not found."@
        },
        username_taken(old(data).people@, username@) ==> {
            &&& r.status_code == 200
            &&& r.message@ == "Password changed successfully"@
            &&& final(data).total_records == old(data).total_records
            &&& exists|i: int|
                {
                    &&& is_first_username_match(old(data).people@, username@, i)
                    &&& final(data).people@ == old(data).people@.update(
                        i,
                        User {
                            name: old(data).people@[i].name,
                            username: old(data).people@[i].username,
                            password: password_hash,
                            email: old(data).people@[i].email,
                            verification_code: old(data).people@[i].verification_code,
                        },
                    )
                }
        },
        emails_unique(old(data).people@) ==> emails_unique(final(data).people@),
{
    let idx = match find_by_username(&data.people, username) {
        Some(i) => i,
        None => {
            return ChangePasswordResponse {
                status_code: 404,
                message: "User not found.".to_owned(),
            };
        },
    };
    let ghost h = password_hash;
    data.people[idx].password = password_hash;
    proof {
        if emails_unique(old(data).people@) {
            lemma_update_same_email_keeps_unique(
                old(data).people@,
                idx as int,
                data.people@[idx as int],
            );
        }
        assert(data.people@ =~= old(data).people@.update(
            idx as int,
            User {
                name: old(data).people@[idx as int].name,
                username: old(data).people@[idx as int].username,
                password: h,
                email: old(data).people@[idx as int].email,
                verification_code: old(data).people@[idx as int].verification_code,
            },
        ));
    }
    ChangePasswordResponse {
        status_code: 200,
        message: "Password changed successfully".to_owned(),
    }
}

/// Store a new password hash on the first record carrying this username.
/// This is the whole mutation of a password change, once the bearer token
/// has already been validated and its subject extracted. A status of 500
/// reports an internal failure of the hasher.
pub fn change_password_for_subject(
    data: &mut UserData,
    username: &String,
    new_password: &String,
    cost: u32,
) -> (r: ChangePasswordResponse)
    ensures
        !username_taken(old(data).people@, username@) ==> {
            &&& *final(data) == *old(data)
            &&& r.status_code == 404
            &&& r.message@ == "User not found."@
        },
        username_taken(old(data).people@, username@) ==> (r.status_code == 200 || r.status_code
            == 500),
        r.status_code == 500 ==> {
            &&& *final(data) == *old(data)
            &&& r.message@ == "Internal server error"@
        },
        r.status_code == 200 ==> {
            &&& r.message@ == "Password changed successfully"@
            &&& final(data).total_records == old(data).total_records
            &&& exists|i: int, h: String|
                {
                    &&& is_first_username_match(old(data).people@, username@, i)
                    &&& bcrypt_matches(new_password@, h@)
                    &&& final(data).people@ == old(data).people@.update(
                        i,
                        User {
                            name: old(data).people@[i].name,
                            username: old(data).people@[i].username,
                            password: h,
                            email: old(data).people@[i].email,
                            verification_code: old(data).people@[i].verification_code,
                        },
                    )
                }
        },
        emails_unique(old(data).people@) ==> emails_unique(final(data).people@),
{
    if find_by_username(&data.people, username).is_none() {
        return ChangePasswordResponse {
            status_code: 404,
            message: "User not found.".to_owned(),
        };
    }
    let hashed = match hash_password(new_password, cost) {
        Some(h) => h,
        None => {
            return ChangePasswordResponse {
                status_code: 500,
                message: "Internal server error".to_owned(),
            };
        },
    };
    change_password_commit(data, username, hashed)
}

/// The full change-password operation over an exclusively borrowed
/// directory snapshot. The bearer token's signature and expiry are checked
/// first; its subject names the account. On success the first record with
/// that username carries the new hash, and if the token was issued by this
/// library for a subject `s` with this secret, that subject is `s`.
pub fn change_password(
    data: &mut UserData,
    token: &String,
    req: &ChangePasswordRequest,
    cost: u32,
    secret: &Vec<u8>,
) -> (r: ChangePasswordResponse)
    ensures
        r.status_code == 200 || r.status_code == 401 || r.status_code == 404 || r.status_code
            == 500,
        r.status_code == 401 ==> {
            &&& *final(data) == *old(data)
            &&& r.message@ == "Invalid token."@
        },
        r.status_code == 404 ==> {
            &&& *final(data) == *old(data)
            &&& r.message@ == "User not found."@
        },
        r.status_code == 500 ==> {
            &&& *final(data) == *old(data)
            &&& r.message@ == "Internal server error"@
        },
        r.status_code == 200 ==> {
            &&& r.message@ == "Password changed successfully"@
            &&& final(data).total_records == old(data).total_records
            &&& exists|sub: Seq<char>, i: int, h: String|
                {
                    &&& (forall|s: Seq<char>, ro: Seq<char>, e: int|
                        0 <= e <= usize::MAX && token@ == jwt_token_of(s, ro, e, secret@) ==> sub
                            == s)
                    &&& is_first_username_match(old(data).people@, sub, i)
                    &&& bcrypt_matches(req.new_password@, h@)
                    &&& final(data).people@ == old(data).people@.update(
                        i,
                        User {
                            name: old(data).people@[i].name,
                            username: old(data).people@[i].username,
                            password: h,
                            email: old(data).people@[i].email,
                            verification_code: old(data).people@[i].verification_code,
                        },
                    )
                }
        },
        emails_unique(old(data).people@) ==> emails_unique(final(data).people@),
{
    let claims = match validate_jwt(token, secret) {
        Some(c) => c,
        None => {
            return ChangePasswordResponse {
                status_code: 401,
                message: "Invalid token.".to_owned(),
            };
        },
    };
    change_password_for_subject(data, &claims.sub, &req.new_password, cost)
}

} // verus!
