//! The second half of the password-reset flow: a record that matches both
//! the email and the pending verification token gets the new password
//! hash, and the token is cleared so it can never be replayed.

use vstd::prelude::*;

use crate::hashing::bcrypt_matches;
use crate::hashing::hash_password;
use crate::model::emails_unique;
use crate::model::find_reset_match;
use crate::model::is_first_reset_match;
use crate::model::lemma_update_same_email_keeps_unique;
use crate::model::reset_match;
use crate::model::reset_taken;
use crate::model::User;
use crate::model::UserData;

verus! {

/// The body of a reset request.
pub struct ResetPasswordParam {
    pub email: String,
    pub verification_token: String,
    pub new_password: String,
}

/// The outcome of a reset, as the transport layer reports it.
pub struct ResetPasswordResponse {
    pub status_code: u16,
    pub message: String,
}

/// Store an already-hashed password on the record matching the email and
/// pending verification token, clearing the token so it cannot be
/// replayed. This is the whole mutation of a reset; it fails only when no
/// record matches.
pub fn reset_password_commit(
    data: &mut UserData,
    email: &String,
    verification_token: &String,
    password_hash: String,
) -> (r: ResetPasswordResponse)
    ensures
        !reset_taken(old(data).people@, email@, verification_token@) ==> {
            &&& *final(data) == *old(data)
            &&& r.status_code == 400
            &&& r.message@ == "A user with this email and verification token does not exist"@
        },
        reset_taken(old(data).people@, email@, verification_token@) ==> {
            &&& r.status_code == 200
            &&& r.message@ == "Password Reset Successfully!"@
            &&& final(data).total_records == old(data).total_records
            &&& exists|i: int|
                {
                    &&& is_first_reset_match(old(data).people@, email@, verification_token@, i)
                    &&& final(data).people@ == old(data).people@.update(
                        i,
                        User {
                            name: old(data).people@[i].name,
                            username: old(data).people@[i].username,
                            password: password_hash,
                            email: old(data).people@[i].email,
                            verification_code: None,
                        },
                    )
                }
        },
        emails_unique(old(data).people@) ==> emails_unique(final(data).people@),
{
    let idx = match find_reset_match(&data.people, email, verification_token) {
        Some(i) => i,
        None => {
            return ResetPasswordResponse {
                status_code: 400,
                message: "A user with this email and verification token does not exist".to_owned(),
            };
        },
    };
    let ghost h = password_hash;
    data.people[idx].password = password_hash;
    data.people[idx].verification_code = None;
    proof {
        if emails_unique(old(data).people@) {
            lemma_update_same_email_keeps_unique(
                old(data).people@,
                idx as int,
                data.people@[idx as int],
            );
        }
        assert(data.people@ =~= old(data).people@.update(
            idx as int,
            User {
                name: old(data).people@[idx as int].name,
                username: old(data).people@[idx as int].username,
                password: h,
                email: old(data).people@[idx as int].email,
                verification_code: None,
            },
        ));
    }
    ResetPasswordResponse {
        status_code: 200,
        message: "Password Reset Successfully!".to_owned(),
    }
}

/// Reset a password over the exclusively borrowed directory snapshot. The
/// supplied token authorizes exactly the record whose email and pending
/// verification code both match; a success stores the new hash and clears
/// the code. A status of 500 reports an internal failure of the hasher.
pub fn reset_password(data: &mut UserData, param: &ResetPasswordParam, cost: u32) -> (r:
    ResetPasswordResponse)
    ensures
        !reset_taken(old(data).people@, param.email@, param.verification_token@) ==> {
            &&& *final(data) == *old(data)
            &&& r.status_code == 400
            &&& r.message@ == "A user with this email and verification token does not exist"@
        },
        reset_taken(old(data).people@, param.email@, param.verification_token@) ==> (r.status_code
            == 200 || r.status_code == 500),
        r.status_code == 500 ==> {
            &&& *final(data) == *old(data)
            &&& r.message@ == "Internal server error"@
        },
        r.status_code == 200 ==> {
            &&& r.message@ == "Password Reset Successfully!"@
            &&& final(data).total_records == old(data).total_records
            &&& exists|i: int, h: String|
                {
                    &&& is_first_reset_match(
                        old(data).people@,
                        param.email@,
                        param.verification_token@,
                        i,
                    )
                    &&& bcrypt_matches(param.new_password@, h@)
                    &&& final(data).people@ == old(data).people@.update(
                        i,
                        User {
                            name: old(data).people@[i].name,
                            username: old(data).people@[i].username,
                            password: h,
                            email: old(data).people@[i].email,
                            verification_code: None,
                        },
                    )
                }
        },
        emails_unique(old(data).people@) ==> emails_unique(final(data).people@),
{
    if find_reset_match(&data.people, &param.email, &param.verification_token).is_none() {
        return ResetPasswordResponse {
            status_code: 400,
            message: "A user with this email and verification token does not exist".to_owned(),
        };
    }
    let hashed = match hash_password(&param.new_password, cost) {
        Some(h) => h,
        None => {
            return ResetPasswordResponse {
                status_code: 500,
                message: "Internal server error".to_owned(),
            };
        },
    };
    reset_password_commit(data, &param.email, &param.verification_token, hashed)
}

/// A consumed verification token never authorizes a second reset: once a
/// successful reset has cleared the code on the matching record, no record
/// in the directory matches the same email and token again, so repeating
/// the same call must fail.
pub proof fn lemma_reset_token_single_use(
    pre: Seq<User>,
    i: int,
    u: User,
    email: Seq<char>,
    token: Seq<char>,
)
    requires
        emails_unique(pre),
        is_first_reset_match(pre, email, token, i),
        u.email@ == pre[i].email@,
        u.verification_code is None,
    ensures
        !reset_taken(pre.update(i, u), email, token),
{
    let post = pre.update(i, u);
    assert forall|j: int| 0 <= j < post.len() implies !reset_match(post[j], email, token) by {
        if j != i {
            assert(post[j] == pre[j]);
            if j < i {
                assert(pre[j].email@ != pre[i].email@);
            } else {
                assert(pre[i].email@ != pre[j].email@);
            }
        }
    }
}

} // verus!
