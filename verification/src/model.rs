//! The user directory: records, uniqueness invariant, and lookup helpers.

use vstd::prelude::*;

verus! {

/// One account record. `email` is the natural unique key; `password` holds
/// the bcrypt hash of the password, never the plaintext; `verification_code`
/// is present only while a password reset is pending.
pub struct User {
    pub name: String,
    pub username: String,
    pub password: String,
    pub email: String,
    pub verification_code: Option<String>,
}

/// The full directory snapshot: the one unit of persistence.
/// `total_records` counts the records ever created.
pub struct UserData {
    pub people: Vec<User>,
    pub total_records: i32,
}

impl UserData {
    pub fn new() -> (r: Self)
        ensures
            r.people@.len() == 0,
            r.total_records == 0,
    {
        Self { people: Vec::new(), total_records: 0 }
    }
}

/// No two records share an email address.
pub open spec fn emails_unique(people: Seq<User>) -> bool {
    forall|i: int, j: int|
        0 <= i < j < people.len() ==> people[i].email@ != people[j].email@
}

/// Some record carries this email address.
pub open spec fn email_taken(people: Seq<User>, email: Seq<char>) -> bool {
    exists|i: int| 0 <= i < people.len() && people[i].email@ == email
}

/// `i` is the first index whose record carries this email address.
pub open spec fn is_first_email_match(people: Seq<User>, email: Seq<char>, i: int) -> bool {
    &&& 0 <= i < people.len()
    &&& people[i].email@ == email
    &&& forall|j: int| 0 <= j < i ==> people[j].email@ != email
}

/// Some record carries this username. Usernames, unlike emails, are not
/// required to be unique; lookups take the first match.
pub open spec fn username_taken(people: Seq<User>, username: Seq<char>) -> bool {
    exists|i: int| 0 <= i < people.len() && people[i].username@ == username
}

/// `i` is the first index whose record carries this username.
pub open spec fn is_first_username_match(people: Seq<User>, username: Seq<char>, i: int) -> bool {
    &&& 0 <= i < people.len()
    &&& people[i].username@ == username
    &&& forall|j: int| 0 <= j < i ==> people[j].username@ != username
}

/// The record carries this email and this pending verification token.
pub open spec fn reset_match(u: User, email: Seq<char>, token: Seq<char>) -> bool {
    &&& u.email@ == email
    &&& u.verification_code matches Some(c) && c@ == token
}

/// Some record matches this email and verification token.
pub open spec fn reset_taken(people: Seq<User>, email: Seq<char>, token: Seq<char>) -> bool {
    exists|i: int| 0 <= i < people.len() && reset_match(people[i], email, token)
}

/// `i` is the first index matching this email and verification token.
pub open spec fn is_first_reset_match(
    people: Seq<User>,
    email: Seq<char>,
    token: Seq<char>,
    i: int,
) -> bool {
    &&& 0 <= i < people.len()
    &&& reset_match(people[i], email, token)
    &&& forall|j: int| 0 <= j < i ==> !reset_match(people[j], email, token)
}

/// Find the first record with the given email address.
pub fn find_by_email(people: &Vec<User>, email: &String) -> (r: Option<usize>)
    ensures
        match r {
            Some(i) => is_first_email_match(people@, email@, i as int),
            None => !email_taken(people@, email@),
        },
{
    let n = people.len();
    let mut i: usize = 0;
    while i < n
        invariant
            0 <= i <= n,
            n == people@.len(),
            forall|j: int| 0 <= j < i ==> people@[j].email@ != email@,
        decreases n - i,
    {
        if people[i].email.eq(email) {
            return Some(i);
        }
        i = i + 1;
    }
    None
}

/// Find the first record with the given username.
pub fn find_by_username(people: &Vec<User>, username: &String) -> (r: Option<usize>)
    ensures
        match r {
            Some(i) => is_first_username_match(people@, username@, i as int),
            None => !username_taken(people@, username@),
        },
{
    let n = people.len();
    let mut i: usize = 0;
    while i < n
        invariant
            0 <= i <= n,
            n == people@.len(),
            forall|j: int| 0 <= j < i ==> people@[j].username@ != username@,
        decreases n - i,
    {
        if people[i].username.eq(username) {
            return Some(i);
        }
        i = i + 1;
    }
    None
}

/// Find the first record carrying both this email and this pending
/// verification token.
pub fn find_reset_match(people: &Vec<User>, email: &String, token: &String) -> (r: Option<usize>)
    ensures
        match r {
            Some(i) => is_first_reset_match(people@, email@, token@, i as int),
            None => !reset_taken(people@, email@, token@),
        },
{
    let n = people.len();
    let mut i: usize = 0;
    while i < n
        invariant
            0 <= i <= n,
            n == people@.len(),
            forall|j: int| 0 <= j < i ==> !reset_match(people@[j], email@, token@),
        decreases n - i,
    {
        if people[i].email.eq(email) {
            match &people[i].verification_code {
                Some(c) => {
                    if c.eq(token) {
                        return Some(i);
                    }
                },
                None => {},
            }
        }
        i = i + 1;
    }
    None
}

/// Replacing a record with one carrying the same email keeps the emails
/// unique.
pub proof fn lemma_update_same_email_keeps_unique(people: Seq<User>, i: int, u: User)
    requires
        emails_unique(people),
        0 <= i < people.len(),
        u.email@ == people[i].email@,
    ensures
        emails_unique(people.update(i, u)),
{
    let post = people.update(i, u);
    assert forall|x: int, y: int| 0 <= x < y < post.len() implies post[x].email@ != post[y].email@ by {
        assert(post[x].email@ == people[x].email@);
        assert(post[y].email@ == people[y].email@);
    }
}

/// Appending a record with a fresh email keeps the emails unique.
pub proof fn lemma_push_fresh_email_keeps_unique(people: Seq<User>, u: User)
    requires
        emails_unique(people),
        !email_taken(people, u.email@),
    ensures
        emails_unique(people.push(u)),
{
    let post = people.push(u);
    assert forall|i: int, j: int| 0 <= i < j < post.len() implies post[i].email@ != post[j].email@ by {
        if j < people.len() {
            assert(post[i] == people[i] && post[j] == people[j]);
        } else {
            assert(post[j] == u && post[i] == people[i]);
        }
    }
}

/// Whether an email is taken in a directory grown by one record.
pub proof fn lemma_email_taken_push(people: Seq<User>, u: User, email: Seq<char>)
    ensures
        email_taken(people.push(u), email) <==> (email_taken(people, email) || u.email@ == email),
{
    let post = people.push(u);
    if email_taken(post, email) {
        let i = choose|i: int| 0 <= i < post.len() && post[i].email@ == email;
        if i < people.len() {
            assert(people[i].email@ == email);
        } else {
            assert(post[i] == u);
        }
    }
    if email_taken(people, email) {
        let i = choose|i: int| 0 <= i < people.len() && people[i].email@ == email;
        assert(post[i].email@ == email);
    }
    if u.email@ == email {
        assert(post[people.len() as int].email@ == email);
    }
}

/// The directory after a batch of signups, each appending its record.
pub open spec fn push_all(pre: Seq<User>, added: Seq<User>) -> Seq<User>
    decreases added.len(),
{
    if added.len() == 0 {
        pre
    } else {
        push_all(pre.push(added[0]), added.skip(1))
    }
}

/// No signup is lost: a batch of signups with pairwise-distinct emails,
/// all fresh for the starting directory, leaves exactly one record per
/// signup in the directory, every record of the starting directory still
/// in place, and the emails unique. Since each successful signup also
/// increments `total_records` by one, a batch of N signups against an
/// empty directory ends with N records and a count of N.
pub proof fn lemma_distinct_signups_all_recorded(pre: Seq<User>, added: Seq<User>)
    requires
        emails_unique(pre),
        forall|i: int, j: int|
            0 <= i < j < added.len() ==> (#[trigger] added[i].email@) != (#[trigger] added[j].email@),
        forall|i: int| 0 <= i < added.len() ==> !email_taken(pre, #[trigger] added[i].email@),
    ensures
        push_all(pre, added).len() == pre.len() + added.len(),
        emails_unique(push_all(pre, added)),
        forall|k: int| 0 <= k < pre.len() ==> push_all(pre, added)[k] == pre[k],
        forall|k: int| 0 <= k < added.len() ==> push_all(pre, added)[pre.len() + k] == added[k],
    decreases added.len(),
{
    if added.len() > 0 {
        let u0 = added[0];
        let pre2 = pre.push(u0);
        let rest = added.skip(1);
        lemma_push_fresh_email_keeps_unique(pre, u0);
        assert forall|i: int| 0 <= i < rest.len() implies !email_taken(
            pre2,
            #[trigger] rest[i].email@,
        ) by {
            assert(rest[i] == added[i + 1]);
            assert(!email_taken(pre, added[i + 1].email@));
            assert(added[0].email@ != added[i + 1].email@);
            lemma_email_taken_push(pre, u0, added[i + 1].email@);
        }
        assert forall|i: int, j: int| 0 <= i < j < rest.len() implies (
        #[trigger] rest[i].email@) != (#[trigger] rest[j].email@) by {
            assert(rest[i] == added[i + 1]);
            assert(rest[j] == added[j + 1]);
        }
        lemma_distinct_signups_all_recorded(pre2, rest);
        assert(push_all(pre, added) == push_all(pre2, rest));
        assert forall|k: int| 0 <= k < pre.len() implies push_all(pre, added)[k] == pre[k] by {
            assert(push_all(pre2, rest)[k] == pre2[k]);
            assert(pre2[k] == pre[k]);
        }
        assert forall|k: int| 0 <= k < added.len() implies push_all(pre, added)[pre.len() + k]
            == added[k] by {
            if k == 0 {
                assert(push_all(pre2, rest)[pre.len() as int] == pre2[pre.len() as int]);
            } else {
                assert(push_all(pre2, rest)[pre2.len() + (k - 1)] == rest[k - 1]);
                assert(rest[k - 1] == added[k]);
            }
        }
    }
}

} // verus!
