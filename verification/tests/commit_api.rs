use zen_auth::change_password::change_password_commit;
use zen_auth::model::User;
use zen_auth::model::UserData;
use zen_auth::reset_password::reset_password_commit;
use zen_auth::signup::signup_commit;

fn record(username: &str, email: &str, code: Option<&str>) -> User {
    User {
        name: "n".to_string(),
        username: username.to_string(),
        password: "$2b$04$stored-hash".to_string(),
        email: email.to_string(),
        verification_code: code.map(str::to_string),
    }
}

#[test]
fn signup_commit_appends_the_given_hash_and_token() {
    let mut data = UserData::new();
    let r = signup_commit(
        &mut data,
        &record("zen", "a@x.com", None),
        "the-hash".to_string(),
        "the-token".to_string(),
    );
    assert_eq!(r.status_code, 201);
    assert_eq!(r.token.as_deref(), Some("the-token"));
    assert_eq!(data.people[0].password, "the-hash");
    assert_eq!(data.total_records, 1);
}

#[test]
fn signup_commit_rejects_a_taken_email() {
    let mut data = UserData::new();
    data.people.push(record("zen", "a@x.com", None));
    data.total_records = 1;
    let r = signup_commit(
        &mut data,
        &record("other", "a@x.com", None),
        "h".to_string(),
        "t".to_string(),
    );
    assert_eq!(r.status_code, 400);
    assert_eq!(r.message, "A user with this email already exists");
    assert_eq!(data.people.len(), 1);
    assert_eq!(data.total_records, 1);
}

#[test]
fn reset_commit_stores_hash_and_clears_token() {
    let mut data = UserData::new();
    data.people.push(record("zen", "a@x.com", Some("v-token")));
    data.total_records = 1;
    let r = reset_password_commit(
        &mut data,
        &"a@x.com".to_string(),
        &"v-token".to_string(),
        "new-hash".to_string(),
    );
    assert_eq!(r.status_code, 200);
    assert_eq!(data.people[0].password, "new-hash");
    assert!(data.people[0].verification_code.is_none());
}

#[test]
fn reset_commit_requires_both_email_and_token_to_match() {
    let mut data = UserData::new();
    data.people.push(record("zen", "a@x.com", Some("v-token")));
    data.total_records = 1;
    let r = reset_password_commit(
        &mut data,
        &"b@x.com".to_string(),
        &"v-token".to_string(),
        "new-hash".to_string(),
    );
    assert_eq!(r.status_code, 400);
    assert_eq!(data.people[0].password, "$2b$04$stored-hash");
}

#[test]
fn change_commit_updates_first_matching_username() {
    let mut data = UserData::new();
    data.people.push(record("zen", "a@x.com", None));
    data.people.push(record("zen", "b@x.com", None));
    data.total_records = 2;
    let r = change_password_commit(&mut data, &"zen".to_string(), "new-hash".to_string());
    assert_eq!(r.status_code, 200);
    assert_eq!(data.people[0].password, "new-hash");
    assert_eq!(data.people[1].password, "$2b$04$stored-hash");
}

#[test]
fn change_commit_with_unknown_username() {
    let mut data = UserData::new();
    data.people.push(record("zen", "a@x.com", None));
    data.total_records = 1;
    let r = change_password_commit(&mut data, &"ghost".to_string(), "new-hash".to_string());
    assert_eq!(r.status_code, 404);
    assert_eq!(r.message, "User not found.");
    assert_eq!(data.people[0].password, "$2b$04$stored-hash");
}
