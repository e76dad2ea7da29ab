use zen_auth::login::login;
use zen_auth::login::LoginRequest;
use zen_auth::model::User;
use zen_auth::model::UserData;
use zen_auth::signup::signup;

const COST: u32 = 4;
const NOW: usize = 4_000_000_000;

fn secret() -> Vec<u8> {
    b"test-signing-secret".to_vec()
}

fn req(name: &str, username: &str, password: &str, email: &str) -> User {
    User {
        name: name.to_string(),
        username: username.to_string(),
        password: password.to_string(),
        email: email.to_string(),
        verification_code: None,
    }
}

#[test]
fn signup_rejects_blank_email_first() {
    let mut data = UserData::new();
    let r = signup(&mut data, &req("", "", "", ""), COST, &secret(), NOW);
    assert_eq!(r.status_code, 400);
    assert_eq!(r.message, "Email cannot be empty");
    assert!(r.token.is_none());
    assert_eq!(data.people.len(), 0);
    assert_eq!(data.total_records, 0);
}

#[test]
fn signup_rejects_blank_password_second() {
    let mut data = UserData::new();
    let r = signup(&mut data, &req("", "", "   ", "a@x.com"), COST, &secret(), NOW);
    assert_eq!(r.status_code, 400);
    assert_eq!(r.message, "Password cannot be empty");
}

#[test]
fn signup_rejects_blank_name_third() {
    let mut data = UserData::new();
    let r = signup(&mut data, &req(" \t ", "", "pw", "a@x.com"), COST, &secret(), NOW);
    assert_eq!(r.status_code, 400);
    assert_eq!(r.message, "Name cannot be empty");
}

#[test]
fn signup_rejects_blank_username_last() {
    let mut data = UserData::new();
    let r = signup(&mut data, &req("df", "\n", "pw", "a@x.com"), COST, &secret(), NOW);
    assert_eq!(r.status_code, 400);
    assert_eq!(r.message, "UserName cannot be empty");
}

#[test]
fn signup_creates_record_and_hashes_password() {
    let mut data = UserData::new();
    let r = signup(&mut data, &req("df", "zen", "lang", "a@x.com"), COST, &secret(), NOW);
    assert_eq!(r.status_code, 201);
    assert_eq!(r.message, "User created successfully");
    assert!(r.token.is_some());
    assert_eq!(data.people.len(), 1);
    assert_eq!(data.total_records, 1);
    assert_eq!(data.people[0].email, "a@x.com");
    assert_eq!(data.people[0].username, "zen");
    assert_eq!(data.people[0].name, "df");
    // the stored credential is a bcrypt hash, never the plaintext
    assert_ne!(data.people[0].password, "lang");
    assert!(data.people[0].password.starts_with("$2"));
    assert!(data.people[0].verification_code.is_none());
}

#[test]
fn signup_conflict_leaves_store_unchanged() {
    let mut data = UserData::new();
    let r1 = signup(&mut data, &req("df", "zen", "lang", "a@x.com"), COST, &secret(), NOW);
    assert_eq!(r1.status_code, 201);
    let stored_hash = data.people[0].password.clone();
    let r2 = signup(&mut data, &req("other", "name", "pw", "a@x.com"), COST, &secret(), NOW);
    assert_eq!(r2.status_code, 400);
    assert_eq!(r2.message, "A user with this email already exists");
    assert!(r2.token.is_none());
    assert_eq!(data.people.len(), 1);
    assert_eq!(data.total_records, 1);
    assert_eq!(data.people[0].password, stored_hash);
    assert_eq!(data.people[0].username, "zen");
}

#[test]
fn distinct_signups_are_all_recorded() {
    let mut data = UserData::new();
    let emails = ["a@x.com", "b@x.com", "c@x.com", "d@x.com"];
    for (k, email) in emails.iter().enumerate() {
        let r = signup(&mut data, &req("n", "u", "pw", email), COST, &secret(), NOW);
        assert_eq!(r.status_code, 201);
        assert_eq!(data.people.len(), k + 1);
        assert_eq!(data.total_records, (k + 1) as i32);
    }
    for (k, email) in emails.iter().enumerate() {
        assert_eq!(data.people[k].email, *email);
    }
}

#[test]
fn login_with_correct_password_succeeds() {
    let mut data = UserData::new();
    signup(&mut data, &req("df", "zen", "lang", "a@x.com"), COST, &secret(), NOW);
    let r = login(
        &data,
        &LoginRequest { email: "a@x.com".to_string(), password: "lang".to_string() },
        &secret(),
        NOW,
    );
    assert_eq!(r.status_code, 200);
    assert_eq!(r.message, "Login successful");
    assert!(r.token.is_some());
}

#[test]
fn login_with_wrong_password_is_rejected() {
    let mut data = UserData::new();
    signup(&mut data, &req("df", "zen", "lang", "a@x.com"), COST, &secret(), NOW);
    let r = login(
        &data,
        &LoginRequest { email: "a@x.com".to_string(), password: "wrong".to_string() },
        &secret(),
        NOW,
    );
    assert_eq!(r.status_code, 401);
    assert_eq!(r.message, "Invalid password.");
    assert!(r.token.is_none());
}

#[test]
fn login_with_unknown_email_is_not_found() {
    let data = UserData::new();
    let r = login(
        &data,
        &LoginRequest { email: "a@x.com".to_string(), password: "lang".to_string() },
        &secret(),
        NOW,
    );
    assert_eq!(r.status_code, 404);
    assert_eq!(r.message, "User not found.");
    assert!(r.token.is_none());
}
