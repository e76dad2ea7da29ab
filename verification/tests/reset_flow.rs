use zen_auth::login::login;
use zen_auth::login::LoginRequest;
use zen_auth::model::User;
use zen_auth::model::UserData;
use zen_auth::reset_password::reset_password;
use zen_auth::reset_password::ResetPasswordParam;
use zen_auth::send_email::prepare_password_reset;
use zen_auth::send_email::send_email;
use zen_auth::signup::signup;

const COST: u32 = 4;
const NOW: usize = 4_000_000_000;

fn secret() -> Vec<u8> {
    b"test-signing-secret".to_vec()
}

fn store_with_user() -> UserData {
    let mut data = UserData::new();
    let r = signup(
        &mut data,
        &User {
            name: "df".to_string(),
            username: "zen".to_string(),
            password: "lang".to_string(),
            email: "a@x.com".to_string(),
            verification_code: None,
        },
        COST,
        &secret(),
        NOW,
    );
    assert_eq!(r.status_code, 201);
    data
}

#[test]
fn prepare_reset_fails_for_unknown_email() {
    let data = store_with_user();
    let r = prepare_password_reset(&data, &"b@x.com".to_string(), &"https://pw.example".to_string());
    assert!(r.is_none());
}

#[test]
fn prepare_reset_builds_code_and_url() {
    let data = store_with_user();
    let base = "https://pw.example".to_string();
    let (code, url) = prepare_password_reset(&data, &"a@x.com".to_string(), &base).unwrap();
    assert_eq!(code.len(), 100);
    assert!(code.chars().all(|c| c.is_ascii_alphanumeric()));
    assert_eq!(url, format!("https://pw.example/a@x.com/{}", code));
}

#[test]
fn two_prepared_codes_differ() {
    let data = store_with_user();
    let base = "u".to_string();
    let (code1, _) = prepare_password_reset(&data, &"a@x.com".to_string(), &base).unwrap();
    let (code2, _) = prepare_password_reset(&data, &"a@x.com".to_string(), &base).unwrap();
    assert_ne!(code1, code2);
}

#[test]
fn undelivered_email_stores_no_code() {
    let mut data = store_with_user();
    let code = "c0de".to_string();
    let r = send_email(&mut data, &"a@x.com".to_string(), &code, false);
    assert_eq!(r.status_code, 500);
    assert_eq!(r.message, "Failed to send email");
    assert!(data.people[0].verification_code.is_none());
}

#[test]
fn delivered_email_stores_the_code() {
    let mut data = store_with_user();
    let code = "c0de".to_string();
    let r = send_email(&mut data, &"a@x.com".to_string(), &code, true);
    assert_eq!(r.status_code, 200);
    assert_eq!(r.message, "Email sent successfully!");
    assert_eq!(data.people[0].verification_code.as_deref(), Some("c0de"));
}

#[test]
fn send_email_for_unknown_email_is_rejected() {
    let mut data = store_with_user();
    let r = send_email(&mut data, &"b@x.com".to_string(), &"c0de".to_string(), true);
    assert_eq!(r.status_code, 400);
    assert_eq!(r.message, "A user with this email does not exist");
    assert!(data.people[0].verification_code.is_none());
}

#[test]
fn reset_with_wrong_token_is_rejected() {
    let mut data = store_with_user();
    send_email(&mut data, &"a@x.com".to_string(), &"right".to_string(), true);
    let r = reset_password(
        &mut data,
        &ResetPasswordParam {
            email: "a@x.com".to_string(),
            verification_token: "wrong".to_string(),
            new_password: "newpw".to_string(),
        },
        COST,
    );
    assert_eq!(r.status_code, 400);
    assert_eq!(r.message, "A user with this email and verification token does not exist");
    assert_eq!(data.people[0].verification_code.as_deref(), Some("right"));
}

#[test]
fn reset_token_is_single_use() {
    let mut data = store_with_user();
    send_email(&mut data, &"a@x.com".to_string(), &"token1".to_string(), true);
    let param = ResetPasswordParam {
        email: "a@x.com".to_string(),
        verification_token: "token1".to_string(),
        new_password: "newpw".to_string(),
    };
    let r1 = reset_password(&mut data, &param, COST);
    assert_eq!(r1.status_code, 200);
    assert_eq!(r1.message, "Password Reset Successfully!");
    assert!(data.people[0].verification_code.is_none());
    // the very same call again must fail: the token was consumed
    let r2 = reset_password(&mut data, &param, COST);
    assert_eq!(r2.status_code, 400);
}

#[test]
fn end_to_end_signup_login_reset() {
    let mut data = UserData::new();
    let sec = secret();
    let r = signup(
        &mut data,
        &User {
            name: "df".to_string(),
            username: "zen".to_string(),
            password: "lang".to_string(),
            email: "a@x.com".to_string(),
            verification_code: None,
        },
        COST,
        &sec,
        NOW,
    );
    assert_eq!(r.status_code, 201);
    assert!(r.token.is_some());

    let r = login(
        &data,
        &LoginRequest { email: "a@x.com".to_string(), password: "lang".to_string() },
        &sec,
        NOW,
    );
    assert_eq!(r.status_code, 200);
    assert!(r.token.is_some());

    let r = login(
        &data,
        &LoginRequest { email: "a@x.com".to_string(), password: "wrong".to_string() },
        &sec,
        NOW,
    );
    assert_eq!(r.status_code, 401);

    let (code, _url) =
        prepare_password_reset(&data, &"a@x.com".to_string(), &"https://pw.example".to_string())
            .unwrap();
    let r = send_email(&mut data, &"a@x.com".to_string(), &code, true);
    assert_eq!(r.status_code, 200);
    assert_eq!(data.people[0].verification_code.as_deref(), Some(code.as_str()));

    let r = reset_password(
        &mut data,
        &ResetPasswordParam {
            email: "a@x.com".to_string(),
            verification_token: code.clone(),
            new_password: "newpw".to_string(),
        },
        COST,
    );
    assert_eq!(r.status_code, 200);

    let r = login(
        &data,
        &LoginRequest { email: "a@x.com".to_string(), password: "newpw".to_string() },
        &sec,
        NOW,
    );
    assert_eq!(r.status_code, 200);

    let r = reset_password(
        &mut data,
        &ResetPasswordParam {
            email: "a@x.com".to_string(),
            verification_token: code,
            new_password: "again".to_string(),
        },
        COST,
    );
    assert_eq!(r.status_code, 400);
}
