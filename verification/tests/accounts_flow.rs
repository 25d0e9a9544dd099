use finance_tracker::accounts::{
    admin_seed, check_session, hash_new_password, login_page, login_step, password_change_reply,
    password_change_step, profile_page, register_page, registration, registration_reply, resolve_user,
    signed_in_reply, AdminSeed, AuthCheck, LoginStep, ProfileStep,
};
use finance_tracker::forms::{LoginForm, RegisterForm, UpdateProfileForm};
use finance_tracker::models::User;
use finance_tracker::reply::Reply;

fn user_with_hash(hash: &str) -> User {
    User { id: 7, username: "alice".to_string(), password_hash: hash.to_string() }
}

fn login(user: Option<User>, password: &str) -> LoginStep {
    let form = LoginForm { username: "alice".to_string(), password: password.to_string() };
    login_step(user, &form)
}

#[test]
fn registered_password_signs_in() {
    let form = RegisterForm { username: "alice".to_string(), password: "s3cret".to_string() };
    let new_user = match registration(&form) {
        Ok(u) => u,
        Err(_) => panic!("hashing failed"),
    };
    assert_eq!(new_user.username, "alice");
    assert_ne!(new_user.password_hash, "s3cret");
    assert!(new_user.password_hash.starts_with("$argon2"));
    let user = user_with_hash(&new_user.password_hash);
    assert!(matches!(login(Some(user.clone()), "s3cret"), LoginStep::SignIn(7)));
    match login(Some(user), "wrong") {
        LoginStep::Respond(Reply::Login(t)) => {
            assert!(!t.logged_in);
            assert_eq!(t.error.as_deref(), Some("Invalid username or password"));
        }
        _ => panic!("expected the sign-in page"),
    }
}

#[test]
fn unknown_user_is_refused() {
    match login(None, "whatever") {
        LoginStep::Respond(Reply::Login(t)) => {
            assert_eq!(t.error.as_deref(), Some("Invalid username or password"))
        }
        _ => panic!("expected the sign-in page"),
    }
}

#[test]
fn stored_hash_that_is_not_phc_is_a_server_error() {
    let user = user_with_hash("plain-text");
    assert!(matches!(login(Some(user), "plain-text"), LoginStep::Respond(Reply::Status(500))));
}

#[test]
fn two_hashes_of_one_password_differ_but_both_verify() {
    let a = match hash_new_password("pw") {
        Ok(h) => h,
        Err(_) => panic!("hashing failed"),
    };
    let b = match hash_new_password("pw") {
        Ok(h) => h,
        Err(_) => panic!("hashing failed"),
    };
    assert_ne!(a, b);
    assert!(matches!(login(Some(user_with_hash(&a)), "pw"), LoginStep::SignIn(_)));
    assert!(matches!(login(Some(user_with_hash(&b)), "pw"), LoginStep::SignIn(_)));
}

#[test]
fn password_change_requires_current_password() {
    let hash = match hash_new_password("old") {
        Ok(h) => h,
        Err(_) => panic!("hashing failed"),
    };
    let user = user_with_hash(&hash);
    let wrong = UpdateProfileForm { current_password: "nope".to_string(), new_password: "new".to_string() };
    match password_change_step(&user, &wrong) {
        ProfileStep::Respond(Reply::Profile(t)) => {
            assert!(t.logged_in);
            assert_eq!(t.username, "alice");
            assert_eq!(t.error.as_deref(), Some("Incorrect current password"));
            assert!(t.success.is_none());
        }
        _ => panic!("expected the profile page with an error"),
    }
    let right = UpdateProfileForm { current_password: "old".to_string(), new_password: "new".to_string() };
    match password_change_step(&user, &right) {
        ProfileStep::Store { user_id, password_hash } => {
            assert_eq!(user_id, 7);
            let changed = user_with_hash(&password_hash);
            assert!(matches!(login(Some(changed.clone()), "new"), LoginStep::SignIn(7)));
            assert!(matches!(login(Some(changed), "old"), LoginStep::Respond(Reply::Login(_))));
        }
        _ => panic!("expected a new hash"),
    }
    match password_change_reply(&user, true) {
        Reply::Profile(t) => assert_eq!(t.success.as_deref(), Some("Password updated successfully")),
        _ => panic!("expected the profile page"),
    }
    assert!(matches!(password_change_reply(&user, false), Reply::Status(500)));
}

#[test]
fn password_change_with_broken_stored_hash_is_an_error() {
    let user = user_with_hash("not a phc string");
    let form = UpdateProfileForm { current_password: "x".to_string(), new_password: "y".to_string() };
    assert!(matches!(password_change_step(&user, &form), ProfileStep::Respond(Reply::Status(500))));
}

#[test]
fn default_admin_account() {
    assert!(matches!(admin_seed(true), AdminSeed::Present));
    match admin_seed(false) {
        AdminSeed::Create(u) => {
            assert_eq!(u.username, "admin");
            assert!(matches!(login(Some(user_with_hash(&u.password_hash)), "admin"), LoginStep::SignIn(_)));
        }
        _ => panic!("expected the admin account"),
    }
}

#[test]
fn registration_answers() {
    assert!(matches!(registration_reply(true), Reply::Redirect(p) if p == "/login"));
    match registration_reply(false) {
        Reply::Register(t) => assert_eq!(t.error.as_deref(), Some("Username already exists")),
        _ => panic!("expected the registration page"),
    }
    assert!(matches!(signed_in_reply(true), Reply::Redirect(p) if p == "/"));
    assert!(matches!(signed_in_reply(false), Reply::Status(500)));
}

#[test]
fn session_checks() {
    assert!(matches!(check_session(true, Ok(Some(3))), AuthCheck::LoadUser(3)));
    assert!(matches!(check_session(true, Ok(None)), AuthCheck::Reject(Reply::Redirect(p)) if p == "/login"));
    assert!(matches!(check_session(true, Err(())), AuthCheck::Reject(Reply::Redirect(p)) if p == "/login"));
    assert!(matches!(
        check_session(false, Ok(Some(3))),
        AuthCheck::Reject(Reply::StatusText(500, m)) if m == "Failed to get session"
    ));
    let u = user_with_hash("h");
    assert!(matches!(resolve_user(Ok(Some(u))), Ok(a) if a.0.id == 7));
    assert!(matches!(resolve_user(Ok(None)), Err(Reply::Redirect(p)) if p == "/login"));
    assert!(matches!(resolve_user(Err(())), Err(Reply::StatusText(500, m)) if m == "Database error"));
}

#[test]
fn empty_pages() {
    let l = login_page();
    assert!(!l.logged_in && l.error.is_none());
    let r = register_page();
    assert!(!r.logged_in && r.error.is_none());
    let p = profile_page(&user_with_hash("h"));
    assert!(p.logged_in && p.username == "alice" && p.error.is_none() && p.success.is_none());
}

#[test]
fn long_and_unicode_passwords_register() {
    let long = "p".repeat(10000);
    for pw in ["", "päßwörd ✓", long.as_str()] {
        let form = RegisterForm { username: "bob".to_string(), password: pw.to_string() };
        match registration(&form) {
            Ok(u) => assert!(matches!(login(Some(user_with_hash(&u.password_hash)), pw), LoginStep::SignIn(_))),
            Err(_) => panic!("registration must hash the password"),
        }
    }
}
