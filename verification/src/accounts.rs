//! Accounts: who is signed in, signing in, registering, and changing a password.

use vstd::prelude::*;

use crate::forms::{LoginForm, RegisterForm, UpdateProfileForm};
use crate::models::User;
use crate::password::{
    hash_password, lemma_utf8_len_bound, new_salt, password_hashable, spec_password_verifies, spec_phc_parses,
    verify_password,
};
use crate::reply::{is_login_page, is_profile_page, is_redirect_to, is_register_page, is_status, is_status_text, redirect_to, Reply};
use crate::templates::{LoginTemplate, ProfileTemplate, RegisterTemplate};

verus! {

/// The signed-in user of a request.
pub struct AuthUser(pub User);

/// The first step of finding the signed-in user: the session.
pub enum AuthCheck {
    /// Look up the user with this id.
    LoadUser(i64),
    /// The request is answered without a user.
    Reject(Reply),
}

/// What the session says about the signed-in user: `session_ok` is whether the
/// session could be opened, `stored` what reading its user id gave.
pub fn check_session(session_ok: bool, stored: Result<Option<i64>, ()>) -> (c: AuthCheck)
    ensures
        !session_ok ==> (c matches AuthCheck::Reject(r) && is_status_text(r, 500, "Failed to get session"@)),
        session_ok ==> match stored {
            Ok(Some(id)) => c == AuthCheck::LoadUser(id),
            _ => (c matches AuthCheck::Reject(r) && is_redirect_to(r, "/login"@)),
        },
{
    if !session_ok {
        return AuthCheck::Reject(Reply::StatusText(500, "Failed to get session".to_owned()));
    }
    match stored {
        Ok(Some(id)) => AuthCheck::LoadUser(id),
        _ => AuthCheck::Reject(redirect_to("/login")),
    }
}

/// The signed-in user, from the lookup of the session's user id.
pub fn resolve_user(lookup: Result<Option<User>, ()>) -> (r: Result<AuthUser, Reply>)
    ensures
        match lookup {
            Ok(Some(u)) => (r matches Ok(a) && a.0 == u),
            Ok(None) => (r matches Err(x) && is_redirect_to(x, "/login"@)),
            Err(_) => (r matches Err(x) && is_status_text(x, 500, "Database error"@)),
        },
{
    match lookup {
        Ok(Some(u)) => Ok(AuthUser(u)),
        Ok(None) => Err(redirect_to("/login")),
        Err(_) => Err(Reply::StatusText(500, "Database error".to_owned())),
    }
}

/// The sign-in page as first shown.
pub fn login_page() -> (t: LoginTemplate)
    ensures
        !t.logged_in,
        t.error.is_none(),
{
    LoginTemplate { logged_in: false, error: None }
}

/// The registration page as first shown.
pub fn register_page() -> (t: RegisterTemplate)
    ensures
        !t.logged_in,
        t.error.is_none(),
{
    RegisterTemplate { logged_in: false, error: None }
}

/// The profile page of `user`.
pub fn profile_page(user: &User) -> (t: ProfileTemplate)
    ensures
        t.logged_in,
        t.username@ == user.username@,
        t.error.is_none(),
        t.success.is_none(),
{
    ProfileTemplate { logged_in: true, username: user.username.clone(), error: None, success: None }
}

/// The sign-in page after a refused attempt.
pub open spec fn is_login_refused(r: Reply) -> bool {
    is_login_page(r, Some("Invalid username or password"@))
}

/// Whether signing in to `user` with `password` is accepted: the account exists,
/// its stored hash is a PHC string, and it verifies the password.
pub open spec fn login_accepts(user: Option<User>, password: Seq<char>) -> bool {
    user matches Some(u) && spec_phc_parses(u.password_hash@) && spec_password_verifies(password, u.password_hash@)
}

/// A password signs in to an account whose stored hash was made from it: what
/// `registration`, `password_change_step` and `admin_seed` store lets that
/// password pass `login_step`.
pub proof fn lemma_stored_hash_signs_in(id: i64, username: String, password_hash: String, password: Seq<char>)
    requires
        spec_phc_parses(password_hash@),
        spec_password_verifies(password, password_hash@),
    ensures
        login_accepts(Some(User { id, username, password_hash }), password),
{
}

/// What a sign-in attempt leads to.
pub enum LoginStep {
    /// The password is right: open a session for this user.
    SignIn(i64),
    Respond(Reply),
}

/// Decides a sign-in attempt, given the account found under the submitted
/// username. It succeeds exactly when the account exists and its stored hash
/// verifies the submitted password; a stored hash that is not a PHC string (such
/// as one that does not start with `$`) is a server error.
pub fn login_step(user: Option<User>, form: &LoginForm) -> (s: LoginStep)
    ensures
        (s is SignIn) == login_accepts(user, form.password@),
        user matches Some(u) && (u.password_hash@.len() == 0 || u.password_hash@[0] != '$') ==> (
        s matches LoginStep::Respond(r) && is_status(r, 500)),
        match user {
            None => (s matches LoginStep::Respond(r) && is_login_refused(r)),
            Some(u) => if !spec_phc_parses(u.password_hash@) {
                (s matches LoginStep::Respond(r) && is_status(r, 500))
            } else if spec_password_verifies(form.password@, u.password_hash@) {
                s == LoginStep::SignIn(u.id)
            } else {
                (s matches LoginStep::Respond(r) && is_login_refused(r))
            },
        },
{
    match user {
        None => LoginStep::Respond(login_refused()),
        Some(u) => match verify_password(form.password.as_str(), u.password_hash.as_str()) {
            None => LoginStep::Respond(Reply::Status(500)),
            Some(true) => LoginStep::SignIn(u.id),
            Some(false) => LoginStep::Respond(login_refused()),
        },
    }
}

fn login_refused() -> (r: Reply)
    ensures
        is_login_refused(r),
{
    Reply::Login(LoginTemplate { logged_in: false, error: Some("Invalid username or password".to_owned()) })
}

/// The answer once the session of a signed-in user was (or failed to be) saved.
pub fn signed_in_reply(saved: bool) -> (r: Reply)
    ensures
        saved ==> is_redirect_to(r, "/"@),
        !saved ==> is_status(r, 500),
{
    if saved {
        redirect_to("/")
    } else {
        Reply::Status(500)
    }
}

/// The answer to signing out once the session was (or failed to be) deleted.
pub fn signed_out_reply(deleted: bool) -> (r: Reply)
    ensures
        deleted ==> is_redirect_to(r, "/login"@),
        !deleted ==> is_status(r, 500),
{
    if deleted {
        redirect_to("/login")
    } else {
        Reply::Status(500)
    }
}

/// A new PHC string for `password`, hashed with a fresh random salt. Only a
/// password over `0xFFFF_FFFF` bytes can fail to hash, which is a server error.
pub fn hash_new_password(password: &str) -> (r: Result<String, Reply>)
    ensures
        password_hashable(password@) ==> r is Ok,
        r matches Ok(h) ==> spec_phc_parses(h@) && spec_password_verifies(password@, h@),
        r matches Err(x) ==> is_status(x, 500),
{
    let salt = new_salt();
    match hash_password(password, salt.as_str()) {
        Some(h) => Ok(h),
        None => Err(Reply::Status(500)),
    }
}

/// An account to create: its username and the hash of its password.
pub struct NewUser {
    pub username: String,
    pub password_hash: String,
}

/// The account a registration asks for, with its password hashed.
pub fn registration(form: &RegisterForm) -> (r: Result<NewUser, Reply>)
    ensures
        password_hashable(form.password@) ==> r is Ok,
        r matches Ok(u) ==> u.username@ == form.username@ && spec_phc_parses(u.password_hash@)
            && spec_password_verifies(form.password@, u.password_hash@),
        r matches Err(x) ==> is_status(x, 500),
{
    let h = hash_new_password(form.password.as_str())?;
    Ok(NewUser { username: form.username.clone(), password_hash: h })
}

/// The answer to a registration: to the sign-in page when the account was
/// created, the form again when the username is taken.
pub fn registration_reply(created: bool) -> (r: Reply)
    ensures
        created ==> is_redirect_to(r, "/login"@),
        !created ==> is_register_page(r, Some("Username already exists"@)),
{
    if created {
        redirect_to("/login")
    } else {
        Reply::Register(RegisterTemplate { logged_in: false, error: Some("Username already exists".to_owned()) })
    }
}

/// What a password change leads to.
pub enum ProfileStep {
    /// Store this hash as the user's password.
    Store { user_id: i64, password_hash: String },
    Respond(Reply),
}

/// Decides a password change of `user`: it goes ahead exactly when the current
/// password is verified, and then stores a hash of the new password (a new
/// password over `0xFFFF_FFFF` bytes cannot be hashed and is a server error).
pub fn password_change_step(user: &User, form: &UpdateProfileForm) -> (s: ProfileStep)
    ensures
        !spec_phc_parses(user.password_hash@) ==> (s matches ProfileStep::Respond(r) && is_status(r, 500)),
        spec_phc_parses(user.password_hash@) && !spec_password_verifies(form.current_password@, user.password_hash@)
            ==> (s matches ProfileStep::Respond(r) && is_profile_page(
            r,
            user.username@,
            Some("Incorrect current password"@),
            None,
        )),
        spec_phc_parses(user.password_hash@) && spec_password_verifies(form.current_password@, user.password_hash@)
            ==> match s {
                ProfileStep::Store { user_id, password_hash } => user_id == user.id && spec_phc_parses(password_hash@)
                    && spec_password_verifies(form.new_password@, password_hash@),
                ProfileStep::Respond(r) => is_status(r, 500),
            },
        spec_phc_parses(user.password_hash@) && spec_password_verifies(form.current_password@, user.password_hash@)
            && password_hashable(form.new_password@) ==> s is Store,
{
    match verify_password(form.current_password.as_str(), user.password_hash.as_str()) {
        None => ProfileStep::Respond(Reply::Status(500)),
        Some(false) => ProfileStep::Respond(
            Reply::Profile(
                ProfileTemplate {
                    logged_in: true,
                    username: user.username.clone(),
                    error: Some("Incorrect current password".to_owned()),
                    success: None,
                },
            ),
        ),
        Some(true) => match hash_new_password(form.new_password.as_str()) {
            Ok(h) => ProfileStep::Store { user_id: user.id, password_hash: h },
            Err(r) => ProfileStep::Respond(r),
        },
    }
}

/// The answer once the new hash was (or failed to be) stored.
pub fn password_change_reply(user: &User, stored: bool) -> (r: Reply)
    ensures
        !stored ==> is_status(r, 500),
        stored ==> is_profile_page(r, user.username@, None, Some("Password updated successfully"@)),
{
    if stored {
        Reply::Profile(
            ProfileTemplate {
                logged_in: true,
                username: user.username.clone(),
                error: None,
                success: Some("Password updated successfully".to_owned()),
            },
        )
    } else {
        Reply::Status(500)
    }
}

/// What setting up the database does about the default account.
pub enum AdminSeed {
    /// An `admin` account exists already.
    Present,
    /// Create this account.
    Create(NewUser),
}

/// The default account `admin` with password `admin`, created when missing.
pub fn admin_seed(admin_exists: bool) -> (s: AdminSeed)
    ensures
        admin_exists ==> s == AdminSeed::Present,
        !admin_exists ==> (s matches AdminSeed::Create(u) && u.username@ == "admin"@ && spec_phc_parses(
            u.password_hash@,
        ) && spec_password_verifies("admin"@, u.password_hash@)),
{
    if admin_exists {
        return AdminSeed::Present;
    }
    proof {
        reveal_strlit("admin");
        lemma_utf8_len_bound("admin"@);
    }
    match hash_new_password("admin") {
        Ok(h) => AdminSeed::Create(NewUser { username: "admin".to_owned(), password_hash: h }),
        // Not reached: "admin" is five bytes long, so it always hashes.
        Err(_) => AdminSeed::Present,
    }
}

} // verus!
