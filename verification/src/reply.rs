//! What a request is answered with.

use vstd::prelude::*;

use crate::templates::{LoginTemplate, ProfileTemplate, RegisterTemplate};

verus! {

/// An answer to a request: a redirect, a bare status, a status with a short
/// text, or one of the account pages.
pub enum Reply {
    Redirect(String),
    Status(u16),
    StatusText(u16, String),
    Login(LoginTemplate),
    Register(RegisterTemplate),
    Profile(ProfileTemplate),
}

pub open spec fn is_redirect_to(r: Reply, path: Seq<char>) -> bool {
    r matches Reply::Redirect(p) && p@ == path
}

pub open spec fn is_status(r: Reply, code: u16) -> bool {
    r matches Reply::Status(c) && c == code
}

/// The characters of an optional text.
pub open spec fn opt_text(o: Option<String>) -> Option<Seq<char>> {
    match o {
        Some(s) => Some(s@),
        None => None,
    }
}

/// Whether `r` is the status `code` answered with the text `msg`.
pub open spec fn is_status_text(r: Reply, code: u16, msg: Seq<char>) -> bool {
    r matches Reply::StatusText(c, m) && c == code && m@ == msg
}

/// Whether `r` is the sign-in page with the given error.
pub open spec fn is_login_page(r: Reply, error: Option<Seq<char>>) -> bool {
    r matches Reply::Login(t) && !t.logged_in && opt_text(t.error) == error
}

/// Whether `r` is the registration page with the given error.
pub open spec fn is_register_page(r: Reply, error: Option<Seq<char>>) -> bool {
    r matches Reply::Register(t) && !t.logged_in && opt_text(t.error) == error
}

/// Whether `r` is the profile page of `username` with the given notices.
pub open spec fn is_profile_page(
    r: Reply,
    username: Seq<char>,
    error: Option<Seq<char>>,
    success: Option<Seq<char>>,
) -> bool {
    r matches Reply::Profile(t) && t.logged_in && t.username@ == username && opt_text(t.error) == error
        && opt_text(t.success) == success
}

/// A redirect to `path`.
pub fn redirect_to(path: &str) -> (r: Reply)
    ensures
        is_redirect_to(r, path@),
{
    Reply::Redirect(path.to_owned())
}

} // verus!
