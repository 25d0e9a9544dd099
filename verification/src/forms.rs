//! What the browser sends: query strings and submitted forms.

use vstd::prelude::*;

verus! {

/// The dashboard's query: the month to show, `YYYY-MM`.
pub struct DashboardQuery {
    pub month: Option<String>,
}

/// A new category: its name and its type (`income` or `expense`, any case).
pub struct CreateCategoryForm {
    pub name: String,
    pub c_type: String,
}

/// The sign-in form.
pub struct LoginForm {
    pub username: String,
    pub password: String,
}

/// The registration form.
pub struct RegisterForm {
    pub username: String,
    pub password: String,
}

/// The password change form.
pub struct UpdateProfileForm {
    pub current_password: String,
    pub new_password: String,
}

/// The query with which an OAuth provider returns to the callback.
pub struct AuthRequest {
    pub code: String,
    pub state: String,
}

} // verus!
