//! What each page shows. The HTML rendering of these views is done by the
//! web front end; the values themselves are computed by the library.

use vstd::prelude::*;

use crate::models::{Category, Transaction, TransactionDetail};

verus! {

/// The monthly overview page.
pub struct DashboardTemplate {
    pub logged_in: bool,
    pub selected_month: String,
    pub total_income: String,
    pub total_expense: String,
    pub avg_expense: String,
    pub net_balance: String,
    pub groups: Vec<CategoryGroup>,
}

/// The transactions of one category in the selected month, with their total.
pub struct CategoryGroup {
    pub category_name: String,
    pub category_type: String,
    pub total: String,
    pub transactions: Vec<TransactionDetail>,
}

/// The form for recording a new transaction.
pub struct AddRecordTemplate {
    pub logged_in: bool,
    pub today: String,
    pub categories: Vec<Category>,
}

/// The form for editing an existing transaction.
pub struct EditRecordTemplate {
    pub logged_in: bool,
    pub transaction: Transaction,
    pub formatted_amount: String,
    pub categories: Vec<Category>,
}

/// The list of a user's categories.
pub struct CategoriesTemplate {
    pub logged_in: bool,
    pub categories: Vec<Category>,
}

/// The sign-in form, with an optional error.
pub struct LoginTemplate {
    pub logged_in: bool,
    pub error: Option<String>,
}

/// The registration form, with an optional error.
pub struct RegisterTemplate {
    pub logged_in: bool,
    pub error: Option<String>,
}

/// The profile page, with an optional error or success notice.
pub struct ProfileTemplate {
    pub logged_in: bool,
    pub username: String,
    pub error: Option<String>,
    pub success: Option<String>,
}

} // verus!
