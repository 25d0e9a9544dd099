//! The pages for transactions and categories, and what creating them means.

use vstd::prelude::*;

use crate::dashboard::MonthSummary;
use crate::forms::CreateCategoryForm;
use crate::models::{Category, Transaction};
use crate::reply::{is_redirect_to, redirect_to, Reply};
use crate::templates::{AddRecordTemplate, CategoriesTemplate, DashboardTemplate, EditRecordTemplate};
use crate::text::{all_ascii, ascii_upper, cents_to_text, lemma_money_text_reads_back, shows_money, spec_to_uppercase, to_uppercase};

verus! {

/// The dashboard of `selected_month` from its figures; `avg_expense` is the
/// average daily expense as already rendered.
pub fn dashboard_page(selected_month: String, summary: MonthSummary, avg_expense: String) -> (t: DashboardTemplate)
    ensures
        t.logged_in,
        t.selected_month == selected_month,
        shows_money(t.total_income@, summary.income_cents as int),
        shows_money(t.total_expense@, summary.expense_cents as int),
        shows_money(t.net_balance@, summary.net_cents as int),
        t.avg_expense == avg_expense,
        t.groups == summary.groups,
{
    proof {
        lemma_money_text_reads_back(summary.income_cents as int);
        lemma_money_text_reads_back(summary.expense_cents as int);
        lemma_money_text_reads_back(summary.net_cents as int);
    }
    DashboardTemplate {
        logged_in: true,
        selected_month,
        total_income: cents_to_text(summary.income_cents),
        total_expense: cents_to_text(summary.expense_cents),
        avg_expense,
        net_balance: cents_to_text(summary.net_cents),
        groups: summary.groups,
    }
}

/// The list of a user's categories.
pub fn categories_page(categories: Vec<Category>) -> (t: CategoriesTemplate)
    ensures
        t.logged_in,
        t.categories == categories,
{
    CategoriesTemplate { logged_in: true, categories }
}

/// The form for a new transaction, dated `today` by default.
pub fn add_record_page(categories: Vec<Category>, today: String) -> (t: AddRecordTemplate)
    ensures
        t.logged_in,
        t.categories == categories,
        t.today == today,
{
    AddRecordTemplate { logged_in: true, today, categories }
}

/// The form for editing `transaction`, its amount shown in units.
pub fn edit_record_page(transaction: Transaction, categories: Vec<Category>) -> (t: EditRecordTemplate)
    ensures
        t.logged_in,
        shows_money(t.formatted_amount@, transaction.amount as int),
        t.transaction == transaction,
        t.categories == categories,
{
    proof {
        lemma_money_text_reads_back(transaction.amount as int);
    }
    let formatted_amount = cents_to_text(transaction.amount);
    EditRecordTemplate { logged_in: true, transaction, formatted_amount, categories }
}

/// Where the user goes after saving a transaction, or when asking to edit one
/// that is not theirs: the dashboard.
pub fn to_dashboard() -> (r: Reply)
    ensures
        is_redirect_to(r, "/"@),
{
    redirect_to("/")
}

/// A category to create.
pub struct NewCategory {
    pub name: String,
    pub c_type: String,
    pub user_id: i64,
}

/// The category a submitted form asks for: the type is upper-cased, so
/// `income` and `Expense` are stored as `INCOME` and `EXPENSE`.
pub fn new_category(form: &CreateCategoryForm, user_id: i64) -> (c: NewCategory)
    ensures
        c.name@ == form.name@,
        c.c_type@ == spec_to_uppercase(form.c_type@),
        all_ascii(form.c_type@) ==> c.c_type@ == ascii_upper(form.c_type@),
        c.user_id == user_id,
{
    NewCategory { name: form.name.clone(), c_type: to_uppercase(form.c_type.as_str()), user_id }
}

/// Where the user goes after creating a category.
pub fn category_created_reply() -> (r: Reply)
    ensures
        is_redirect_to(r, "/categories"@),
{
    redirect_to("/categories")
}

} // verus!
