//! The records the tracker keeps: users, categories and transactions.

use vstd::prelude::*;

use crate::text::{cents_to_text, lemma_money_text_reads_back, shows_money};

verus! {

/// A registered account. `password_hash` is the argon2 PHC string of its
/// password.
#[derive(Clone, Debug)]
pub struct User {
    pub id: i64,
    pub username: String,
    pub password_hash: String,
}

/// A user's category; `c_type` is `"INCOME"` or `"EXPENSE"`.
#[derive(Clone, Debug)]
pub struct Category {
    pub id: i64,
    pub name: String,
    pub c_type: String,
}

/// A recorded transaction. `amount` is in cents; `date` is `YYYY-MM-DD`.
#[derive(Clone, Debug)]
pub struct Transaction {
    pub id: i64,
    pub amount: i64,
    pub date: String,
    pub description: String,
    pub category_id: i64,
}

/// A transaction joined with the name and type of its category.
#[derive(Clone, Debug)]
pub struct TransactionDetail {
    pub id: i64,
    pub amount: i64,
    pub date: String,
    pub description: String,
    pub category_name: String,
    pub c_type: String,
}

impl TransactionDetail {
    /// The amount in units with two decimals (`1234` cents is `"12.34"`).
    pub fn formatted_amount(&self) -> (s: String)
        ensures
            shows_money(s@, self.amount as int),
    {
        proof {
            lemma_money_text_reads_back(self.amount as int);
        }
        cents_to_text(self.amount)
    }
}

} // verus!
