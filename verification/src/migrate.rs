//! Binding an OAuth identity to an existing account from the command line.

use vstd::prelude::*;

use crate::text::{signed_decimal, signed_decimal_text};

verus! {

/// How the binding tool ends: a message, the stream it goes to, and the exit code.
pub struct MigrateExit {
    pub message: String,
    pub to_stderr: bool,
    pub code: i32,
}

/// What the tool does once it looked for the account.
pub enum MigrateStep {
    /// The account exists: bind the identity to it.
    Bind(i64),
    Finish(MigrateExit),
}

pub open spec fn is_exit(x: MigrateExit, message: Seq<char>, to_stderr: bool, code: i32) -> bool {
    x.message@ == message && x.to_stderr == to_stderr && x.code == code
}

/// The end of the tool when the database cannot be opened.
pub fn connect_failed() -> (x: MigrateExit)
    ensures
        is_exit(x, "Failed to connect to the database. Ensure 'finance.db' exists."@, true, 1),
{
    MigrateExit {
        message: "Failed to connect to the database. Ensure 'finance.db' exists.".to_owned(),
        to_stderr: true,
        code: 1,
    }
}

/// The next step after looking for the account `requested_id`; a failed lookup
/// carries the database's message.
pub fn after_lookup(requested_id: i64, lookup: Result<Option<i64>, String>) -> (s: MigrateStep)
    ensures
        match lookup {
            Ok(Some(uid)) => s == MigrateStep::Bind(uid),
            Ok(None) => (s matches MigrateStep::Finish(x) && is_exit(
                x,
                "Error: User with ID "@ + signed_decimal(requested_id as int) + " not found."@,
                true,
                1,
            )),
            Err(e) => (s matches MigrateStep::Finish(x) && is_exit(
                x,
                "Database error while searching for user: "@ + e@,
                true,
                1,
            )),
        },
{
    match lookup {
        Ok(Some(uid)) => MigrateStep::Bind(uid),
        Ok(None) => {
            let mut m = "Error: User with ID ".to_owned();
            let id = signed_decimal_text(requested_id);
            m.append(id.as_str());
            m.append(" not found.");
            MigrateStep::Finish(MigrateExit { message: m, to_stderr: true, code: 1 })
        },
        Err(e) => {
            let mut m = "Database error while searching for user: ".to_owned();
            m.append(e.as_str());
            MigrateStep::Finish(MigrateExit { message: m, to_stderr: true, code: 1 })
        },
    }
}

/// The end of the tool after binding `provider_id` of `provider` to `user_id`.
pub fn after_bind(user_id: i64, provider: &str, provider_id: &str, bound: Result<(), String>) -> (x: MigrateExit)
    ensures
        match bound {
            Ok(_) => is_exit(
                x,
                "Successfully bound user ID "@ + signed_decimal(user_id as int) + " to "@ + provider@ + " ID '"@
                    + provider_id@ + "'."@,
                false,
                0,
            ),
            Err(e) => is_exit(x, "Failed to bind account: "@ + e@, true, 1),
        },
{
    match bound {
        Ok(_) => {
            let mut m = "Successfully bound user ID ".to_owned();
            let id = signed_decimal_text(user_id);
            m.append(id.as_str());
            m.append(" to ");
            m.append(provider);
            m.append(" ID '");
            m.append(provider_id);
            m.append("'.");
            MigrateExit { message: m, to_stderr: false, code: 0 }
        },
        Err(e) => {
            let mut m = "Failed to bind account: ".to_owned();
            m.append(e.as_str());
            MigrateExit { message: m, to_stderr: true, code: 1 }
        },
    }
}

} // verus!
