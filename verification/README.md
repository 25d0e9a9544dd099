# finance_tracker

A small personal finance tracker: users record income and expense
transactions in categories and see a monthly dashboard.

- `src/` is the verified library (Verus): money formatting in cents, the
  monthly summary and its category groups, month names and the averaging
  period, sign-in, registration and password changes (argon2), the OAuth
  sign-in decisions, and the account binding tool's messages.
- `tests/` exercises the library on concrete values.
- `app/` is the web server around it (axum, SQLite through sqlx, sessions,
  OAuth HTTP calls, HTML rendering) and the `migrate-account` command.
