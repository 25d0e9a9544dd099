//! Verified core of a small personal finance tracker: money formatting,
//! monthly dashboard aggregation, account and password decisions, and the
//! OAuth sign-in flow. The web server, the database and the HTTP calls live
//! outside this library; everything that decides or computes lives here.

pub mod text;
pub mod models;
pub mod templates;
pub mod dashboard;
pub mod months;
pub mod password;
pub mod forms;
pub mod reply;
pub mod accounts;
pub mod oauth;
pub mod pages;
pub mod migrate;
pub mod clock;
