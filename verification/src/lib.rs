//! A crypto-currency wallet web application's logic: account registration,
//! login with bcrypt-hashed passwords and random session tokens, account
//! changes, the pages that need a logged-in user, and the wallet's summary.
//!
//! Each request handler is a flow: it names the outside work it needs
//! (cookies, database) as an `Action`, takes its outcome back as an `Event`,
//! and decides the next step until it answers with a `Response`.

pub mod text;
pub mod validation;
pub mod models;
pub mod lookup;
pub mod password;
pub mod token;
pub mod numparse;
pub mod wallet;
pub mod pages;
pub mod protocol;
pub mod session;
pub mod login;
pub mod register;
pub mod account;
pub mod page_flow;
