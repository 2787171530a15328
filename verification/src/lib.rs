//! Verified core of a wallet and e-mail sign-in front end: the session
//! cache, the authentication state machine, and the text handling that the
//! pages and wallet calls rely on.

pub mod text;
pub mod address;
pub mod session;
pub mod user;
pub mod auth;
pub mod eth;
pub mod accounts;
pub mod wallet;
pub mod ui;
