//! A credential broker for OAuth2 accounts: the account store, the token
//! freshness rule, the two grant requests and the classification of the
//! token endpoint's answers.

pub mod error;
pub mod persist;
pub mod store_laws;
pub mod wire;
pub mod exchange;
pub mod runner;
