//! Verified core of the AEZARX bookstore backend: request validation,
//! access rules, one-time tokens, session tokens, catalogue paging,
//! cart and checkout arithmetic, and the outgoing e-mail texts.
pub mod text;
pub mod error;
pub mod clock;
pub mod ids;
pub mod tokens;
pub mod json;
pub mod jwt;
pub mod guard;
pub mod models;
pub mod email;
pub mod accounts;
pub mod profile;
pub mod paging;
pub mod news;
pub mod catalog;
pub mod shop;
