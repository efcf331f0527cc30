//! Core logic of a spaced-repetition language-learning backend: sessions,
//! accounts, the scheduling of quiz questions, the choice of the next card,
//! and the parsing of the forms that the web front end posts.

pub mod error;
pub mod encoding;
pub mod model;
pub mod session;
pub mod scheduling;
pub mod random;
pub mod quiz;
pub mod decimal;
pub mod form;
pub mod account;
pub mod password;
pub mod text;
pub mod content;
pub mod web;

