//! Verified core of a small web service that publishes DNS-01 challenge
//! tokens for registered users.

pub mod models;
pub mod text;
pub mod secrets;
pub mod records;
pub mod accounts;
pub mod zone;
pub mod template;
pub mod pages;
