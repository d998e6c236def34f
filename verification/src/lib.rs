//! The decision logic of WebCodex's Runner service management on OpenRC and of
//! its OAuth dynamic client registration endpoint.

pub mod chars;
pub mod decimal;
pub mod journal;
pub mod laws;
pub mod openrc;
pub mod path;
pub mod process;
pub mod registration;
pub mod text;
