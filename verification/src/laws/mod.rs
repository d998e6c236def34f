//! What the library promises, stated apart from how its parts are defined: each
//! law relates what goes in to what comes out, in terms of the values alone.

pub mod client;
pub mod endpoint;
pub mod install;
pub mod manager;
pub mod metadata;
pub mod path;
pub mod process;
pub mod script;
pub mod service;
pub mod text;
pub mod tools;
pub mod uninstall;
