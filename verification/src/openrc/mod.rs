//! The Runner service on OpenRC hosts (Alpine Linux and others): choosing the
//! service manager, rendering the init script, and installing, controlling,
//! inspecting and removing the service. OpenRC knows only the system scope.

pub mod control;
pub mod course;
pub mod effects;
pub mod install;
pub mod logs;
pub mod manager;
pub mod plan;
pub mod script;
pub mod status;
pub mod tools;
pub mod uninstall;
