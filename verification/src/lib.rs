//! Verified core of a command-line client for the cjdns admin interface:
//! connection options, logger level choice, route resolution through a
//! session or a supernode, admin-log rendering and process exit status.

pub mod text;
pub mod args;
pub mod route;
pub mod log;
pub mod exit;
