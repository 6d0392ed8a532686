//! The state of each panel of the console.

pub mod files;
pub mod nav;
pub mod services;
pub mod packages;
pub mod users;
pub mod procs;
pub mod disk;
