//! Verified core of the AuthFS, CompOS and VM tooling: option parsing, file
//! pool assembly, and the decisions the compilation services make around
//! their outside calls.

pub mod intparse;
pub mod text;
pub mod options;
pub mod file_pool;
pub mod binder_status;
pub mod compsvc;
pub mod composd;
pub mod vm;
