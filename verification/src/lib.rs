//! Value-level core of the Helio C API: handles, actor ids, the numeric codes
//! that C callers pass for modes and settings, and the decisions the API makes
//! on them. Everything here is plain data; the GPU-facing entry points that
//! dereference raw pointers live in the application crate.

pub mod types;
pub mod actor;
pub mod cstr;
pub mod bootstrap;
pub mod codes;
pub mod editor;
pub mod result;
pub mod renderer;
pub mod handles;
pub mod scene;
