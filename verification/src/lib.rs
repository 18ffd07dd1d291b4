//! A typed, state-tracking core for an immediate-mode GL rendering layer.
//!
//! The library owns the decisions of the rendering layer: which GPU commands
//! are issued, in what order, and under which preconditions.  Every GPU call
//! is recorded as a plain [`gl::GlCommand`] value in a command log owned by
//! the [`gl::Gl`] context; an unverified executor outside this crate drains
//! the log and performs the raw driver calls.

pub mod gl;
pub mod resource;
pub mod ui;
