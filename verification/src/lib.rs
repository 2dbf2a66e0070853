//! The decisions behind disk-backed Turso I/O on a CompIO runtime.
//!
//! What this adapter decides is stated and proved here: which
//! requests are admitted and what they are charged, how admitted requests run,
//! in what order the files of a database are opened and closed, and which
//! requests are refused. The code that talks to the kernel, to CompIO and to
//! Turso sits around this crate, asks it what to do and reports what happened.

pub mod adapter;
pub mod bridge;
pub mod budget;
pub mod buffer;
pub mod calls;
pub mod driver;
pub mod error;
pub mod execution;
pub mod file;
pub mod filesystem;
pub mod ledger;
pub mod lifetime;
pub mod native;
pub mod opening;
pub mod options;
pub mod order;
pub mod staging;
pub mod text;
pub mod transfer;

pub use native::check_native_filesystem_support;
pub use options::Options;
