//! Verified core logic of a Rust binding for the Playdate handheld console's C API.
//!
//! The device calls themselves live outside this crate; what stands here is the logic that
//! decides what those calls receive and what their results mean.

pub mod allocator;
pub mod api;
pub mod callback_builder;
pub mod callbacks;
pub mod cstring;
pub mod error;
pub mod files;
pub mod geometry;
pub mod graphics;
pub mod inputs;
pub mod menu;
pub mod null_terminated;
pub mod sound;
