//! Persisted-settings core for a desktop dictation application.
//!
//! The library owns the settings record (hotkey bindings, audio and
//! provider choices, prompt customization), the case-insensitive and
//! order-insensitive hotkey equality rule with its conflict validator,
//! and the JSON codec that mirrors the record to durable storage.
//! File and lock handling around the store live outside the library;
//! every operation here is pure computation over plain values.

pub mod chars;
pub mod codec;
pub mod hotkey;
pub mod json;
pub mod render;
pub mod round_trip;
pub mod settings;
pub mod store;
pub mod validate;
