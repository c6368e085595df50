//! Verified core of the Tajagi composer: transform modes and prompts, the
//! streaming/cancellation state machine, API-key stores and their migration,
//! the transform settings commands, and the composer commit rules.

pub mod text;
pub mod transform;
pub mod settings;
pub mod secret;
pub mod commands;
