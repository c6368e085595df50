//! The logic behind the commands the composer and settings webviews invoke.

pub mod composer;
pub mod transform;
