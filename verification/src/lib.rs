//! Verified core of a small text-mode web browser and its host checks.

pub mod text;
pub mod takeover;
pub mod utilts;
pub mod network;
pub mod json;
pub mod ipcheck;
pub mod url_parts;
pub mod search;
pub mod parsar;
pub mod render;
