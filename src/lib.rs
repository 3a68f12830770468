//! To-device events: decoding untyped payloads into a closed set of
//! event kinds, and validating their content.

pub mod event_type;
pub mod identifiers;
pub mod json;
pub mod to_device;
