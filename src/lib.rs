//! Small numeric helpers meant to be exposed to a host runtime: a generic
//! three-component vector, and the text that the host-facing calls emit.
pub mod bridge;
pub mod decimal;
pub mod vecmath;

pub use bridge::{accept_array_messages, element_line, greet_message, length_notice};
pub use decimal::decimal_string;
pub use vecmath::Vec3;
