pub mod blink;
pub mod laws;
