//! The outside services that the backend asks.

pub mod gemini;
