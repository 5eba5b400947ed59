//! Helpers for numbers, bytes and text.

pub mod bignum;
pub mod convert;
pub mod decimal;
pub mod misc;
pub mod text;
