//! What the exported functions share.

pub mod ffi;
