//! Adapter between the exported signing-device functions of a cash register
//! and the HTTP interface of a remote signature creation unit.
//!
//! The library holds the rules of that adapter: how arguments are decoded,
//! which device a name resolves to, which request an operation sends, and
//! which return code and outputs an answer leads to. Reading files, talking
//! HTTP and touching the caller's memory are left to the code around it.

pub mod atrustapi;
pub mod client;
pub mod config;
pub mod helpers;
pub mod idesscd;
pub mod ini;
pub mod logging;
pub mod text;
