//! Code generation for service traits.
//!
//! A service is declared as a trait whose name ends in `Service`. From it
//! come the request and response enums, the clients, the dispatch functions
//! and the serve loops.

pub mod args;
pub mod casing;
pub mod emit;
pub mod faults;
pub mod laws;
pub mod parse;
pub mod phrases;
pub mod service;
pub mod syntax;
pub mod tokens;
