//! Two small services and their composition.

pub mod bounded;
pub mod combined;
pub mod greeter;
pub mod math;
pub mod salutation;
