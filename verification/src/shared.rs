//! Pieces shared by every source: error types, string helpers, the common
//! field decoders, and the snapshot path conventions.

pub(crate) mod clock;
pub mod consistency;
pub mod dates;
pub mod deserializers;
pub mod errors;
pub mod numbers;
pub mod strutil;
pub mod traits;
