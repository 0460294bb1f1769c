//! A verified core for a procedural-language bridge: it lets a relational
//! host engine invoke functions whose bodies are written in PRQL, marshals
//! values between the host's dynamically-typed cells and a closed set of
//! native kinds, materializes query results into table, column or scalar
//! shape, and streams them back through the host's re-entrant multi-call
//! protocol.

pub mod anydatum;
pub mod err;
pub mod fun;
pub mod plprql;
pub mod spi;
pub mod srf;
pub mod text;
