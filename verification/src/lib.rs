//! Core logic of a minimal mailing-list subscription service: layered
//! configuration resolution, validation of untrusted form input, and the
//! request-to-persistence decision pipeline, each with a verified contract.
//! The surrounding HTTP transport and database driver are collaborators that
//! this crate only decides for.

pub mod configuration;
pub mod fresh;
pub mod harness;
pub mod response;
pub mod routes;
pub mod telemetry;
pub mod text;
