//! Runtime bootstrap logic for a desktop shell that supervises three local
//! services: layout discovery, environment composition, launch policy,
//! readiness decisions and the ordered start-up sequence.
pub mod compose;
pub mod env;
pub mod error;
pub mod laws;
pub mod layout;
pub mod paths;
pub mod probe;
pub mod startup;
pub mod text;
