//! Core of a command-line client for a medical-imaging archive: it decides
//! which requests to send, and turns the archive's replies into records,
//! payloads or diagnostics. Transport, files and printing stay with the caller.

pub mod diagnostic;
pub mod request;
pub mod hierarchy;
pub mod transform;
pub mod text;
pub mod modality;
pub mod connection;
pub mod laws;
