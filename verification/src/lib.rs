//! Decisions of a launcher for trusted runtimes, of the transport its peers
//! talk over, and of the orchestrator that attests an application.

pub mod attestation;
pub mod channel;
pub mod client;
pub mod launch;
pub mod launcher;
pub mod refresh;
pub mod status;
pub mod tcp;
pub mod transport;
