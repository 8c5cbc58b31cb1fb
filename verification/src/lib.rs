//! A diagnostic rule engine for game-launcher logs: free-form log text is
//! held against two ordered batteries of known failure signatures (build
//! provenance and configuration mistakes), and every match is resolved to a
//! remediation message through an immutable response registry.

pub mod checks;
pub mod engine;
pub mod pattern;
pub mod responses;

pub use engine::common_mistakes;
pub use engine::common_origins;
pub use engine::diagnose;
