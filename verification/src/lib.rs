//! Tracing of agent runs to Langfuse, and the dialogue that configures a profile.
pub mod call_laws;
pub mod clock;
pub mod configure;
pub mod document_laws;
pub mod events;
pub mod ids;
pub mod ingestion;
pub mod json;
pub mod laws;
pub mod layer;
pub mod model;
pub mod setup_laws;
pub mod step_laws;
pub mod text;
pub mod visitor;
