//! Discovery and claim pipeline for groups of a remote platform: the id
//! model, the prober that finds the highest id, the batch and detailed
//! scanner decisions, the claim state machine, and the client-side request
//! protocol (CSRF negotiation and cookie jar).

pub mod api;
pub mod batch;
pub mod claim;
pub mod config;
pub mod constants;
pub mod cookies;
pub mod endpoints;
pub mod groups;
pub mod ids;
pub mod partition;
pub mod prober;
pub mod request;
pub mod status;
pub mod text;
pub mod worker;
