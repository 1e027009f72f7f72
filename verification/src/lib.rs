//! Runtime core of a feature-flag SDK for server applications: the analytics
//! event pipeline, the migration engine, and the builders that configure how
//! flag data is received.

pub mod client_entity;
pub mod command_params;
pub mod context_builders;
pub mod data_source;
pub mod data_source_builders;
pub mod events;
pub mod interval;
pub mod migration;
pub mod migrator;
pub mod seq_lemmas;
pub mod service_endpoints;
pub mod text;
