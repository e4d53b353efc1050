//! Mapping between a provider-neutral chat/embeddings model and the
//! native request and response shapes of the Bedrock provider.
//!
//! `outbound` maps unified requests to provider requests; `inbound` maps
//! provider responses (and stream chunks) to unified responses. Every
//! mapping is a total function whose result is stated exactly in its
//! contract; the `From` impls apply them with `config::MapperConfig`'s
//! placeholder defaults.

pub mod bedrock;
pub mod config;
mod ids;
pub mod inbound;
pub mod outbound;
pub mod text;
pub mod unified;
