//! Building blocks of a Language Server Protocol framework whose decisions are
//! proved: documents and position conversion, the capability catalog, handler
//! registration, request registries, queue admission and the lifecycle of both
//! endpoints of a connection.
use vstd::prelude::*;

pub mod builder;
pub mod capability;
pub mod capability_laws;
pub mod catalog_laws;
pub mod client;
pub mod client_endpoint;
pub mod client_engine;
pub mod client_progress;
pub mod codec;
pub mod connection_laws;
pub mod context;
pub mod dispatcher;
pub mod dispatcher_laws;
pub mod document_laws;
pub mod documents;
pub mod engine;
pub mod engine_laws;
pub mod engine_runs;
pub mod error;
pub mod failure;
pub mod features;
pub mod json;
pub mod message;
pub mod options;
pub mod outbound;
pub mod params;
pub mod peer_laws;
pub mod progress;
pub mod resource_policy;
pub mod rope;
pub mod router_laws;
pub mod server_laws;
pub mod session;
pub mod step;
pub mod table;
pub mod text;
pub mod units;
pub mod uri_key;
pub mod uri_laws;
pub mod value_laws;

verus! {

} // verus!
