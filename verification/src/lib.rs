//! Core of a peer-to-peer node information aggregator: discovery of the
//! nodes to query from cluster metadata, and the fan-out/aggregation
//! protocol over the discovered endpoints.

pub mod annotations;
pub mod config;
pub mod k8s;
pub mod laws;
pub mod route;
pub mod rpc_types;
pub mod service;
pub mod text;
