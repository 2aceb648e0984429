//! Networking core of a multi-chain data-aggregation backend: a
//! transport-agnostic JSON-RPC client (envelope construction, response
//! discrimination, single and batched calls over a pluggable transport)
//! and a chain-provider registry that fans one logical query out across
//! per-chain adapters and merges the results.

pub mod chain;
pub mod explorer;
pub mod json;
pub mod jsonrpc;
pub mod registry;
pub mod search;
pub mod target;
pub mod text;
pub mod xrp;
