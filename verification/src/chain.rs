//! Chain identifiers and the unit of a multi-chain balance query.

use vstd::prelude::*;

verus! {

/// A supported blockchain network. Each chain has its own node endpoint
/// and its own adapter in the provider registry.
#[derive(Clone, Copy, Debug, PartialEq, Eq, Structural)]
pub enum Chain {
    Bitcoin,
    Ethereum,
    SmartChain,
    Solana,
    Xrp,
    Aptos,
}

/// One unit of a fan-out balance request: an address on one chain.
#[derive(Debug)]
pub struct ChainAddress {
    pub chain: Chain,
    pub address: String,
}

} // verus!
