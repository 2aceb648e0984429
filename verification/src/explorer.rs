//! Block-explorer URL templating: pure string formatting over a fixed
//! per-explorer base URL.

use vstd::prelude::*;
use vstd::string::StringExecFns;

verus! {

/// An explorer's display name and base URL.
#[derive(Debug)]
pub struct Metadata {
    pub name: &'static str,
    pub base_url: &'static str,
}

/// The URL templating surface every explorer offers.
pub trait BlockExplorer {
    fn name(&self) -> String;

    fn get_tx_url(&self, hash: &str) -> String;

    fn get_address_url(&self, address: &str) -> String;

    fn get_token_url(&self, token: &str) -> Option<String>;
}

/// The BlockScout family of explorers: one metadata record per deployed
/// instance.
#[derive(Debug)]
pub struct BlockScout {
    pub meta: Metadata,
}

impl BlockScout {
    pub fn new_celo() -> (r: Box<Self>)
        ensures
            r.meta.name@ == "BlockScout"@,
            r.meta.base_url@ == "https://celo.blockscout.com"@,
    {
        Box::new(
            BlockScout {
                meta: Metadata { name: "BlockScout", base_url: "https://celo.blockscout.com" },
            },
        )
    }

    pub fn new_manta() -> (r: Box<Self>)
        ensures
            r.meta.name@ == "Pacific Explorer"@,
            r.meta.base_url@ == "https://pacific-explorer.manta.network"@,
    {
        Box::new(
            BlockScout {
                meta: Metadata {
                    name: "Pacific Explorer",
                    base_url: "https://pacific-explorer.manta.network",
                },
            },
        )
    }

    pub fn new_ink() -> (r: Box<Self>)
        ensures
            r.meta.name@ == "Ink Explorer"@,
            r.meta.base_url@ == "https://explorer.inkonchain.com"@,
    {
        Box::new(
            BlockScout {
                meta: Metadata { name: "Ink Explorer", base_url: "https://explorer.inkonchain.com" },
            },
        )
    }

    pub fn new_hyperliquid() -> (r: Box<Self>)
        ensures
            r.meta.name@ == "BlockScout"@,
            r.meta.base_url@ == "https://hyperliquid.cloud.blockscout.com"@,
    {
        Box::new(
            BlockScout {
                meta: Metadata {
                    name: "BlockScout",
                    base_url: "https://hyperliquid.cloud.blockscout.com",
                },
            },
        )
    }
}

impl BlockExplorer for BlockScout {
    /// The explorer's display name.
    fn name(&self) -> (r: String)
        ensures
            r@ == self.meta.name@,
    {
        self.meta.name.to_owned()
    }

    /// `<base>/tx/<hash>`.
    fn get_tx_url(&self, hash: &str) -> (r: String)
        ensures
            r@ == self.meta.base_url@ + "/tx/"@ + hash@,
    {
        let mut url = self.meta.base_url.to_owned();
        url.append("/tx/");
        url.append(hash);
        url
    }

    /// `<base>/address/<address>`.
    fn get_address_url(&self, address: &str) -> (r: String)
        ensures
            r@ == self.meta.base_url@ + "/address/"@ + address@,
    {
        let mut url = self.meta.base_url.to_owned();
        url.append("/address/");
        url.append(address);
        url
    }

    /// `<base>/token/<token>`.
    fn get_token_url(&self, token: &str) -> (r: Option<String>)
        ensures
            r matches Some(url) && url@ == self.meta.base_url@ + "/token/"@ + token@,
    {
        let mut url = self.meta.base_url.to_owned();
        url.append("/token/");
        url.append(token);
        Some(url)
    }
}

} // verus!
