use gemstone::chain::{Chain, ChainAddress};
use gemstone::registry::{
    merge_balance_results, AggregateError, Asset, AssetBalance, AssetsChainProvider, ChainAdapter,
    ChainError, ChainProviders,
};

struct StubAdapter {
    fail: bool,
    asset_ids: Vec<&'static str>,
}

impl ChainAdapter for StubAdapter {
    fn get_token_data(&self, token_id: String) -> Result<Asset, ChainError> {
        if self.fail {
            Err(ChainError { message: "adapter down".to_string() })
        } else {
            Ok(Asset {
                id: token_id.clone(),
                chain: Chain::Ethereum,
                token_id: Some(token_id),
                name: "Token".to_string(),
                symbol: "TOK".to_string(),
                decimals: 18,
            })
        }
    }

    fn get_balances(&self, _address: String) -> Result<Vec<AssetBalance>, ChainError> {
        if self.fail {
            Err(ChainError { message: "adapter down".to_string() })
        } else {
            Ok(self
                .asset_ids
                .iter()
                .map(|id| AssetBalance { asset_id: id.to_string(), balance: "1".to_string() })
                .collect())
        }
    }
}

fn three_chain_provider(failing: Option<Chain>) -> AssetsChainProvider<StubAdapter> {
    let entries = vec![
        (
            Chain::Ethereum,
            StubAdapter { fail: failing == Some(Chain::Ethereum), asset_ids: vec!["eth"] },
        ),
        (
            Chain::Solana,
            StubAdapter { fail: failing == Some(Chain::Solana), asset_ids: vec!["sol", "usdc"] },
        ),
        (Chain::Xrp, StubAdapter { fail: failing == Some(Chain::Xrp), asset_ids: vec!["xrp"] }),
    ];
    AssetsChainProvider::new(ChainProviders::new(entries))
}

fn requests() -> Vec<ChainAddress> {
    vec![
        ChainAddress { chain: Chain::Ethereum, address: "0xabc".to_string() },
        ChainAddress { chain: Chain::Solana, address: "sol1".to_string() },
        ChainAddress { chain: Chain::Xrp, address: "rXyz".to_string() },
    ]
}

#[test]
fn balances_flatten_in_input_order() {
    let provider = three_chain_provider(None);
    let balances = provider.get_assets_balances(requests()).unwrap();
    let ids: Vec<&str> = balances.iter().map(|b| b.asset_id.as_str()).collect();
    assert_eq!(ids, vec!["eth", "sol", "usdc", "xrp"]);
}

#[test]
fn one_failing_chain_fails_the_whole_query() {
    let provider = three_chain_provider(Some(Chain::Solana));
    match provider.get_assets_balances(requests()) {
        Err(AggregateError::ChainFailure { chain, error }) => {
            assert_eq!(chain, Chain::Solana);
            assert_eq!(error.message, "adapter down");
        },
        other => panic!("unexpected outcome: {:?}", other),
    }
}

#[test]
fn unregistered_chain_is_unsupported() {
    let provider = three_chain_provider(None);
    let mut reqs = requests();
    reqs.push(ChainAddress { chain: Chain::Bitcoin, address: "bc1".to_string() });
    match provider.get_assets_balances(reqs) {
        Err(AggregateError::UnsupportedChain(chain)) => assert_eq!(chain, Chain::Bitcoin),
        other => panic!("unexpected outcome: {:?}", other),
    }
}

#[test]
fn get_token_data_routes_by_chain() {
    let provider = three_chain_provider(None);
    let asset = provider.get_token_data(Chain::Ethereum, "0xdead".to_string()).unwrap();
    assert_eq!(asset.id, "0xdead");
    match provider.get_token_data(Chain::Aptos, "0x1".to_string()) {
        Err(AggregateError::UnsupportedChain(chain)) => assert_eq!(chain, Chain::Aptos),
        other => panic!("unexpected outcome: {:?}", other),
    }
}

#[test]
fn merge_keeps_first_error() {
    let outcomes = vec![
        Ok(vec![AssetBalance { asset_id: "a".to_string(), balance: "1".to_string() }]),
        Err(AggregateError::UnsupportedChain(Chain::Aptos)),
        Err(AggregateError::UnsupportedChain(Chain::Bitcoin)),
    ];
    match merge_balance_results(outcomes) {
        Err(AggregateError::UnsupportedChain(chain)) => assert_eq!(chain, Chain::Aptos),
        other => panic!("unexpected outcome: {:?}", other),
    }
}

#[test]
fn merge_of_empty_fanout_is_empty() {
    let merged = merge_balance_results(vec![]).unwrap();
    assert!(merged.is_empty());
}
