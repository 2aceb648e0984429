//! The chain-provider registry: one adapter per supported chain, and the
//! multi-chain aggregator that issues one balance query per
//! (chain, address) pair and merges the outcomes all-or-nothing.

use vstd::prelude::*;
use crate::chain::{Chain, ChainAddress};

verus! {

/// Token metadata as an adapter reports it.
#[derive(Debug)]
pub struct Asset {
    pub id: String,
    pub chain: Chain,
    pub token_id: Option<String>,
    pub name: String,
    pub symbol: String,
    pub decimals: i32,
}

/// One per-asset balance, keyed by the asset it belongs to.
#[derive(Debug)]
pub struct AssetBalance {
    pub asset_id: String,
    pub balance: String,
}

/// A failure reported by one chain's adapter.
#[derive(Debug)]
pub struct ChainError {
    pub message: String,
}

/// A failure of a registry operation. The chain at fault is always
/// carried in the value, so callers can diagnose partial outages.
#[derive(Debug)]
pub enum AggregateError {
    /// No adapter is registered for the chain.
    UnsupportedChain(Chain),
    /// The chain's adapter failed.
    ChainFailure { chain: Chain, error: ChainError },
}

/// One chain's adapter: chain-scoped queries backed by a protocol client.
/// Implementations live with each chain's response models; nothing is
/// promised of their outcomes.
pub trait ChainAdapter {
    /// Token metadata for one token id on this adapter's chain.
    fn get_token_data(&self, token_id: String) -> Result<Asset, ChainError>;

    /// The balances held by one address on this adapter's chain.
    fn get_balances(&self, address: String) -> Result<Vec<AssetBalance>, ChainError>;
}

/// The registry proper: a chain-to-adapter table, built once at startup
/// and read-only afterwards.
pub struct ChainProviders<A: ChainAdapter> {
    providers: Vec<(Chain, A)>,
}

impl<A: ChainAdapter> ChainProviders<A> {
    /// The chains the registry holds an adapter for, in registration
    /// order.
    pub closed spec fn spec_chains(self) -> Seq<Chain> {
        self.providers@.map_values(|p: (Chain, A)| p.0)
    }

    /// Whether some adapter is registered for `chain`.
    pub open spec fn has_adapter(self, chain: Chain) -> bool {
        self.spec_chains().contains(chain)
    }

    /// A registry over the given (chain, adapter) entries.
    pub fn new(providers: Vec<(Chain, A)>) -> (r: Self)
        ensures
            r.spec_chains() == providers@.map_values(|p: (Chain, A)| p.0),
    {
        ChainProviders { providers }
    }

    /// The first adapter registered for `chain`, if any.
    fn find(&self, chain: Chain) -> (r: Option<&A>)
        ensures
            r is Some <==> self.has_adapter(chain),
    {
        let n = self.providers.len();
        let mut i: usize = 0;
        while i < n
            invariant
                n == self.providers@.len(),
                i <= n,
                forall|j: int| 0 <= j < i ==> self.spec_chains()[j] != chain,
            decreases n - i,
        {
            if self.providers[i].0 == chain {
                proof {
                    assert(self.spec_chains()[i as int] == chain);
                    assert(self.spec_chains().contains(chain));
                }
                return Some(&self.providers[i].1);
            }
            i = i + 1;
        }
        proof {
            assert(forall|j: int|
                0 <= j < self.spec_chains().len() ==> self.spec_chains()[j] != chain);
        }
        None
    }

    /// Token metadata for `token_id`, routed to the single adapter for
    /// `chain`: fails with `UnsupportedChain` exactly when no adapter is
    /// registered, and otherwise carries any adapter failure as a
    /// `ChainFailure` of that chain.
    pub fn get_token_data(&self, chain: Chain, token_id: String) -> (r: Result<
        Asset,
        AggregateError,
    >)
        ensures
            !self.has_adapter(chain) ==> r == Err::<Asset, AggregateError>(
                AggregateError::UnsupportedChain(chain),
            ),
            self.has_adapter(chain) ==> (r is Ok || (r matches Err(
                AggregateError::ChainFailure { chain: c, error: _ },
            ) && c == chain)),
    {
        match self.find(chain) {
            Some(adapter) => match adapter.get_token_data(token_id) {
                Ok(asset) => Ok(asset),
                Err(error) => Err(AggregateError::ChainFailure { chain, error }),
            },
            None => Err(AggregateError::UnsupportedChain(chain)),
        }
    }

    /// The balances of `address` on `chain`, routed like
    /// [`Self::get_token_data`].
    pub fn get_assets_balances(&self, chain: Chain, address: String) -> (r: Result<
        Vec<AssetBalance>,
        AggregateError,
    >)
        ensures
            !self.has_adapter(chain) ==> r == Err::<Vec<AssetBalance>, AggregateError>(
                AggregateError::UnsupportedChain(chain),
            ),
            self.has_adapter(chain) ==> (r is Ok || (r matches Err(
                AggregateError::ChainFailure { chain: c, error: _ },
            ) && c == chain)),
    {
        match self.find(chain) {
            Some(adapter) => match adapter.get_balances(address) {
                Ok(balances) => Ok(balances),
                Err(error) => Err(AggregateError::ChainFailure { chain, error }),
            },
            None => Err(AggregateError::UnsupportedChain(chain)),
        }
    }
}

/// The per-query result lists of a sequence of outcomes; a failed query
/// contributes the empty list.
pub open spec fn ok_lists(
    outcomes: Seq<Result<Vec<AssetBalance>, AggregateError>>,
) -> Seq<Seq<AssetBalance>> {
    outcomes.map_values(
        |o: Result<Vec<AssetBalance>, AggregateError>|
            match o {
                Ok(v) => v@,
                Err(_) => Seq::<AssetBalance>::empty(),
            },
    )
}

/// The lists written one after the other, in order.
pub open spec fn flat_balances(lists: Seq<Seq<AssetBalance>>) -> Seq<AssetBalance>
    decreases lists.len(),
{
    if lists.len() == 0 {
        Seq::empty()
    } else {
        flat_balances(lists.drop_last()) + lists.last()
    }
}

/// The all-or-nothing join of a fan-out: when every query succeeded, the
/// per-query lists flattened in the order the queries were issued; when
/// any failed, exactly the first failure, unchanged.
#[verifier::loop_isolation(false)]
pub fn merge_balance_results(outcomes: Vec<Result<Vec<AssetBalance>, AggregateError>>) -> (r:
    Result<Vec<AssetBalance>, AggregateError>)
    ensures
        r is Ok <==> (forall|i: int| 0 <= i < outcomes@.len() ==> #[trigger] outcomes@[i] is Ok),
        r matches Ok(v) ==> v@ == flat_balances(ok_lists(outcomes@)),
        r matches Err(e) ==> exists|j: int|
            {
                &&& 0 <= j < outcomes@.len()
                &&& #[trigger] outcomes@[j] == Err::<Vec<AssetBalance>, AggregateError>(e)
                &&& forall|k: int| 0 <= k < j ==> #[trigger] outcomes@[k] is Ok
            },
{
    let ghost orig = outcomes@;
    let total = outcomes.len();
    let mut rest = outcomes;
    let mut acc: Vec<AssetBalance> = Vec::new();
    let mut i: usize = 0;
    while i < total
        invariant
            total == orig.len(),
            i <= total,
            rest@ == orig.subrange(i as int, total as int),
            forall|k: int| 0 <= k < i ==> #[trigger] orig[k] is Ok,
            acc@ == flat_balances(ok_lists(orig.subrange(0, i as int))),
        decreases total - i,
    {
        let o = rest.remove(0);
        proof {
            assert(o == orig[i as int]);
            assert(rest@ =~= orig.subrange(i + 1, total as int));
        }
        match o {
            Ok(mut list) => {
                acc.append(&mut list);
                proof {
                    let pre = ok_lists(orig.subrange(0, i as int));
                    let cur = ok_lists(orig.subrange(0, i + 1));
                    assert(orig.subrange(0, i + 1).drop_last() =~= orig.subrange(0, i as int));
                    assert(cur.drop_last() =~= pre);
                    assert(acc@ =~= flat_balances(cur));
                }
            },
            Err(e) => {
                proof {
                    assert(orig[i as int] == Err::<Vec<AssetBalance>, AggregateError>(e));
                    assert(!(orig[i as int] is Ok));
                    assert(exists|j: int|
                        {
                            &&& 0 <= j < orig.len()
                            &&& #[trigger] orig[j] == Err::<Vec<AssetBalance>, AggregateError>(e)
                            &&& forall|k: int| 0 <= k < j ==> #[trigger] orig[k] is Ok
                        });
                }
                return Err(e);
            },
        }
        i = i + 1;
    }
    proof {
        assert(orig.subrange(0, total as int) =~= orig);
    }
    Ok(acc)
}

/// The aggregation surface over the registry: chain-scoped metadata
/// lookups, and the concurrent multi-chain balance fan-out.
pub struct AssetsChainProvider<A: ChainAdapter> {
    providers: ChainProviders<A>,
}

impl<A: ChainAdapter> AssetsChainProvider<A> {
    /// The registry this surface routes through.
    pub closed spec fn spec_providers(self) -> ChainProviders<A> {
        self.providers
    }

    /// Whether an adapter is registered for `chain`.
    pub open spec fn supports(self, chain: Chain) -> bool {
        self.spec_providers().has_adapter(chain)
    }

    /// A surface over the given registry.
    pub fn new(providers: ChainProviders<A>) -> (r: Self)
        ensures
            r.spec_providers() == providers,
    {
        AssetsChainProvider { providers }
    }

    /// Token metadata for `token_id` on `chain`, routed to that chain's
    /// adapter.
    pub fn get_token_data(&self, chain: Chain, token_id: String) -> (r: Result<
        Asset,
        AggregateError,
    >)
        ensures
            !self.supports(chain) ==> r == Err::<Asset, AggregateError>(
                AggregateError::UnsupportedChain(chain),
            ),
            self.supports(chain) ==> (r is Ok || (r matches Err(
                AggregateError::ChainFailure { chain: c, error: _ },
            ) && c == chain)),
    {
        self.providers.get_token_data(chain, token_id)
    }

    /// One balance query per requested (chain, address) pair. Every query
    /// is issued; the outcomes are joined all-or-nothing, so the call
    /// succeeds exactly when every query succeeded, and then returns the
    /// per-query balances flattened in input order. A failure carries the
    /// chain at fault: the first failing query's chain.
    #[verifier::loop_isolation(false)]
    pub fn get_assets_balances(&self, requests: Vec<ChainAddress>) -> (r: Result<
        Vec<AssetBalance>,
        AggregateError,
    >)
        ensures
            r is Ok ==> forall|i: int|
                0 <= i < requests@.len() ==> self.supports(#[trigger] requests@[i].chain),
            (exists|i: int|
                0 <= i < requests@.len() && !self.supports(#[trigger] requests@[i].chain)) ==> r
                is Err,
            r matches Err(AggregateError::UnsupportedChain(c)) ==> !self.supports(c) && (exists|
                i: int,
            | 0 <= i < requests@.len() && #[trigger] requests@[i].chain == c),
            r matches Err(AggregateError::ChainFailure { chain: c, error: _ }) ==> exists|i: int|
                0 <= i < requests@.len() && #[trigger] requests@[i].chain == c,
    {
        let n = requests.len();
        let mut outcomes: Vec<Result<Vec<AssetBalance>, AggregateError>> = Vec::new();
        let mut i: usize = 0;
        while i < n
            invariant
                n == requests@.len(),
                i <= n,
                outcomes@.len() == i,
                forall|j: int|
                    0 <= j < i ==> (#[trigger] outcomes@[j] is Ok ==> self.supports(
                        requests@[j].chain,
                    )),
                forall|j: int|
                    0 <= j < i ==> !self.supports(requests@[j].chain) ==> #[trigger] outcomes@[j]
                        == Err::<Vec<AssetBalance>, AggregateError>(
                        AggregateError::UnsupportedChain(requests@[j].chain),
                    ),
                forall|j: int|
                    0 <= j < i ==> ((#[trigger] outcomes@[j]) matches Err(e) ==> (
                    e matches AggregateError::UnsupportedChain(c) ==> c == requests@[j].chain
                        && !self.supports(c)) && (e matches AggregateError::ChainFailure {
                        chain: c,
                        error: _,
                    } ==> c == requests@[j].chain)),
            decreases n - i,
        {
            let req = &requests[i];
            let outcome = self.providers.get_assets_balances(req.chain, req.address.clone());
            outcomes.push(outcome);
            i = i + 1;
        }
        let ghost outs = outcomes@;
        proof {
            assert(forall|j: int|
                0 <= j < outs.len() ==> (#[trigger] outs[j] is Ok ==> self.supports(
                    requests@[j].chain,
                )));
            assert(forall|j: int|
                0 <= j < outs.len() ==> ((#[trigger] outs[j]) matches Err(e) ==> (
                e matches AggregateError::UnsupportedChain(c) ==> c == requests@[j].chain
                    && !self.supports(c)) && (e matches AggregateError::ChainFailure {
                    chain: c,
                    error: _,
                } ==> c == requests@[j].chain)));
        }
        let r = merge_balance_results(outcomes);
        proof {
            match &r {
                Ok(_) => {
                    assert(forall|j: int| 0 <= j < outs.len() ==> #[trigger] outs[j] is Ok);
                    assert forall|j: int|
                        0 <= j < requests@.len() implies self.supports(
                        #[trigger] requests@[j].chain,
                    ) by {
                        assert(outs[j] is Ok);
                    }
                },
                Err(e) => {
                    let j = choose|j: int|
                        {
                            &&& 0 <= j < outs.len()
                            &&& #[trigger] outs[j] == Err::<Vec<AssetBalance>, AggregateError>(*e)
                            &&& forall|k: int| 0 <= k < j ==> #[trigger] outs[k] is Ok
                        };
                    assert(outs[j] == Err::<Vec<AssetBalance>, AggregateError>(*e));
                    assert(0 <= j < requests@.len());
                },
            }
        }
        r
    }
}

} // verus!
