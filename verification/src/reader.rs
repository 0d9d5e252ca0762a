//! From the answers of one batch of read-only queries to a state snapshot.
//!
//! The caller issues the queries of [`query_plan`], each against the block
//! that the plan names, and hands the answers to [`assemble_state`]. A batch with a
//! missing answer yields no snapshot at all.

use vstd::prelude::*;
use crate::primitives::{Address, U256};

verus! {

/// Which block a read is evaluated at.
#[derive(Clone, Copy, Debug, PartialEq, Eq, Structural)]
pub enum BlockRef {
    Number(u64),
    Latest,
}

/// What the chain client tells of a block.
#[derive(Clone, Copy, Debug, PartialEq, Eq, Structural)]
pub struct BlockHeader {
    pub number: u64,
    pub timestamp: u64,
}

/// The queries that a state read can be made of.
#[derive(Clone, Copy, Debug, PartialEq, Eq, Structural)]
pub enum Query {
    TotalAssets,
    TotalSupply,
    Rate,
    Asset,
    AToken,
    RewardTokens,
    Header,
}

/// Why a state read yielded no snapshot.
#[derive(Clone, Copy, Debug, PartialEq, Eq, Structural)]
pub enum ReadError {
    /// The named query is the first of the batch that has no answer.
    QueryFailed(Query),
}

/// The part of a snapshot that only the extended variant reads.
#[derive(Clone, Debug, PartialEq, Eq)]
pub struct ExtendedState {
    /// The exchange rate between shares and assets.
    pub rate: U256,
    /// The underlying asset.
    pub asset_address: Address,
    /// The yield-bearing wrapper of the asset.
    pub atoken_address: Address,
    pub reward_tokens: Vec<Address>,
}

/// The vault's aggregate state as of one block.
#[derive(Clone, Debug, PartialEq, Eq)]
pub struct VaultState {
    pub block_number: u64,
    pub timestamp: u64,
    pub total_assets: U256,
    pub total_supply: U256,
    pub extended: Option<ExtendedState>,
}

/// The answers of one batch, `None` where a query failed.
#[derive(Clone, Debug, PartialEq, Eq)]
pub struct StateAnswers {
    pub total_assets: Option<U256>,
    pub total_supply: Option<U256>,
    pub rate: Option<U256>,
    pub asset_address: Option<Address>,
    pub atoken_address: Option<Address>,
    pub reward_tokens: Option<Vec<Address>>,
    pub header: Option<BlockHeader>,
}

impl Query {
    /// The name of the contract method that answers the query. The block
    /// header is no contract call and has none.
    pub open spec fn spec_method_name(self) -> Option<&'static str> {
        match self {
            Query::TotalAssets => Some("totalAssets"),
            Query::TotalSupply => Some("totalSupply"),
            Query::Rate => Some("rate"),
            Query::Asset => Some("asset"),
            Query::AToken => Some("aToken"),
            Query::RewardTokens => Some("rewardTokens"),
            Query::Header => None,
        }
    }

    #[verifier::when_used_as_spec(spec_method_name)]
    pub fn method_name(self) -> (name: Option<&'static str>)
        ensures
            name == self.spec_method_name(),
    {
        match self {
            Query::TotalAssets => Some("totalAssets"),
            Query::TotalSupply => Some("totalSupply"),
            Query::Rate => Some("rate"),
            Query::Asset => Some("asset"),
            Query::AToken => Some("aToken"),
            Query::RewardTokens => Some("rewardTokens"),
            Query::Header => None,
        }
    }
}

/// One query of a batch, with the block that it is to be evaluated at.
#[derive(Clone, Copy, Debug, PartialEq, Eq, Structural)]
pub struct PlannedQuery {
    pub query: Query,
    pub at: BlockRef,
}

/// The fixed batch of a state read, in the order in which it is issued: the
/// two totals, in the extended variant the four further calls, and last the
/// block header for the timestamp.
pub open spec fn spec_plan(extended: bool) -> Seq<Query> {
    if extended {
        seq![
            Query::TotalAssets,
            Query::TotalSupply,
            Query::Rate,
            Query::Asset,
            Query::AToken,
            Query::RewardTokens,
            Query::Header,
        ]
    } else {
        seq![Query::TotalAssets, Query::TotalSupply, Query::Header]
    }
}

/// The queries to issue for one state read, in order. Every one of them is
/// pinned to the same block, so that no answer is of another block than the
/// rest.
pub fn query_plan(block: BlockRef, extended: bool) -> (plan: Vec<PlannedQuery>)
    ensures
        plan@ == spec_plan(extended).map_values(|query: Query| PlannedQuery { query, at: block }),
{
    let mut plan: Vec<PlannedQuery> = Vec::new();
    plan.push(PlannedQuery { query: Query::TotalAssets, at: block });
    plan.push(PlannedQuery { query: Query::TotalSupply, at: block });
    if extended {
        plan.push(PlannedQuery { query: Query::Rate, at: block });
        plan.push(PlannedQuery { query: Query::Asset, at: block });
        plan.push(PlannedQuery { query: Query::AToken, at: block });
        plan.push(PlannedQuery { query: Query::RewardTokens, at: block });
    }
    plan.push(PlannedQuery { query: Query::Header, at: block });
    plan
}

/// Whether the batch holds an answer to the query.
pub open spec fn answered(answers: StateAnswers, query: Query) -> bool {
    match query {
        Query::TotalAssets => answers.total_assets is Some,
        Query::TotalSupply => answers.total_supply is Some,
        Query::Rate => answers.rate is Some,
        Query::Asset => answers.asset_address is Some,
        Query::AToken => answers.atoken_address is Some,
        Query::RewardTokens => answers.reward_tokens is Some,
        Query::Header => answers.header is Some,
    }
}

/// The first query of `plan` that the batch has no answer to.
pub open spec fn first_unanswered(plan: Seq<Query>, answers: StateAnswers) -> Option<Query>
    decreases plan.len(),
{
    if plan.len() == 0 {
        None
    } else if !answered(answers, plan[0]) {
        Some(plan[0])
    } else {
        first_unanswered(plan.drop_first(), answers)
    }
}

/// The snapshot that a complete batch amounts to. A read at a given number
/// is a snapshot of that block; a read at the latest block is a snapshot of
/// the block that the header names.
pub open spec fn snapshot_of(block: BlockRef, extended: bool, answers: StateAnswers) -> VaultState {
    VaultState {
        block_number: match block {
            BlockRef::Number(n) => n,
            BlockRef::Latest => answers.header->Some_0.number,
        },
        timestamp: answers.header->Some_0.timestamp,
        total_assets: answers.total_assets->Some_0,
        total_supply: answers.total_supply->Some_0,
        extended: if extended {
            Some(
                ExtendedState {
                    rate: answers.rate->Some_0,
                    asset_address: answers.asset_address->Some_0,
                    atoken_address: answers.atoken_address->Some_0,
                    reward_tokens: answers.reward_tokens->Some_0,
                },
            )
        } else {
            None
        },
    }
}

/// What a batch of answers amounts to: the snapshot where every query of the
/// plan was answered, and otherwise the first failure and nothing else.
pub open spec fn spec_assemble(block: BlockRef, extended: bool, answers: StateAnswers) -> Result<
    VaultState,
    ReadError,
> {
    match first_unanswered(spec_plan(extended), answers) {
        Some(query) => Err(ReadError::QueryFailed(query)),
        None => Ok(snapshot_of(block, extended, answers)),
    }
}

/// A batch yields a snapshot exactly when each query of its plan was
/// answered; a single failure leaves nothing.
pub proof fn lemma_snapshot_needs_every_answer(
    block: BlockRef,
    extended: bool,
    answers: StateAnswers,
)
    ensures
        spec_assemble(block, extended, answers) is Ok <==> forall|i: int|
            0 <= i < spec_plan(extended).len() ==> answered(
                answers,
                #[trigger] spec_plan(extended)[i],
            ),
{
    lemma_first_unanswered(spec_plan(extended), answers);
}

/// `first_unanswered` finds nothing exactly when every query of the plan was
/// answered, and what it finds is a query of the plan without an answer.
pub proof fn lemma_first_unanswered(plan: Seq<Query>, answers: StateAnswers)
    ensures
        first_unanswered(plan, answers) is None <==> forall|i: int|
            0 <= i < plan.len() ==> answered(answers, #[trigger] plan[i]),
        first_unanswered(plan, answers) matches Some(query) ==> plan.contains(query) && !answered(
            answers,
            query,
        ),
    decreases plan.len(),
{
    if plan.len() > 0 && answered(answers, plan[0]) {
        let rest = plan.drop_first();
        lemma_first_unanswered(rest, answers);
        if first_unanswered(rest, answers) is None {
            assert forall|i: int| 0 <= i < plan.len() implies answered(
                answers,
                #[trigger] plan[i],
            ) by {
                if i > 0 {
                    assert(rest[i - 1] == plan[i]);
                }
            }
        } else {
            let query = first_unanswered(rest, answers)->Some_0;
            let k = choose|k: int| 0 <= k < rest.len() && rest[k] == query;
            assert(plan[k + 1] == query);
        }
    }
}

/// Assembles the snapshot of one batch, or reports the first failed query.
/// In the plain variant the answers of the extended queries are not looked
/// at.
pub fn assemble_state(block: BlockRef, extended: bool, answers: StateAnswers) -> (read: Result<
    VaultState,
    ReadError,
>)
    ensures
        read == spec_assemble(block, extended, answers),
{
    proof {
        reveal_with_fuel(first_unanswered, 8);
    }
    let StateAnswers {
        total_assets,
        total_supply,
        rate,
        asset_address,
        atoken_address,
        reward_tokens,
        header,
    } = answers;
    let total_assets = match total_assets {
        Some(v) => v,
        None => {
            return Err(ReadError::QueryFailed(Query::TotalAssets));
        },
    };
    let total_supply = match total_supply {
        Some(v) => v,
        None => {
            return Err(ReadError::QueryFailed(Query::TotalSupply));
        },
    };
    let extended_state = if extended {
        let rate = match rate {
            Some(v) => v,
            None => {
                return Err(ReadError::QueryFailed(Query::Rate));
            },
        };
        let asset_address = match asset_address {
            Some(v) => v,
            None => {
                return Err(ReadError::QueryFailed(Query::Asset));
            },
        };
        let atoken_address = match atoken_address {
            Some(v) => v,
            None => {
                return Err(ReadError::QueryFailed(Query::AToken));
            },
        };
        let reward_tokens = match reward_tokens {
            Some(v) => v,
            None => {
                return Err(ReadError::QueryFailed(Query::RewardTokens));
            },
        };
        Some(ExtendedState { rate, asset_address, atoken_address, reward_tokens })
    } else {
        None
    };
    let header = match header {
        Some(v) => v,
        None => {
            return Err(ReadError::QueryFailed(Query::Header));
        },
    };
    let block_number = match block {
        BlockRef::Number(n) => n,
        BlockRef::Latest => header.number,
    };
    Ok(
        VaultState {
            block_number,
            timestamp: header.timestamp,
            total_assets,
            total_supply,
            extended: extended_state,
        },
    )
}

} // verus!
