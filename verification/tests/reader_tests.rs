use vault_indexer::primitives::{Address, U256};
use vault_indexer::reader::{
    assemble_state, query_plan, BlockHeader, BlockRef, ExtendedState, PlannedQuery, Query,
    ReadError, StateAnswers, VaultState,
};

fn full_answers() -> StateAnswers {
    StateAnswers {
        total_assets: Some(U256::from_u64(1_000)),
        total_supply: Some(U256::from_u64(900)),
        rate: Some(U256::from_u64(11)),
        asset_address: Some(Address { bytes: [1u8; 20] }),
        atoken_address: Some(Address { bytes: [2u8; 20] }),
        reward_tokens: Some(vec![Address { bytes: [3u8; 20] }, Address { bytes: [4u8; 20] }]),
        header: Some(BlockHeader { number: 50, timestamp: 1_234 }),
    }
}

#[test]
fn the_plain_plan_reads_the_totals_and_the_header() {
    let at = BlockRef::Number(50);
    assert_eq!(
        query_plan(at, false),
        vec![
            PlannedQuery { query: Query::TotalAssets, at },
            PlannedQuery { query: Query::TotalSupply, at },
            PlannedQuery { query: Query::Header, at },
        ]
    );
}

#[test]
fn the_extended_plan_reads_six_calls_and_the_header() {
    let queries: Vec<Query> =
        query_plan(BlockRef::Latest, true).iter().map(|planned| planned.query).collect();
    assert_eq!(
        queries,
        vec![
            Query::TotalAssets,
            Query::TotalSupply,
            Query::Rate,
            Query::Asset,
            Query::AToken,
            Query::RewardTokens,
            Query::Header,
        ]
    );
}

#[test]
fn every_query_of_a_plan_is_pinned_to_the_same_block() {
    for at in [BlockRef::Latest, BlockRef::Number(0), BlockRef::Number(77)] {
        for extended in [false, true] {
            assert!(query_plan(at, extended).iter().all(|planned| planned.at == at));
        }
    }
}

#[test]
fn each_contract_query_has_its_method_name() {
    assert_eq!(Query::TotalAssets.method_name(), Some("totalAssets"));
    assert_eq!(Query::TotalSupply.method_name(), Some("totalSupply"));
    assert_eq!(Query::Rate.method_name(), Some("rate"));
    assert_eq!(Query::Asset.method_name(), Some("asset"));
    assert_eq!(Query::AToken.method_name(), Some("aToken"));
    assert_eq!(Query::RewardTokens.method_name(), Some("rewardTokens"));
    assert_eq!(Query::Header.method_name(), None);
}

#[test]
fn a_complete_plain_batch_is_a_snapshot() {
    let read = assemble_state(BlockRef::Number(50), false, full_answers());
    assert_eq!(
        read,
        Ok(VaultState {
            block_number: 50,
            timestamp: 1_234,
            total_assets: U256::from_u64(1_000),
            total_supply: U256::from_u64(900),
            extended: None,
        })
    );
}

#[test]
fn a_complete_extended_batch_is_an_extended_snapshot() {
    let read = assemble_state(BlockRef::Number(50), true, full_answers());
    assert_eq!(
        read,
        Ok(VaultState {
            block_number: 50,
            timestamp: 1_234,
            total_assets: U256::from_u64(1_000),
            total_supply: U256::from_u64(900),
            extended: Some(ExtendedState {
                rate: U256::from_u64(11),
                asset_address: Address { bytes: [1u8; 20] },
                atoken_address: Address { bytes: [2u8; 20] },
                reward_tokens: vec![Address { bytes: [3u8; 20] }, Address { bytes: [4u8; 20] }],
            }),
        })
    );
}

#[test]
fn a_read_at_the_latest_block_takes_its_number_from_the_header() {
    let read = assemble_state(BlockRef::Latest, false, full_answers()).unwrap();
    assert_eq!(read.block_number, 50);
    let pinned = assemble_state(BlockRef::Number(49), false, full_answers()).unwrap();
    assert_eq!(pinned.block_number, 49);
    assert_eq!(pinned.timestamp, 1_234);
}

#[test]
fn a_failed_total_assets_query_fails_the_whole_read() {
    let mut answers = full_answers();
    answers.total_assets = None;
    assert_eq!(
        assemble_state(BlockRef::Number(50), false, answers),
        Err(ReadError::QueryFailed(Query::TotalAssets))
    );
}

#[test]
fn the_first_failed_query_of_the_plan_is_reported() {
    let mut answers = full_answers();
    answers.header = None;
    answers.atoken_address = None;
    answers.total_supply = None;
    assert_eq!(
        assemble_state(BlockRef::Number(50), true, answers.clone()),
        Err(ReadError::QueryFailed(Query::TotalSupply))
    );
    answers.total_supply = Some(U256::from_u64(1));
    assert_eq!(
        assemble_state(BlockRef::Number(50), true, answers.clone()),
        Err(ReadError::QueryFailed(Query::AToken))
    );
    assert_eq!(
        assemble_state(BlockRef::Number(50), false, answers),
        Err(ReadError::QueryFailed(Query::Header))
    );
}

#[test]
fn each_missing_answer_fails_the_extended_read() {
    let cases: Vec<(Query, fn(&mut StateAnswers))> = vec![
        (Query::TotalAssets, |a| a.total_assets = None),
        (Query::TotalSupply, |a| a.total_supply = None),
        (Query::Rate, |a| a.rate = None),
        (Query::Asset, |a| a.asset_address = None),
        (Query::AToken, |a| a.atoken_address = None),
        (Query::RewardTokens, |a| a.reward_tokens = None),
        (Query::Header, |a| a.header = None),
    ];
    for (query, clear) in cases {
        let mut answers = full_answers();
        clear(&mut answers);
        assert_eq!(
            assemble_state(BlockRef::Latest, true, answers),
            Err(ReadError::QueryFailed(query))
        );
    }
}

#[test]
fn the_plain_read_ignores_the_extended_answers() {
    let mut answers = full_answers();
    answers.rate = None;
    answers.asset_address = None;
    answers.atoken_address = None;
    answers.reward_tokens = None;
    let read = assemble_state(BlockRef::Number(7), false, answers).unwrap();
    assert_eq!(read.extended, None);
    assert_eq!(read.total_supply, U256::from_u64(900));
}
