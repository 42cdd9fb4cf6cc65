use typestate_pattern_usecase::monitors::common::{create_provider, fetch_stablecoin_metrics};
use typestate_pattern_usecase::monitors::session::{
    address_outcome, interface_outcome, FetchAction, FetchProgress, FetchSession,
};
use std::sync::Arc;
use typestate_pattern_usecase::monitors::types::{
    Attribute, FetchError, QueryReply, StablecoinMetrics,
};

fn wide(value: u128) -> [u64; 4] {
    [value as u64, (value >> 64) as u64, 0, 0]
}

fn quantity(value: u128) -> QueryReply {
    QueryReply::Quantity(wide(value))
}

fn metric(name: &str, total_supply: u128, decimals: u8) -> StablecoinMetrics {
    StablecoinMetrics { name: name.to_string(), total_supply: wide(total_supply), decimals }
}

fn session() -> FetchSession {
    let provider = create_provider(Some("k".to_string())).expect("the endpoint is a URL");
    FetchSession::begin(Arc::new(provider)).expect("the first query can be built")
}

#[test]
fn the_queries_come_in_order() {
    let progress = FetchProgress::new();
    assert_eq!(progress.pending(), Some((0, Attribute::TotalSupply)));
    let progress = progress.absorb(quantity(10));
    assert_eq!(progress.pending(), Some((0, Attribute::Decimals)));
    let progress = progress.absorb(QueryReply::Exponent(1));
    assert_eq!(progress.pending(), Some((1, Attribute::TotalSupply)));
    let progress = progress.absorb(quantity(20));
    assert_eq!(progress.pending(), Some((1, Attribute::Decimals)));
    let progress = progress.absorb(QueryReply::Exponent(2));
    assert_eq!(progress.pending(), None);
}

#[test]
fn a_full_pass_gives_one_record_for_each_asset() {
    let progress = FetchProgress::new()
        .absorb(quantity(1_500_000))
        .absorb(QueryReply::Exponent(6))
        .absorb(quantity(2_750_000_000))
        .absorb(QueryReply::Exponent(9));
    assert_eq!(
        progress.finish(),
        Ok(vec![
            metric("USDT", 1_500_000, 6),
            metric("USDC", 2_750_000_000, 9),
        ])
    );
}

#[test]
fn a_reply_after_the_end_changes_nothing() {
    let progress = FetchProgress::new()
        .absorb(quantity(1))
        .absorb(QueryReply::Exponent(0))
        .absorb(quantity(2))
        .absorb(QueryReply::Exponent(0))
        .absorb(quantity(3))
        .absorb(QueryReply::Failure("late".to_string()));
    assert_eq!(
        progress.finish(),
        Ok(vec![
            metric("USDT", 1, 0),
            metric("USDC", 2, 0),
        ])
    );
}

#[test]
fn a_failed_first_query_fails_the_fetch() {
    let progress = FetchProgress::new().absorb(QueryReply::Failure("timeout".to_string()));
    assert_eq!(progress.pending(), None);
    assert_eq!(
        progress.finish(),
        Err(FetchError::QueryFailed {
            asset: 0,
            attribute: Attribute::TotalSupply,
            cause: "timeout".to_string()
        })
    );
}

#[test]
fn a_failed_decimals_query_fails_the_fetch() {
    let progress =
        FetchProgress::new().absorb(quantity(1)).absorb(QueryReply::Failure("reset".to_string()));
    assert_eq!(
        progress.finish(),
        Err(FetchError::QueryFailed {
            asset: 0,
            attribute: Attribute::Decimals,
            cause: "reset".to_string()
        })
    );
}

#[test]
fn a_failure_of_the_second_asset_discards_the_first() {
    let progress = FetchProgress::new()
        .absorb(quantity(1_500_000))
        .absorb(QueryReply::Exponent(6))
        .absorb(QueryReply::Failure("rate limited".to_string()));
    assert_eq!(progress.pending(), None);
    let progress = progress.absorb(quantity(2_750_000_000)).absorb(QueryReply::Exponent(9));
    assert_eq!(
        progress.finish(),
        Err(FetchError::QueryFailed {
            asset: 1,
            attribute: Attribute::TotalSupply,
            cause: "rate limited".to_string()
        })
    );
}

#[test]
fn a_supply_beyond_128_bits_is_kept_as_it_came() {
    let widest = [u64::MAX, u64::MAX, u64::MAX, u64::MAX];
    let progress = FetchProgress::new()
        .absorb(QueryReply::Quantity([0, 0, 1, 0]))
        .absorb(QueryReply::Exponent(18))
        .absorb(QueryReply::Quantity(widest))
        .absorb(QueryReply::Exponent(255));
    assert_eq!(
        progress.finish(),
        Ok(vec![
            StablecoinMetrics {
                name: "USDT".to_string(),
                total_supply: [0, 0, 1, 0],
                decimals: 18
            },
            StablecoinMetrics { name: "USDC".to_string(), total_supply: widest, decimals: 255 },
        ])
    );
}

#[test]
fn a_reply_of_the_wrong_kind_is_malformed() {
    let progress = FetchProgress::new().absorb(QueryReply::Exponent(6));
    assert_eq!(
        progress.finish(),
        Err(FetchError::MalformedReply { asset: 0, attribute: Attribute::TotalSupply })
    );
    let progress = FetchProgress::new()
        .absorb(quantity(1))
        .absorb(QueryReply::Exponent(6))
        .absorb(quantity(2))
        .absorb(quantity(3));
    assert_eq!(
        progress.finish(),
        Err(FetchError::MalformedReply { asset: 1, attribute: Attribute::Decimals })
    );
}

#[test]
fn a_fetch_given_up_early_is_unanswered() {
    assert_eq!(
        FetchProgress::new().finish(),
        Err(FetchError::Unanswered { asset: 0, attribute: Attribute::TotalSupply })
    );
    assert_eq!(
        FetchProgress::new().absorb(quantity(1)).finish(),
        Err(FetchError::Unanswered { asset: 0, attribute: Attribute::Decimals })
    );
    assert_eq!(
        FetchProgress::new().absorb(quantity(1)).absorb(QueryReply::Exponent(6)).finish(),
        Err(FetchError::Unanswered { asset: 1, attribute: Attribute::TotalSupply })
    );
}

#[test]
fn outside_failures_become_fetch_errors() {
    assert_eq!(interface_outcome(Ok::<u8, String>(3)), Ok(3));
    assert_eq!(
        interface_outcome(Err::<u8, String>("missing field".to_string())),
        Err(FetchError::MalformedInterface { cause: "missing field".to_string() })
    );
    assert_eq!(address_outcome(1, Ok([9u8; 20])), Ok([9u8; 20]));
    assert_eq!(
        address_outcome(1, Err("Invalid input length".to_string())),
        Err(FetchError::InvalidAddress { asset: 1, cause: "Invalid input length".to_string() })
    );
}

#[test]
fn a_session_runs_through_all_queries() {
    let session = session();
    assert_eq!(session.pending(), Some((0, Attribute::TotalSupply)));
    assert!(matches!(session.action(), FetchAction::CallTotalSupply(_)));
    let session = session.advance(quantity(1_500_000));
    assert_eq!(session.pending(), Some((0, Attribute::Decimals)));
    assert!(matches!(session.action(), FetchAction::CallDecimals(_)));
    let session = session.advance(QueryReply::Exponent(6));
    assert_eq!(session.pending(), Some((1, Attribute::TotalSupply)));
    assert!(matches!(session.action(), FetchAction::CallTotalSupply(_)));
    let session = session.advance(quantity(2_750_000_000));
    assert_eq!(session.pending(), Some((1, Attribute::Decimals)));
    assert!(matches!(session.action(), FetchAction::CallDecimals(_)));
    let session = session.advance(QueryReply::Exponent(9));
    assert_eq!(session.pending(), None);
    assert!(matches!(session.action(), FetchAction::Stop));
    assert_eq!(
        fetch_stablecoin_metrics(session),
        Ok(vec![
            metric("USDT", 1_500_000, 6),
            metric("USDC", 2_750_000_000, 9),
        ])
    );
}

#[test]
fn a_failed_session_stops_and_stays_failed() {
    let session = session().advance(quantity(1)).advance(QueryReply::Exponent(6));
    let session = session.advance(QueryReply::Failure("execution reverted".to_string()));
    assert!(matches!(session.action(), FetchAction::Stop));
    assert_eq!(session.pending(), None);
    let session = session.advance(quantity(2)).advance(QueryReply::Exponent(6));
    assert!(matches!(session.action(), FetchAction::Stop));
    assert_eq!(
        fetch_stablecoin_metrics(session),
        Err(FetchError::QueryFailed {
            asset: 1,
            attribute: Attribute::TotalSupply,
            cause: "execution reverted".to_string()
        })
    );
}

#[test]
fn a_session_given_up_early_is_unanswered() {
    let session = session().advance(quantity(1));
    assert_eq!(
        session.finish(),
        Err(FetchError::Unanswered { asset: 0, attribute: Attribute::Decimals })
    );
}
