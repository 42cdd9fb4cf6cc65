use typestate_pattern_usecase::monitors::common::create_provider;
use typestate_pattern_usecase::monitors::session::FetchSession;
use typestate_pattern_usecase::monitors::types::{
    Attribute, ConnectError, ConnectWarning, DisplayError, FetchError, QueryReply,
};
use typestate_pattern_usecase::monitors::UnsafeMonitor;
use std::sync::Arc;

fn answered() -> FetchSession {
    let provider = create_provider(Some("k".to_string())).expect("the endpoint is a URL");
    FetchSession::begin(Arc::new(provider))
        .expect("the first query can be built")
        .advance(QueryReply::Quantity([1_500_000, 0, 0, 0]))
        .advance(QueryReply::Exponent(6))
        .advance(QueryReply::Quantity([2_750_000_000, 0, 0, 0]))
        .advance(QueryReply::Exponent(9))
}

#[test]
fn fetch_before_connect_fails() {
    let mut monitor = UnsafeMonitor::new();
    assert_eq!(monitor.begin_fetch().err(), Some(FetchError::ConnectNotCalled));
    assert_eq!(monitor.fetch_data(answered()), Err(FetchError::ConnectNotCalled));
    assert_eq!(monitor.display_results(), Err(DisplayError::FetchNotCalled));
}

#[test]
fn fetch_before_connect_fails_after_a_failed_connect() {
    let mut monitor = UnsafeMonitor::default();
    assert_eq!(monitor.connect(None), (None, Err(ConnectError::MissingCredential)));
    assert_eq!(monitor.begin_fetch().err(), Some(FetchError::ConnectNotCalled));
    assert_eq!(monitor.fetch_data(answered()), Err(FetchError::ConnectNotCalled));
}

#[test]
fn display_before_fetch_fails() {
    let mut monitor = UnsafeMonitor::new();
    assert_eq!(monitor.display_results(), Err(DisplayError::FetchNotCalled));
    assert_eq!(monitor.connect(Some("k".to_string())), (None, Ok(())));
    assert_eq!(monitor.display_results(), Err(DisplayError::FetchNotCalled));
}

#[test]
fn a_checked_full_pass_shows_one_line_for_each_asset() {
    let mut monitor = UnsafeMonitor::new();
    assert_eq!(monitor.connect(Some("k".to_string())), (None, Ok(())));
    let session = monitor.begin_fetch().expect("the first query can be built");
    let session = session
        .advance(QueryReply::Quantity([1_500_000, 0, 0, 0]))
        .advance(QueryReply::Exponent(6))
        .advance(QueryReply::Quantity([2_750_000_000, 0, 0, 0]))
        .advance(QueryReply::Exponent(9));
    assert_eq!(monitor.fetch_data(session), Ok(()));
    assert_eq!(
        monitor.display_results(),
        Ok(vec!["USDT Supply: $1.50".to_string(), "USDC Supply: $2.75".to_string()])
    );
}

#[test]
fn a_second_connect_warns_once_and_succeeds() {
    let mut monitor = UnsafeMonitor::new();
    assert_eq!(monitor.connect(Some("first".to_string())), (None, Ok(())));
    assert_eq!(
        monitor.connect(Some("second".to_string())),
        (Some(ConnectWarning::ProviderAlreadyExists), Ok(()))
    );
    assert!(monitor.begin_fetch().is_ok());
}

#[test]
fn a_failed_second_connect_warns_and_keeps_the_connection() {
    let mut monitor = UnsafeMonitor::new();
    assert_eq!(monitor.connect(Some("first".to_string())), (None, Ok(())));
    assert_eq!(
        monitor.connect(None),
        (Some(ConnectWarning::ProviderAlreadyExists), Err(ConnectError::MissingCredential))
    );
    assert!(monitor.begin_fetch().is_ok());
}

#[test]
fn installing_a_provider_replaces_the_one_held() {
    let mut monitor = UnsafeMonitor::new();
    let first = create_provider(Some("first".to_string())).expect("the endpoint is a URL");
    let second = create_provider(Some("second".to_string())).expect("the endpoint is a URL");
    assert_eq!(monitor.install(first), None);
    assert_eq!(monitor.install(second), Some(ConnectWarning::ProviderAlreadyExists));
    assert_eq!(monitor.display_results(), Err(DisplayError::FetchNotCalled));
}

#[test]
fn a_failure_of_the_second_asset_leaves_nothing_to_display() {
    let mut monitor = UnsafeMonitor::new();
    assert_eq!(monitor.connect(Some("k".to_string())), (None, Ok(())));
    let session = monitor.begin_fetch().expect("the first query can be built");
    let session = session
        .advance(QueryReply::Quantity([1_500_000, 0, 0, 0]))
        .advance(QueryReply::Exponent(6))
        .advance(QueryReply::Failure("connection closed".to_string()));
    assert_eq!(
        monitor.fetch_data(session),
        Err(FetchError::QueryFailed {
            asset: 1,
            attribute: Attribute::TotalSupply,
            cause: "connection closed".to_string()
        })
    );
    assert_eq!(monitor.display_results(), Err(DisplayError::FetchNotCalled));
}

#[test]
fn a_failed_fetch_keeps_the_metrics_of_an_earlier_one() {
    let mut monitor = UnsafeMonitor::new();
    assert_eq!(monitor.connect(Some("k".to_string())), (None, Ok(())));
    assert_eq!(monitor.fetch_data(answered()), Ok(()));
    let session = monitor.begin_fetch().expect("the first query can be built");
    let session = session.advance(QueryReply::Failure("down".to_string()));
    assert!(monitor.fetch_data(session).is_err());
    assert_eq!(
        monitor.display_results(),
        Ok(vec!["USDT Supply: $1.50".to_string(), "USDC Supply: $2.75".to_string()])
    );
}

#[test]
fn messages_name_the_step_that_was_skipped() {
    assert_eq!(
        FetchError::ConnectNotCalled.message(),
        "[ERROR] No provider found - connect() was not called first"
    );
    assert_eq!(
        DisplayError::FetchNotCalled.message(),
        "[ERROR] No metrics found - fetch_data() was not called first"
    );
    assert_eq!(ConnectWarning::ProviderAlreadyExists.message(), "[WARNING] Provider already exists!");
    assert_eq!(ConnectError::MissingCredential.message(), "environment variable not found");
    assert_eq!(
        ConnectError::InvalidEndpoint { cause: "empty host".to_string() }.message(),
        "empty host"
    );
}

#[test]
fn messages_of_fetch_errors_give_the_cause() {
    assert_eq!(FetchError::MalformedInterface { cause: "eof".to_string() }.message(), "eof");
    assert_eq!(
        FetchError::InvalidAddress { asset: 1, cause: "Invalid character".to_string() }.message(),
        "Invalid character"
    );
    assert_eq!(
        FetchError::QueryFailed {
            asset: 0,
            attribute: Attribute::Decimals,
            cause: "timeout".to_string()
        }
        .message(),
        "timeout"
    );
    assert_eq!(
        FetchError::MalformedReply { asset: 0, attribute: Attribute::Decimals }.message(),
        "[ERROR] Reply does not fit the query"
    );
    assert_eq!(
        FetchError::Unanswered { asset: 0, attribute: Attribute::Decimals }.message(),
        "[ERROR] Query was not answered"
    );
    assert_eq!(Attribute::TotalSupply.function(), "totalSupply");
    assert_eq!(Attribute::Decimals.function(), "decimals");
}
