//! The phase-typed monitor.
//!
//! The phase of a handle is part of its type. Each phase offers only the
//! operations that are legal in it, and each transition consumes the handle:
//! a call out of order does not compile.

use crate::constants::STABLECOIN_ABI;
use crate::monitors::common::{
    create_provider, endpoint_of, fetch_stablecoin_metrics, format_supply, supply_lines, texts_of,
};
use crate::monitors::gateway::{endpoint_parses, parsed_interface, share_client, Client};
use crate::monitors::session::{
    can_ask, is_metric_set, target_of, FetchSession, FetchState, SessionView,
};
use crate::monitors::states::{Connected, DataFetched, Unconnected};
use crate::monitors::types::{Attribute, ConnectError, FetchError, MetricRecord};
use vstd::prelude::*;

verus! {

/// A monitor in the phase `State`.
pub struct StablecoinMonitor<State = Unconnected> {
    state: State,
}

impl Default for StablecoinMonitor<Unconnected> {
    fn default() -> (monitor: Self) {
        Self::new()
    }
}

impl StablecoinMonitor<Unconnected> {
    /// A monitor that holds nothing yet.
    pub fn new() -> (monitor: Self) {
        Self { state: Unconnected }
    }

    /// Opens the connection for `api_key` and moves on to the connected
    /// phase. On failure the handle is gone: start over with `new`.
    pub fn connect(self, api_key: Option<String>) -> (connected: Result<
        StablecoinMonitor<Connected>,
        ConnectError,
    >)
        ensures
            connected is Ok <==> (api_key matches Some(key) && endpoint_parses(endpoint_of(key@))),
            connected matches Err(error) ==> (error is MissingCredential <==> api_key is None),
    {
        match create_provider(api_key) {
            Ok(provider) => Ok(StablecoinMonitor { state: Connected::new(provider) }),
            Err(error) => Err(error),
        }
    }
}

impl StablecoinMonitor<Connected> {
    /// The connection that this monitor owns.
    pub closed spec fn connection(&self) -> Client {
        self.state.connection()
    }

    /// Starts a fetch on this monitor's connection. A session comes to be
    /// exactly where the interface and the first contract's address can be
    /// read and the first query can be built; it stands at the start and runs
    /// on this monitor's connection.
    pub fn begin_fetch(&self) -> (begun: Result<FetchSession, FetchError>)
        ensures
            begun is Ok <==> parsed_interface(STABLECOIN_ABI@) is Some && target_of(0) is Some
                && can_ask(Attribute::TotalSupply),
            begun matches Ok(session) ==> session@ == (SessionView {
                state: FetchState::start(),
                connection: self.connection(),
            }),
            begun matches Err(error) ==> if parsed_interface(STABLECOIN_ABI@) is None {
                error is MalformedInterface
            } else {
                FetchState::start().entered_as(FetchState::Failed { fault: error@ })
            },
    {
        FetchSession::begin(share_client(self.state.handle()))
    }

    /// Closes the fetch that `session` has run and moves on to the fetched
    /// phase with the full metric set. Where the session has failed, or was
    /// given up with a query open, the fetch fails as a whole, with the
    /// session's reason; the handle is gone either way.
    pub fn fetch_data(self, session: FetchSession) -> (fetched: Result<
        StablecoinMonitor<DataFetched>,
        FetchError,
    >)
        ensures
            match session@.state.outcome() {
                Ok(records) => fetched matches Ok(monitor) && monitor.records() == records,
                Err(fault) => fetched matches Err(error) && error@ == fault,
            },
            fetched matches Err(error) ==> !(error is ConnectNotCalled),
    {
        match fetch_stablecoin_metrics(session) {
            Ok(metrics) => Ok(StablecoinMonitor { state: DataFetched::new(metrics) }),
            Err(error) => Err(error),
        }
    }
}

impl StablecoinMonitor<DataFetched> {
    /// The records of the metric set that this monitor owns.
    pub closed spec fn records(&self) -> Seq<MetricRecord> {
        self.state.records()
    }

    /// One line for each watched contract, in the order of the contracts.
    pub fn display_results(&self) -> (lines: Vec<String>)
        ensures
            is_metric_set(self.records()),
            texts_of(lines@) == supply_lines(self.records()),
    {
        format_supply(self.state.metrics().as_slice())
    }
}

} // verus!
