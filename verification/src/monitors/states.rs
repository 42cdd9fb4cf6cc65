//! The three phases of the phase-typed monitor, and what a handle owns in each.

use crate::monitors::session::is_metric_set;
use crate::monitors::types::{records_of, MetricRecord, StablecoinMetrics};
use crate::monitors::gateway::Client;
use ethers_providers::{Http, Provider};
use std::sync::Arc;
use vstd::prelude::*;

verus! {

/// Nothing has been done yet; nothing is owned.
pub struct Unconnected;

/// The first phase by its other name.
pub type Uninitialized = Unconnected;

/// The connection is open and owned. It is held behind a counted pointer,
/// so that the queries of a fetch can be sent over this very connection.
pub struct Connected {
    provider: Client,
}

/// The metric set has been fetched and is owned. It is always the full set:
/// one record for each watched contract.
pub struct DataFetched {
    metrics: Vec<StablecoinMetrics>,
}

impl Connected {
    /// The phase that owns `provider`.
    pub(crate) fn new(provider: Provider<Http>) -> (state: Connected)
        ensures
            state.connection() == Arc::new(provider),
    {
        Connected { provider: Arc::new(provider) }
    }

    /// The connection that is owned.
    pub closed spec fn connection(&self) -> Client {
        self.provider
    }

    /// The connection that is owned.
    pub(crate) fn handle(&self) -> (provider: &Client)
        ensures
            *provider == self.connection(),
    {
        &self.provider
    }
}

impl DataFetched {
    #[verifier::type_invariant]
    spec fn valid(self) -> bool {
        is_metric_set(records_of(self.metrics@))
    }

    /// The phase that owns `metrics`.
    pub(crate) fn new(metrics: Vec<StablecoinMetrics>) -> (state: DataFetched)
        requires
            is_metric_set(records_of(metrics@)),
        ensures
            state.records() == records_of(metrics@),
    {
        DataFetched { metrics }
    }

    /// The records of the metric set that is owned.
    pub closed spec fn records(&self) -> Seq<MetricRecord> {
        records_of(self.metrics@)
    }

    /// The metric set that is owned.
    pub(crate) fn metrics(&self) -> (metrics: &Vec<StablecoinMetrics>)
        ensures
            records_of(metrics@) == self.records(),
            is_metric_set(self.records()),
    {
        proof {
            use_type_invariant(self);
        }
        &self.metrics
    }
}

} // verus!
