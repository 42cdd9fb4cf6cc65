//! The runtime-checked monitor.
//!
//! One handle for the whole lifecycle, with a slot for the connection and a
//! slot for the metric set. Nothing in its type keeps the operations in
//! order, so each of them checks for itself what it needs and says which step
//! was skipped.

use crate::constants::STABLECOIN_ABI;
use crate::monitors::common::{
    create_provider, endpoint_of, fetch_stablecoin_metrics, format_supply, supply_lines, texts_of,
};
use crate::monitors::gateway::{endpoint_parses, parsed_interface, share_client, Client};
use crate::monitors::session::{can_ask, is_metric_set, target_of, FetchSession, FetchState};
use crate::monitors::types::{
    records_of, Attribute, ConnectError, ConnectWarning, DisplayError, FetchError, FetchFault,
    MetricRecord, StablecoinMetrics,
};
use ethers_providers::{Http, Provider};
use std::sync::Arc;
use vstd::prelude::*;

verus! {

/// What a monitor holds: the contents of its two slots.
pub struct Slots {
    pub connection: Option<Client>,
    pub metrics: Option<Seq<MetricRecord>>,
}

impl Slots {
    /// Both slots empty.
    pub open spec fn empty() -> Slots {
        Slots { connection: None, metrics: None }
    }

    /// A metric set that is held is a full one.
    pub open spec fn wf(self) -> bool {
        self.metrics matches Some(records) ==> is_metric_set(records)
    }

    /// Whether a connection is held.
    pub open spec fn is_connected(self) -> bool {
        self.connection is Some
    }

    /// The warning that `connect` gives in this state: one where a connection
    /// is already held, none where the slot is empty.
    pub open spec fn warning(self) -> Option<ConnectWarning> {
        if self.is_connected() {
            Some(ConnectWarning::ProviderAlreadyExists)
        } else {
            None
        }
    }

    /// The slots after `provider` has been taken as the connection.
    pub open spec fn connected(self, provider: Provider<Http>) -> Slots {
        Slots { connection: Some(Arc::new(provider)), metrics: self.metrics }
    }

    /// What `fetch_data` answers in this state to a fetch that ended with
    /// `outcome`.
    pub open spec fn fetch_result(
        self,
        outcome: Result<Seq<MetricRecord>, FetchFault>,
    ) -> Result<(), FetchFault> {
        if !self.is_connected() {
            Err(FetchFault::ConnectNotCalled)
        } else {
            match outcome {
                Ok(records) => Ok(()),
                Err(fault) => Err(fault),
            }
        }
    }

    /// The slots after `fetch_data` on a fetch that ended with `outcome`: the
    /// metric set is taken where a connection is held and the fetch is
    /// complete, and nothing changes otherwise.
    pub open spec fn fetched(self, outcome: Result<Seq<MetricRecord>, FetchFault>) -> Slots {
        match outcome {
            Ok(records) if self.is_connected() => Slots {
                connection: self.connection,
                metrics: Some(records),
            },
            _ => self,
        }
    }

    /// What `display_results` answers in this state.
    pub open spec fn shown(self) -> Result<Seq<Seq<char>>, DisplayError> {
        match self.metrics {
            Some(records) => Ok(supply_lines(records)),
            None => Err(DisplayError::FetchNotCalled),
        }
    }
}

/// A monitor whose phase shows only in which of its slots are filled.
pub struct StablecoinMonitor {
    provider: Option<Client>,
    metrics: Option<Vec<StablecoinMetrics>>,
}

impl View for StablecoinMonitor {
    type V = Slots;

    closed spec fn view(&self) -> Slots {
        Slots {
            connection: self.provider,
            metrics: match self.metrics {
                Some(metrics) => Some(records_of(metrics@)),
                None => None,
            },
        }
    }
}

impl Default for StablecoinMonitor {
    fn default() -> (monitor: Self)
        ensures
            monitor@ == Slots::empty(),
    {
        Self::new()
    }
}

impl StablecoinMonitor {
    #[verifier::type_invariant]
    spec fn valid(self) -> bool {
        self@.wf()
    }

    /// A monitor with both slots empty.
    pub fn new() -> (monitor: Self)
        ensures
            monitor@ == Slots::empty(),
    {
        Self { provider: None, metrics: None }
    }

    /// The warning that is due where a connection is about to be replaced.
    fn replacing(&self) -> (warning: Option<ConnectWarning>)
        ensures
            warning == self@.warning(),
    {
        if self.provider.is_some() {
            Some(ConnectWarning::ProviderAlreadyExists)
        } else {
            None
        }
    }

    /// Takes `provider` as the connection. A connection that is already held
    /// is replaced, which is worth a warning and no failure.
    pub fn install(&mut self, provider: Provider<Http>) -> (warning: Option<ConnectWarning>)
        ensures
            warning == old(self)@.warning(),
            final(self)@ == old(self)@.connected(provider),
    {
        proof {
            use_type_invariant(&*self);
        }
        let warning = self.replacing();
        self.provider = Some(Arc::new(provider));
        warning
    }

    /// Opens the connection for `api_key` and keeps it. A connection that is
    /// already held is replaced once the new one is open; that it was there
    /// is reported as a warning, whether or not the new one opens. On failure
    /// the monitor is left as it was.
    pub fn connect(&mut self, api_key: Option<String>) -> (report: (
        Option<ConnectWarning>,
        Result<(), ConnectError>,
    ))
        ensures
            report.0 == old(self)@.warning(),
            report.1 is Ok <==> (api_key matches Some(key) && endpoint_parses(endpoint_of(key@))),
            report.1 matches Err(error) ==> (error is MissingCredential <==> api_key is None),
            report.1 is Ok ==> final(self)@.is_connected(),
            report.1 is Err ==> final(self)@ == old(self)@,
            final(self)@.metrics == old(self)@.metrics,
    {
        match create_provider(api_key) {
            Ok(provider) => (self.install(provider), Ok(())),
            Err(error) => (self.replacing(), Err(error)),
        }
    }

    /// Starts a fetch on the connection that is held. Without a connection
    /// there is nothing to start. With one, a session comes to be exactly
    /// where the interface and the first contract's address can be read and
    /// the first query can be built; it stands at the start and runs on the
    /// connection that is held.
    pub fn begin_fetch(&self) -> (begun: Result<FetchSession, FetchError>)
        ensures
            begun is Ok <==> self@.is_connected() && parsed_interface(STABLECOIN_ABI@) is Some
                && target_of(0) is Some && can_ask(Attribute::TotalSupply),
            begun matches Ok(session) ==> self@.connection == Some(session@.connection)
                && session@.state == FetchState::start(),
            begun matches Err(error) ==> if !self@.is_connected() {
                error is ConnectNotCalled
            } else if parsed_interface(STABLECOIN_ABI@) is None {
                error is MalformedInterface
            } else {
                FetchState::start().entered_as(FetchState::Failed { fault: error@ })
            },
    {
        match &self.provider {
            Some(handle) => FetchSession::begin(share_client(handle)),
            None => Err(FetchError::ConnectNotCalled),
        }
    }

    /// Closes the fetch that `session` has run and keeps the full metric set.
    /// Without a connection this fails at once, whatever the session holds.
    /// Where the session has failed, or was given up with a query open, the
    /// fetch fails as a whole, with the session's reason, and the metric slot
    /// is left as it was.
    pub fn fetch_data(&mut self, session: FetchSession) -> (fetched: Result<(), FetchError>)
        ensures
            final(self)@ == old(self)@.fetched(session@.state.outcome()),
            match old(self)@.fetch_result(session@.state.outcome()) {
                Ok(done) => fetched is Ok,
                Err(fault) => fetched matches Err(error) && error@ == fault,
            },
    {
        proof {
            use_type_invariant(&*self);
        }
        if self.provider.is_none() {
            return Err(FetchError::ConnectNotCalled);
        }
        match fetch_stablecoin_metrics(session) {
            Ok(metrics) => {
                self.metrics = Some(metrics);
                Ok(())
            },
            Err(error) => Err(error),
        }
    }

    /// One line for each watched contract, in the order of the contracts.
    /// Without a metric set there is nothing to show.
    pub fn display_results(&self) -> (shown: Result<Vec<String>, DisplayError>)
        ensures
            self@.wf(),
            match self@.shown() {
                Ok(texts) => shown matches Ok(lines) && texts_of(lines@) == texts,
                Err(error) => shown == Err::<Vec<String>, DisplayError>(error),
            },
    {
        proof {
            use_type_invariant(self);
        }
        match &self.metrics {
            Some(metrics) => Ok(format_supply(metrics.as_slice())),
            None => Err(DisplayError::FetchNotCalled),
        }
    }
}

/// A fetch on a monitor that holds no connection fails for that reason and
/// changes nothing, whatever the monitor has been through and whatever the
/// fetch would have brought.
pub proof fn lemma_fetch_needs_connection(
    slots: Slots,
    outcome: Result<Seq<MetricRecord>, FetchFault>,
)
    requires
        !slots.is_connected(),
    ensures
        slots.fetch_result(outcome) == Err::<(), FetchFault>(FetchFault::ConnectNotCalled),
        slots.fetched(outcome) == slots,
{
}

/// A monitor that holds no metric set has nothing to display, and only a
/// complete fetch on a connected monitor gives it one.
pub proof fn lemma_display_needs_fetch(
    slots: Slots,
    outcome: Result<Seq<MetricRecord>, FetchFault>,
)
    requires
        slots.metrics is None,
    ensures
        slots.shown() == Err::<Seq<Seq<char>>, DisplayError>(DisplayError::FetchNotCalled),
        slots.fetched(outcome).metrics is Some <==> (slots.is_connected() && outcome is Ok),
{
}

/// Connecting again warns exactly once and replaces the connection: the first
/// connection draws no warning on empty slots, the second draws one, the
/// connection that is held afterwards is the second, and the metric slot is
/// as before.
pub proof fn lemma_reconnect_warns_and_replaces(
    slots: Slots,
    first: Provider<Http>,
    second: Provider<Http>,
)
    ensures
        slots.connected(first).warning() == Some(ConnectWarning::ProviderAlreadyExists),
        slots.connected(first).connected(second) == slots.connected(second),
        slots.connected(first).connected(second).connection == Some(Arc::new(second)),
        slots.connected(first).connected(second).metrics == slots.metrics,
        Slots::empty().warning() is None,
{
}

/// A fetch that fails leaves the monitor as it was: a monitor that had
/// nothing to display before has nothing to display after, and no part of
/// what the failed fetch had gathered can be seen.
pub proof fn lemma_failed_fetch_shows_nothing(slots: Slots, fault: FetchFault)
    ensures
        slots.fetched(Err(fault)) == slots,
        slots.fetch_result(Err(fault)) is Err,
        slots.metrics is None ==> slots.fetched(Err(fault)).shown() == Err::<
            Seq<Seq<char>>,
            DisplayError,
        >(DisplayError::FetchNotCalled),
{
}

/// A full pass on empty slots, with a connection opened and a fetch completed,
/// displays the lines of the fetched records: one for each, in their order.
pub proof fn lemma_full_pass_displays_the_set(provider: Provider<Http>, records: Seq<MetricRecord>)
    ensures
        Slots::empty().connected(provider).fetch_result(Ok(records)) is Ok,
        Slots::empty().connected(provider).fetched(Ok(records)).shown() == Ok::<
            Seq<Seq<char>>,
            DisplayError,
        >(supply_lines(records)),
        supply_lines(records).len() == records.len(),
{
}

} // verus!
