//! Fetching as a state machine.
//!
//! A fetch asks every watched contract, in order, first for its total supply
//! and then for its decimals. The session decides what is asked next and what
//! a reply means; sending the query and waiting for the reply is left to
//! whoever drives the session. The first failure ends the fetch, and records
//! gathered until then are never handed out.

use crate::constants::{
    address_of, asset_address, asset_name, name_of, ASSET_COUNT, STABLECOIN_ABI,
};
use crate::monitors::common::get_stablecoin_abi;
use crate::monitors::gateway::{
    bind_contract, binding, build_decimals_call, build_supply_call, decimals_request, offers,
    parse_address, parsed_address, parsed_interface, supply_request, Client, Contract,
    DecimalsCall, Request, SupplyCall,
};
use crate::monitors::types::{
    limbs_value, records_of, Attribute, FetchError, FetchFault, MetricRecord, QueryReply, Reply,
    StablecoinMetrics,
};
use ethers_core::abi::Abi;
use vstd::prelude::*;
use vstd::string::*;

verus! {

/// Where a fetch stands.
pub enum FetchState {
    /// The supply of contract number `done.len()` is being asked for.
    AwaitingSupply { done: Seq<MetricRecord> },
    /// The decimals of contract number `done.len()` are being asked for.
    AwaitingDecimals { done: Seq<MetricRecord>, supply: nat },
    /// Every contract has answered both queries.
    Complete { records: Seq<MetricRecord> },
    /// The fetch has failed; nothing of it remains but the reason.
    Failed { fault: FetchFault },
}

/// Each record carries the name of the contract at its position.
pub open spec fn named_in_order(records: Seq<MetricRecord>) -> bool {
    forall|i: int| 0 <= i < records.len() ==> (#[trigger] records[i]).name == asset_name(i)
}

/// One record for each watched contract, in the order of the contracts.
pub open spec fn is_metric_set(records: Seq<MetricRecord>) -> bool {
    records.len() == ASSET_COUNT && named_in_order(records)
}

impl FetchState {
    /// The state of a fetch before any reply.
    pub open spec fn start() -> FetchState {
        FetchState::AwaitingSupply { done: Seq::empty() }
    }

    /// The states that a fetch can be in.
    pub open spec fn wf(self) -> bool {
        match self {
            FetchState::AwaitingSupply { done } => done.len() < ASSET_COUNT && named_in_order(
                done,
            ),
            FetchState::AwaitingDecimals { done, supply } => done.len() < ASSET_COUNT
                && named_in_order(done),
            FetchState::Complete { records } => is_metric_set(records),
            FetchState::Failed { fault } => !(fault is ConnectNotCalled),
        }
    }

    /// The query that is open in this state, if one is.
    pub open spec fn pending(self) -> Option<(nat, Attribute)> {
        match self {
            FetchState::AwaitingSupply { done } => Some((done.len(), Attribute::TotalSupply)),
            FetchState::AwaitingDecimals { done, supply } => Some((done.len(), Attribute::Decimals)),
            _ => None,
        }
    }

    /// The state after `reply` has come in for the open query. A finished
    /// fetch, complete or failed, takes no further reply.
    pub open spec fn absorb(self, reply: Reply) -> FetchState {
        match self {
            FetchState::AwaitingSupply { done } => match reply {
                Reply::Quantity(value) => FetchState::AwaitingDecimals { done, supply: value },
                Reply::Exponent(_) => FetchState::Failed {
                    fault: FetchFault::MalformedReply {
                        asset: done.len(),
                        attribute: Attribute::TotalSupply,
                    },
                },
                Reply::Failure(cause) => FetchState::Failed {
                    fault: FetchFault::QueryFailed {
                        asset: done.len(),
                        attribute: Attribute::TotalSupply,
                        cause,
                    },
                },
            },
            FetchState::AwaitingDecimals { done, supply } => match reply {
                Reply::Exponent(digits) => {
                    let records = done.push(
                        MetricRecord {
                            name: asset_name(done.len() as int),
                            quantity: supply,
                            exponent: digits,
                        },
                    );
                    if records.len() == ASSET_COUNT {
                        FetchState::Complete { records }
                    } else {
                        FetchState::AwaitingSupply { done: records }
                    }
                },
                Reply::Quantity(_) => FetchState::Failed {
                    fault: FetchFault::MalformedReply {
                        asset: done.len(),
                        attribute: Attribute::Decimals,
                    },
                },
                Reply::Failure(cause) => FetchState::Failed {
                    fault: FetchFault::QueryFailed {
                        asset: done.len(),
                        attribute: Attribute::Decimals,
                        cause,
                    },
                },
            },
            _ => self,
        }
    }

    /// The state after a failure that was met while the open query was being
    /// prepared. A finished fetch is not touched.
    pub open spec fn fail(self, fault: FetchFault) -> FetchState {
        if self.pending() is Some {
            FetchState::Failed { fault }
        } else {
            self
        }
    }

    /// What a fetch that is given up in this state has to show: the full
    /// metric set, or the reason why there is none.
    pub open spec fn outcome(self) -> Result<Seq<MetricRecord>, FetchFault> {
        match self {
            FetchState::AwaitingSupply { done } => Err(
                FetchFault::Unanswered { asset: done.len(), attribute: Attribute::TotalSupply },
            ),
            FetchState::AwaitingDecimals { done, supply } => Err(
                FetchFault::Unanswered { asset: done.len(), attribute: Attribute::Decimals },
            ),
            FetchState::Complete { records } => Ok(records),
            FetchState::Failed { fault } => Err(fault),
        }
    }

    /// The state after each of `replies` has come in, in order.
    pub open spec fn absorb_all(self, replies: Seq<Reply>) -> FetchState
        decreases replies.len(),
    {
        if replies.len() == 0 {
            self
        } else {
            self.absorb(replies[0]).absorb_all(replies.drop_first())
        }
    }

    /// Whether `actual` is the state that follows where `self` was to be
    /// entered. A state with an open query is entered once that query is
    /// prepared: the address of a contract is read before its first query,
    /// and each query is built on the interface. Where the address is no
    /// address, or the interface does not offer the function, the fetch fails
    /// instead; the failure's text is the outside parser's.
    pub open spec fn entered_as(self, actual: FetchState) -> bool {
        match self {
            FetchState::AwaitingSupply { done } => {
                if parsed_address(asset_address(done.len() as int)) is None {
                    actual matches FetchState::Failed {
                        fault: FetchFault::InvalidAddress { asset, cause },
                    } && asset == done.len()
                } else if !can_ask(Attribute::TotalSupply) {
                    actual matches FetchState::Failed {
                        fault: FetchFault::MalformedInterface { cause },
                    }
                } else {
                    actual == self
                }
            },
            FetchState::AwaitingDecimals { done, supply } => {
                if !can_ask(Attribute::Decimals) {
                    actual matches FetchState::Failed {
                        fault: FetchFault::MalformedInterface { cause },
                    }
                } else {
                    actual == self
                }
            },
            _ => actual == self,
        }
    }
}

/// Whether the interface that the queries are built on offers the function
/// that returns `attribute`.
pub open spec fn can_ask(attribute: Attribute) -> bool {
    parsed_interface(STABLECOIN_ABI@) matches Some(abi) && offers(abi, attribute.function_name())
}

/// The address of contract number `asset`, as bytes, where it is one.
pub open spec fn target_of(asset: nat) -> Option<Seq<u8>> {
    parsed_address(asset_address(asset as int))
}

/// How far a fetch has come, kept private to [`FetchProgress`].
enum Stage {
    Supply,
    Decimals { supply: [u64; 4] },
    Complete,
    Failed(FetchError),
}

/// The replies of a fetch so far, and what they amount to.
pub struct FetchProgress {
    records: Vec<StablecoinMetrics>,
    stage: Stage,
}

impl View for FetchProgress {
    type V = FetchState;

    closed spec fn view(&self) -> FetchState {
        match self.stage {
            Stage::Supply => FetchState::AwaitingSupply { done: records_of(self.records@) },
            Stage::Decimals { supply } => FetchState::AwaitingDecimals {
                done: records_of(self.records@),
                supply: limbs_value(supply@),
            },
            Stage::Complete => FetchState::Complete { records: records_of(self.records@) },
            Stage::Failed(error) => FetchState::Failed { fault: error@ },
        }
    }
}

impl FetchProgress {
    #[verifier::type_invariant]
    spec fn valid(self) -> bool {
        self@.wf()
    }

    /// A fetch before any reply.
    pub fn new() -> (progress: FetchProgress)
        ensures
            progress@ == FetchState::start(),
    {
        let progress = FetchProgress { records: Vec::new(), stage: Stage::Supply };
        assert(records_of(progress.records@) =~= Seq::empty());
        progress
    }

    /// The query that is open, if one is: the number of the contract and the
    /// figure asked for. The state is always one that a fetch can be in.
    pub fn pending(&self) -> (query: Option<(usize, Attribute)>)
        ensures
            self@.wf(),
            query matches Some((asset, attribute)) ==> self@.pending() == Some(
                (asset as nat, attribute),
            ) && asset < ASSET_COUNT,
            query is None ==> self@.pending() is None,
    {
        proof {
            use_type_invariant(self);
        }
        match self.stage {
            Stage::Supply => Some((self.records.len(), Attribute::TotalSupply)),
            Stage::Decimals { supply: _ } => Some((self.records.len(), Attribute::Decimals)),
            _ => None,
        }
    }

    /// Takes in the reply to the open query.
    pub fn absorb(self, reply: QueryReply) -> (next: FetchProgress)
        ensures
            next@ == self@.absorb(reply@),
    {
        proof {
            use_type_invariant(&self);
        }
        let FetchProgress { records, stage } = self;
        let asset: usize = records.len();
        match stage {
            Stage::Supply => match reply {
                QueryReply::Quantity(supply) => FetchProgress {
                    records,
                    stage: Stage::Decimals { supply },
                },
                QueryReply::Exponent(_) => FetchProgress {
                    records,
                    stage: Stage::Failed(
                        FetchError::MalformedReply { asset, attribute: Attribute::TotalSupply },
                    ),
                },
                QueryReply::Failure(cause) => FetchProgress {
                    records,
                    stage: Stage::Failed(
                        FetchError::QueryFailed { asset, attribute: Attribute::TotalSupply, cause },
                    ),
                },
            },
            Stage::Decimals { supply } => match reply {
                QueryReply::Exponent(decimals) => {
                    let ghost before = records_of(records@);
                    let mut records = records;
                    let name = String::from_str(name_of(asset));
                    records.push(StablecoinMetrics { name, total_supply: supply, decimals });
                    proof {
                        let added = MetricRecord {
                            name: asset_name(asset as int),
                            quantity: limbs_value(supply@),
                            exponent: decimals as nat,
                        };
                        assert(records_of(records@) =~= before.push(added));
                    }
                    if records.len() == ASSET_COUNT {
                        FetchProgress { records, stage: Stage::Complete }
                    } else {
                        FetchProgress { records, stage: Stage::Supply }
                    }
                },
                QueryReply::Quantity(_) => FetchProgress {
                    records,
                    stage: Stage::Failed(
                        FetchError::MalformedReply { asset, attribute: Attribute::Decimals },
                    ),
                },
                QueryReply::Failure(cause) => FetchProgress {
                    records,
                    stage: Stage::Failed(
                        FetchError::QueryFailed { asset, attribute: Attribute::Decimals, cause },
                    ),
                },
            },
            Stage::Complete => FetchProgress { records, stage: Stage::Complete },
            Stage::Failed(error) => FetchProgress { records, stage: Stage::Failed(error) },
        }
    }

    /// Ends the fetch with `error` where a query is open, and leaves a
    /// finished fetch as it is.
    fn fail(self, error: FetchError) -> (next: FetchProgress)
        requires
            !(error is ConnectNotCalled),
        ensures
            next@ == self@.fail(error@),
    {
        proof {
            use_type_invariant(&self);
        }
        let FetchProgress { records, stage } = self;
        match stage {
            Stage::Supply => FetchProgress { records, stage: Stage::Failed(error) },
            Stage::Decimals { supply: _ } => FetchProgress { records, stage: Stage::Failed(error) },
            Stage::Complete => FetchProgress { records, stage: Stage::Complete },
            Stage::Failed(first) => FetchProgress { records, stage: Stage::Failed(first) },
        }
    }

    /// Gives up the fetch: the full metric set where it is complete, else the
    /// reason why there is none.
    pub fn finish(self) -> (outcome: Result<Vec<StablecoinMetrics>, FetchError>)
        ensures
            match self@.outcome() {
                Ok(records) => outcome matches Ok(metrics) && records_of(metrics@) == records
                    && is_metric_set(records),
                Err(fault) => outcome matches Err(error) && error@ == fault
                    && !(error is ConnectNotCalled),
            },
    {
        proof {
            use_type_invariant(&self);
        }
        let FetchProgress { records, stage } = self;
        let asset: usize = records.len();
        match stage {
            Stage::Supply => Err(
                FetchError::Unanswered { asset, attribute: Attribute::TotalSupply },
            ),
            Stage::Decimals { supply: _ } => Err(
                FetchError::Unanswered { asset, attribute: Attribute::Decimals },
            ),
            Stage::Complete => Ok(records),
            Stage::Failed(error) => Err(error),
        }
    }
}

/// What the driver of a session has to do next.
pub enum FetchAction {
    /// Send this query for a total supply and hand back what comes of it.
    CallTotalSupply(SupplyCall),
    /// Send this query for the decimals and hand back what comes of it.
    CallDecimals(DecimalsCall),
    /// Nothing is left to ask: the fetch is complete or has failed.
    Stop,
}

/// What a session is: where its fetch stands, and the connection it runs on.
pub struct SessionView {
    pub state: FetchState,
    pub connection: Client,
}

impl SessionView {
    /// What the query that is open has to hold: it goes to the address of
    /// the contract whose turn it is, invokes the function that returns the
    /// figure whose turn it is, and is sent over the session's connection.
    pub open spec fn request(self) -> Option<Request> {
        match self.state.pending() {
            Some((asset, attribute)) => match target_of(asset) {
                Some(target) => Some(
                    Request {
                        target,
                        function: attribute.function_name(),
                        client: self.connection,
                    },
                ),
                None => None,
            },
            None => None,
        }
    }
}

impl FetchAction {
    /// Whether this is the action that `session` calls for: the query that is
    /// open, prepared as `request` says, or a stop where none is open.
    pub open spec fn fits(&self, session: SessionView) -> bool {
        match session.state.pending() {
            Some((asset, Attribute::TotalSupply)) => self matches FetchAction::CallTotalSupply(
                call,
            ) && Some(supply_request(*call)) == session.request(),
            Some((asset, Attribute::Decimals)) => self matches FetchAction::CallDecimals(call)
                && Some(decimals_request(*call)) == session.request(),
            None => self is Stop,
        }
    }
}

/// A failure to read the interface or to build a call on it, as a fetch error.
pub fn interface_outcome<T>(result: Result<T, String>) -> (outcome: Result<T, FetchError>)
    ensures
        result matches Ok(value) ==> outcome == Ok::<T, FetchError>(value),
        result matches Err(cause) ==> outcome matches Err(
            FetchError::MalformedInterface { cause: text },
        ) && text@ == cause@,
{
    match result {
        Ok(value) => Ok(value),
        Err(cause) => Err(FetchError::MalformedInterface { cause }),
    }
}

/// A failure to read the address of contract number `asset`, as a fetch error.
pub fn address_outcome(asset: usize, parsed: Result<[u8; 20], String>) -> (outcome: Result<
    [u8; 20],
    FetchError,
>)
    ensures
        parsed matches Ok(bytes) ==> outcome == Ok::<[u8; 20], FetchError>(bytes),
        parsed matches Err(cause) ==> outcome matches Err(
            FetchError::InvalidAddress { asset: number, cause: text },
        ) && number == asset && text@ == cause@,
{
    match parsed {
        Ok(bytes) => Ok(bytes),
        Err(cause) => Err(FetchError::InvalidAddress { asset, cause }),
    }
}

/// One fetch in progress on one connection.
pub struct FetchSession {
    client: Client,
    abi: Abi,
    contract: Contract,
    progress: FetchProgress,
    action: FetchAction,
}

impl View for FetchSession {
    type V = SessionView;

    closed spec fn view(&self) -> SessionView {
        SessionView { state: self.progress@, connection: self.client }
    }
}

impl FetchSession {
    #[verifier::type_invariant]
    spec fn valid(self) -> bool {
        &&& parsed_interface(STABLECOIN_ABI@) == Some(self.abi)
        &&& binding(self.contract).interface == self.abi
        &&& binding(self.contract).client == self.client
        &&& self.progress@.pending() matches Some((asset, attribute)) ==> target_of(asset) == Some(
            binding(self.contract).address,
        )
        &&& self.action.fits(self@)
    }

    /// Starts a fetch on `client`: reads the interface, then the address of
    /// the first contract, and builds the first query. A session comes to be
    /// exactly where all three succeed; it stands at the start and runs on
    /// `client`.
    pub fn begin(client: Client) -> (begun: Result<FetchSession, FetchError>)
        ensures
            begun is Ok <==> parsed_interface(STABLECOIN_ABI@) is Some && target_of(0) is Some
                && can_ask(Attribute::TotalSupply),
            begun matches Ok(session) ==> session@ == (SessionView {
                state: FetchState::start(),
                connection: client,
            }),
            begun matches Err(error) ==> if parsed_interface(STABLECOIN_ABI@) is None {
                error is MalformedInterface
            } else {
                FetchState::start().entered_as(FetchState::Failed { fault: error@ })
            },
    {
        let abi = match get_stablecoin_abi() {
            Ok(abi) => abi,
            Err(error) => {
                return Err(error);
            },
        };
        let bytes = match address_outcome(0, parse_address(address_of(0))) {
            Ok(bytes) => bytes,
            Err(error) => {
                return Err(error);
            },
        };
        let contract = bind_contract(bytes, &abi, &client);
        match interface_outcome(
            build_supply_call(&contract, Attribute::TotalSupply.function()),
        ) {
            Ok(call) => Ok(
                FetchSession {
                    client,
                    abi,
                    contract,
                    progress: FetchProgress::new(),
                    action: FetchAction::CallTotalSupply(call),
                },
            ),
            Err(error) => Err(error),
        }
    }

    /// What has to be done next: the open query, prepared for the contract
    /// and the figure whose turn it is and for this session's connection, or
    /// a stop.
    pub fn action(&self) -> (action: &FetchAction)
        ensures
            action.fits(self@),
    {
        proof {
            use_type_invariant(self);
        }
        &self.action
    }

    /// The query that is open, if one is: the number of the contract and the
    /// figure asked for. The state is always one that a fetch can be in.
    pub fn pending(&self) -> (query: Option<(usize, Attribute)>)
        ensures
            self@.state.wf(),
            query matches Some((asset, attribute)) ==> self@.state.pending() == Some(
                (asset as nat, attribute),
            ) && asset < ASSET_COUNT,
            query is None ==> self@.state.pending() is None,
    {
        self.progress.pending()
    }

    /// Takes in the reply to the open query and prepares the next one, on the
    /// same connection. Where the next query cannot be prepared the fetch
    /// fails.
    pub fn advance(self, reply: QueryReply) -> (next: FetchSession)
        ensures
            self@.state.absorb(reply@).entered_as(next@.state),
            next@.connection == self@.connection,
    {
        proof {
            use_type_invariant(&self);
        }
        let ghost before = self.progress@;
        let FetchSession { client, abi, contract, progress, action: _ } = self;
        let progress = progress.absorb(reply);
        match progress.pending() {
            None => FetchSession { client, abi, contract, progress, action: FetchAction::Stop },
            Some((asset, Attribute::TotalSupply)) => {
                match address_outcome(asset, parse_address(address_of(asset))) {
                    Ok(bytes) => {
                        let contract = bind_contract(bytes, &abi, &client);
                        match interface_outcome(
                            build_supply_call(&contract, Attribute::TotalSupply.function()),
                        ) {
                            Ok(call) => FetchSession {
                                client,
                                abi,
                                contract,
                                progress,
                                action: FetchAction::CallTotalSupply(call),
                            },
                            Err(error) => FetchSession {
                                client,
                                abi,
                                contract,
                                progress: progress.fail(error),
                                action: FetchAction::Stop,
                            },
                        }
                    },
                    Err(error) => FetchSession {
                        client,
                        abi,
                        contract,
                        progress: progress.fail(error),
                        action: FetchAction::Stop,
                    },
                }
            },
            Some((asset, Attribute::Decimals)) => {
                assert(before.pending() == Some((asset as nat, Attribute::TotalSupply)));
                match interface_outcome(
                    build_decimals_call(&contract, Attribute::Decimals.function()),
                ) {
                    Ok(call) => FetchSession {
                        client,
                        abi,
                        contract,
                        progress,
                        action: FetchAction::CallDecimals(call),
                    },
                    Err(error) => FetchSession {
                        client,
                        abi,
                        contract,
                        progress: progress.fail(error),
                        action: FetchAction::Stop,
                    },
                }
            },
        }
    }

    /// Gives up the session: the full metric set where the fetch is complete,
    /// else the reason why there is none.
    pub fn finish(self) -> (outcome: Result<Vec<StablecoinMetrics>, FetchError>)
        ensures
            match self@.state.outcome() {
                Ok(records) => outcome matches Ok(metrics) && records_of(metrics@) == records
                    && is_metric_set(records),
                Err(fault) => outcome matches Err(error) && error@ == fault
                    && !(error is ConnectNotCalled),
            },
    {
        let FetchSession { client: _, abi: _, contract: _, progress, action: _ } = self;
        progress.finish()
    }
}

} // verus!
