//! The values that travel through a monitor: metric records, query replies,
//! and the errors and warnings of the three operations.

use vstd::prelude::*;
use vstd::string::*;

verus! {

/// One watched contract's figures, as fetched.
#[derive(Debug, Clone, PartialEq, Eq)]
pub struct StablecoinMetrics {
    /// Display name of the contract.
    pub name: String,
    /// Raw supply, an integer count of the smallest unit: a 256-bit number,
    /// least significant 64-bit limb first.
    pub total_supply: [u64; 4],
    /// How many fractional decimal digits the raw supply carries.
    pub decimals: u8,
}

/// What a [`StablecoinMetrics`] stands for.
pub struct MetricRecord {
    pub name: Seq<char>,
    pub quantity: nat,
    pub exponent: nat,
}

impl View for StablecoinMetrics {
    type V = MetricRecord;

    open spec fn view(&self) -> MetricRecord {
        MetricRecord {
            name: self.name@,
            quantity: limbs_value(self.total_supply@),
            exponent: self.decimals as nat,
        }
    }
}

/// The records that a sequence of metrics stands for, in the same order.
pub open spec fn records_of(metrics: Seq<StablecoinMetrics>) -> Seq<MetricRecord> {
    Seq::new(metrics.len(), |i: int| metrics[i]@)
}

/// Which of the two figures of a contract a query asks for.
#[derive(Debug, Clone, Copy, PartialEq, Eq, Structural)]
pub enum Attribute {
    TotalSupply,
    Decimals,
}

impl Attribute {
    /// The name of the contract function that returns this figure.
    pub open spec fn function_name(self) -> Seq<char> {
        match self {
            Attribute::TotalSupply => "totalSupply"@,
            Attribute::Decimals => "decimals"@,
        }
    }

    /// The name of the contract function that returns this figure.
    pub fn function(self) -> (name: &'static str)
        ensures
            name@ == self.function_name(),
    {
        match self {
            Attribute::TotalSupply => "totalSupply",
            Attribute::Decimals => "decimals",
        }
    }
}

/// What came back from one query.
#[derive(Debug, Clone, PartialEq, Eq)]
pub enum QueryReply {
    /// A 256-bit unsigned integer, least significant 64-bit limb first.
    Quantity([u64; 4]),
    /// A small unsigned integer.
    Exponent(u8),
    /// The query could not be made or was not answered; the text says why.
    Failure(String),
}

/// What a [`QueryReply`] stands for.
pub enum Reply {
    Quantity(nat),
    Exponent(nat),
    Failure(Seq<char>),
}

/// The number that four 64-bit limbs stand for, least significant first.
pub open spec fn limbs_value(limbs: Seq<u64>) -> nat {
    (limbs[0] as nat) + (limbs[1] as nat) * 0x1_0000_0000_0000_0000
        + (limbs[2] as nat) * 0x1_0000_0000_0000_0000_0000_0000_0000_0000
        + (limbs[3] as nat)
        * 0x1_0000_0000_0000_0000_0000_0000_0000_0000_0000_0000_0000_0000
}

impl View for QueryReply {
    type V = Reply;

    open spec fn view(&self) -> Reply {
        match self {
            QueryReply::Quantity(limbs) => Reply::Quantity(limbs_value(limbs@)),
            QueryReply::Exponent(digits) => Reply::Exponent(*digits as nat),
            QueryReply::Failure(cause) => Reply::Failure(cause@),
        }
    }
}

/// Why a connection could not be opened.
#[derive(Debug, Clone, PartialEq, Eq)]
pub enum ConnectError {
    /// No API key was supplied.
    MissingCredential,
    /// The endpoint's URL, built from the API key, is no URL.
    InvalidEndpoint { cause: String },
}

/// What a [`ConnectError`] stands for.
pub enum ConnectFault {
    MissingCredential,
    InvalidEndpoint { cause: Seq<char> },
}

impl View for ConnectError {
    type V = ConnectFault;

    open spec fn view(&self) -> ConnectFault {
        match self {
            ConnectError::MissingCredential => ConnectFault::MissingCredential,
            ConnectError::InvalidEndpoint { cause } => ConnectFault::InvalidEndpoint {
                cause: cause@,
            },
        }
    }
}

impl ConnectFault {
    /// The text that describes the fault.
    pub open spec fn message(self) -> Seq<char> {
        match self {
            ConnectFault::MissingCredential => "environment variable not found"@,
            ConnectFault::InvalidEndpoint { cause } => cause,
        }
    }
}

impl ConnectError {
    /// The text that describes the error.
    pub fn message(&self) -> (text: String)
        ensures
            text@ == self@.message(),
    {
        match self {
            ConnectError::MissingCredential => String::from_str("environment variable not found"),
            ConnectError::InvalidEndpoint { cause } => cause.clone(),
        }
    }
}

/// The one thing `connect` warns about without failing.
#[derive(Debug, Clone, Copy, PartialEq, Eq, Structural)]
pub enum ConnectWarning {
    /// A connection was already held; the new one replaces it.
    ProviderAlreadyExists,
}

impl ConnectWarning {
    /// The text of the warning.
    pub fn message(&self) -> (text: String)
        ensures
            text@ == "[WARNING] Provider already exists!"@,
    {
        String::from_str("[WARNING] Provider already exists!")
    }
}

/// Why no metric set was produced.
#[derive(Debug, Clone, PartialEq, Eq)]
pub enum FetchError {
    /// The monitor holds no connection: `connect` has not succeeded on it.
    ConnectNotCalled,
    /// The description of the contract interface could not be read, or lacks
    /// a function that is to be called.
    MalformedInterface { cause: String },
    /// The configured address of a watched contract is no address.
    InvalidAddress { asset: usize, cause: String },
    /// A query was made and failed.
    QueryFailed { asset: usize, attribute: Attribute, cause: String },
    /// A reply is not of the kind that was asked for.
    MalformedReply { asset: usize, attribute: Attribute },
    /// The queries were given up before this one was answered.
    Unanswered { asset: usize, attribute: Attribute },
}

/// What a [`FetchError`] stands for.
pub enum FetchFault {
    ConnectNotCalled,
    MalformedInterface { cause: Seq<char> },
    InvalidAddress { asset: nat, cause: Seq<char> },
    QueryFailed { asset: nat, attribute: Attribute, cause: Seq<char> },
    MalformedReply { asset: nat, attribute: Attribute },
    Unanswered { asset: nat, attribute: Attribute },
}

impl View for FetchError {
    type V = FetchFault;

    open spec fn view(&self) -> FetchFault {
        match self {
            FetchError::ConnectNotCalled => FetchFault::ConnectNotCalled,
            FetchError::MalformedInterface { cause } => FetchFault::MalformedInterface {
                cause: cause@,
            },
            FetchError::InvalidAddress { asset, cause } => FetchFault::InvalidAddress {
                asset: *asset as nat,
                cause: cause@,
            },
            FetchError::QueryFailed { asset, attribute, cause } => FetchFault::QueryFailed {
                asset: *asset as nat,
                attribute: *attribute,
                cause: cause@,
            },
            FetchError::MalformedReply { asset, attribute } => FetchFault::MalformedReply {
                asset: *asset as nat,
                attribute: *attribute,
            },
            FetchError::Unanswered { asset, attribute } => FetchFault::Unanswered {
                asset: *asset as nat,
                attribute: *attribute,
            },
        }
    }
}

impl FetchFault {
    /// The text that describes the fault.
    pub open spec fn message(self) -> Seq<char> {
        match self {
            FetchFault::ConnectNotCalled => "[ERROR] No provider found - connect() was not called first"@,
            FetchFault::MalformedInterface { cause } => cause,
            FetchFault::InvalidAddress { asset, cause } => cause,
            FetchFault::QueryFailed { asset, attribute, cause } => cause,
            FetchFault::MalformedReply { asset, attribute } => "[ERROR] Reply does not fit the query"@,
            FetchFault::Unanswered { asset, attribute } => "[ERROR] Query was not answered"@,
        }
    }
}

impl FetchError {
    /// The text that describes the error.
    pub fn message(&self) -> (text: String)
        ensures
            text@ == self@.message(),
    {
        match self {
            FetchError::ConnectNotCalled => String::from_str(
                "[ERROR] No provider found - connect() was not called first",
            ),
            FetchError::MalformedInterface { cause } => cause.clone(),
            FetchError::InvalidAddress { asset: _, cause } => cause.clone(),
            FetchError::QueryFailed { asset: _, attribute: _, cause } => cause.clone(),
            FetchError::MalformedReply { asset: _, attribute: _ } => String::from_str(
                "[ERROR] Reply does not fit the query",
            ),
            FetchError::Unanswered { asset: _, attribute: _ } => String::from_str(
                "[ERROR] Query was not answered",
            ),
        }
    }
}

/// Why nothing could be displayed.
#[derive(Debug, Clone, Copy, PartialEq, Eq, Structural)]
pub enum DisplayError {
    /// The monitor holds no metric set: `fetch_data` has not succeeded on it.
    FetchNotCalled,
}

impl DisplayError {
    /// The text that describes the error.
    pub fn message(&self) -> (text: String)
        ensures
            text@ == "[ERROR] No metrics found - fetch_data() was not called first"@,
    {
        String::from_str("[ERROR] No metrics found - fetch_data() was not called first")
    }
}

} // verus!
