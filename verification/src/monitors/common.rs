//! What both monitors share: opening the connection, reading the contract
//! interface, closing a fetch, and rendering a metric set.

use crate::constants::{ENDPOINT_PREFIX, STABLECOIN_ABI};
use crate::monitors::decimal::{amount_text, push_amount};
use crate::monitors::gateway::{
    endpoint_parses, open_provider, parse_interface, parsed_interface,
};
use crate::monitors::session::{interface_outcome, is_metric_set, FetchSession};
use crate::monitors::types::{
    records_of, ConnectError, FetchError, MetricRecord, StablecoinMetrics,
};
use ethers_core::abi::Abi;
use ethers_providers::{Http, Provider};
use vstd::prelude::*;
use vstd::string::*;

verus! {

/// The interface of a stablecoin contract as far as a monitor uses it: the
/// two read-only functions `totalSupply` and `decimals`, read from their JSON
/// description.
pub fn get_stablecoin_abi() -> (abi: Result<Abi, FetchError>)
    ensures
        abi matches Ok(read) ==> parsed_interface(STABLECOIN_ABI@) == Some(read),
        abi matches Err(error) ==> parsed_interface(STABLECOIN_ABI@) is None
            && error is MalformedInterface,
{
    interface_outcome(parse_interface(STABLECOIN_ABI))
}

/// The outcome of a session that its driver has run until it stopped: the
/// full metric set, or the reason why there is none. A session that is given
/// up with a query open yields that query as unanswered.
pub fn fetch_stablecoin_metrics(session: FetchSession) -> (outcome: Result<
    Vec<StablecoinMetrics>,
    FetchError,
>)
    ensures
        match session@.state.outcome() {
            Ok(records) => outcome matches Ok(metrics) && records_of(metrics@) == records
                && is_metric_set(records),
            Err(fault) => outcome matches Err(error) && error@ == fault
                && !(error is ConnectNotCalled),
        },
{
    session.finish()
}

/// The line that shows one record: its name, then its supply in units, to
/// two fractional digits.
pub open spec fn supply_line(record: MetricRecord) -> Seq<char> {
    record.name + " Supply: $"@ + amount_text(record.quantity, record.exponent)
}

/// The lines that show `records`, one for each and in the same order.
pub open spec fn supply_lines(records: Seq<MetricRecord>) -> Seq<Seq<char>> {
    Seq::new(records.len(), |i: int| supply_line(records[i]))
}

/// What a vector of strings holds, as text.
pub open spec fn texts_of(lines: Seq<String>) -> Seq<Seq<char>> {
    Seq::new(lines.len(), |i: int| lines[i]@)
}

/// Renders each record as a line: the name, ` Supply: $`, and the supply in
/// units, rounded to two fractional digits.
pub fn format_supply(metrics: &[StablecoinMetrics]) -> (lines: Vec<String>)
    ensures
        texts_of(lines@) == supply_lines(records_of(metrics@)),
{
    let mut lines: Vec<String> = Vec::new();
    let mut i: usize = 0;
    while i < metrics.len()
        invariant
            i <= metrics.len(),
            lines.len() == i,
            forall|k: int| 0 <= k < i ==> (#[trigger] lines[k])@ == supply_line(metrics[k]@),
        decreases metrics.len() - i,
    {
        let metric = &metrics[i];
        let mut line = metric.name.clone();
        line.append(" Supply: $");
        push_amount(&mut line, &metric.total_supply, metric.decimals);
        lines.push(line);
        i = i + 1;
    }
    assert(texts_of(lines@) =~= supply_lines(records_of(metrics@)));
    lines
}

/// The URL of the endpoint for `api_key`.
pub open spec fn endpoint_of(api_key: Seq<char>) -> Seq<char> {
    ENDPOINT_PREFIX@ + api_key
}

/// The URL of the endpoint for `api_key`.
pub fn endpoint_url(api_key: &str) -> (url: String)
    ensures
        url@ == endpoint_of(api_key@),
{
    let mut url = String::from_str(ENDPOINT_PREFIX);
    url.append(api_key);
    url
}

/// What an attempt to open the endpoint amounts to.
pub fn provider_outcome(opened: Result<Provider<Http>, String>) -> (outcome: Result<
    Provider<Http>,
    ConnectError,
>)
    ensures
        opened matches Ok(provider) ==> outcome == Ok::<Provider<Http>, ConnectError>(provider),
        opened matches Err(cause) ==> outcome matches Err(
            ConnectError::InvalidEndpoint { cause: text },
        ) && text@ == cause@,
{
    match opened {
        Ok(provider) => Ok(provider),
        Err(cause) => Err(ConnectError::InvalidEndpoint { cause }),
    }
}

/// Opens the connection to the endpoint for `api_key`. Without a key there is
/// no connection; with one, there is a connection exactly if the key makes a
/// URL of the endpoint. Nothing is sent yet.
pub fn create_provider(api_key: Option<String>) -> (provider: Result<Provider<Http>, ConnectError>)
    ensures
        provider is Ok <==> (api_key matches Some(key) && endpoint_parses(endpoint_of(key@))),
        provider matches Err(error) ==> (error is MissingCredential <==> api_key is None),
{
    match api_key {
        None => Err(ConnectError::MissingCredential),
        Some(key) => {
            let url = endpoint_url(key.as_str());
            provider_outcome(open_provider(url.as_str()))
        },
    }
}

} // verus!
