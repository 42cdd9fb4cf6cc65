//! The boundary to the Ethereum client libraries.
//!
//! Everything here is taken on trust: the types are opaque to the verifier,
//! and each function's contract is a claim about the library function that
//! its body calls. The rest of the crate is proved against these claims.

use crate::constants::STABLECOIN_ABI;
use ethers_contract::{ContractInstance, FunctionCall};
use ethers_core::abi::Abi;
use ethers_core::types::{Address, U256};
use ethers_providers::{Http, Provider};
use std::str::FromStr;
use std::sync::Arc;
use vstd::prelude::*;

verus! {

/// `ethers_providers::Provider`: a JSON-RPC client over a transport `P`.
#[verifier::external_type_specification]
#[verifier::external_body]
#[verifier::reject_recursive_types(P)]
pub struct ExProvider<P>(Provider<P>);

/// `ethers_providers::Http`: the HTTP transport.
#[verifier::external_type_specification]
#[verifier::external_body]
pub struct ExHttp(Http);

/// `ethers_core::abi::Abi`: the description of a contract's interface.
#[verifier::external_type_specification]
#[verifier::external_body]
pub struct ExAbi(Abi);

/// `ethers_core::types::U256`: the result type of a supply query.
#[verifier::external_type_specification]
#[verifier::external_body]
pub struct ExU256(U256);

/// `ethers_contract::ContractInstance`: an interface bound to an address and
/// a client.
#[verifier::external_type_specification]
#[verifier::external_body]
#[verifier::reject_recursive_types(B)]
#[verifier::reject_recursive_types(M)]
pub struct ExContractInstance<B, M>(ContractInstance<B, M>);

/// `ethers_contract::FunctionCall`: a call that is ready to be sent and whose
/// reply decodes to `D`.
#[verifier::external_type_specification]
#[verifier::external_body]
#[verifier::reject_recursive_types(B)]
#[verifier::reject_recursive_types(M)]
#[verifier::reject_recursive_types(D)]
pub struct ExFunctionCall<B, M, D>(FunctionCall<B, M, D>);

/// The connection handle as it is shared with the calls made through it.
pub type Client = Arc<Provider<Http>>;

/// A watched contract, ready to have calls built on it.
pub type Contract = ContractInstance<Client, Provider<Http>>;

/// A prepared `totalSupply` query.
pub type SupplyCall = FunctionCall<Client, Provider<Http>, U256>;

/// A prepared `decimals` query.
pub type DecimalsCall = FunctionCall<Client, Provider<Http>, u8>;

/// What a contract holds once it is bound.
pub struct Binding {
    /// The twenty bytes of the address that its calls go to.
    pub address: Seq<u8>,
    /// The interface that its calls are built on.
    pub interface: Abi,
    /// The connection that its calls are sent over.
    pub client: Client,
}

/// What a prepared call holds.
pub struct Request {
    /// The twenty bytes of the address that the call goes to.
    pub target: Seq<u8>,
    /// The name of the function that the call invokes.
    pub function: Seq<char>,
    /// The connection that the call is sent over.
    pub client: Client,
}

/// Whether `url` is accepted as the URL of an endpoint.
pub uninterp spec fn endpoint_parses(url: Seq<char>) -> bool;

/// The interface that `text` describes in JSON, if it describes one.
pub uninterp spec fn parsed_interface(text: Seq<char>) -> Option<Abi>;

/// The twenty bytes that `text` denotes as an address, if it denotes one.
pub uninterp spec fn parsed_address(text: Seq<char>) -> Option<Seq<u8>>;

/// Whether a call without arguments can be built on `abi` for the function
/// named `function`: the interface declares a function of that name, and the
/// first it declares under the name takes no input.
pub uninterp spec fn offers(abi: Abi, function: Seq<char>) -> bool;

/// What `contract` holds.
pub uninterp spec fn binding(contract: Contract) -> Binding;

/// What a prepared supply query holds.
pub uninterp spec fn supply_request(call: SupplyCall) -> Request;

/// What a prepared decimals query holds.
pub uninterp spec fn decimals_request(call: DecimalsCall) -> Request;

/// Calls `Provider::<Http>::try_from` on a `&str`. It parses the text as a URL
/// and, where that succeeds, builds an HTTP client for it; so it returns `Ok`
/// exactly for the texts that parse, which `endpoint_parses` names. The error
/// is the parser's, as text. Nothing is sent. (The client is built with the
/// TLS roots that are compiled in, so building it reads nothing from the
/// machine and does not fail.)
#[verifier::external_body]
pub(crate) fn open_provider(url: &str) -> (opened: Result<Provider<Http>, String>)
    ensures
        opened is Ok <==> endpoint_parses(url@),
{
    match Provider::<Http>::try_from(url) {
        Ok(provider) => Ok(provider),
        Err(error) => Err(error.to_string()),
    }
}

/// Calls `Arc::clone`, which makes another pointer to the same allocation:
/// the handle that comes back is a handle to the same connection.
#[verifier::external_body]
pub(crate) fn share_client(client: &Client) -> (shared: Client)
    ensures
        shared == *client,
{
    Arc::clone(client)
}

/// Calls `serde_json::from_str` for an `Abi`, on the one text that this crate
/// reads: the description of the stablecoin interface. (On other texts the
/// reader of parameter types can panic, for one on a type that is a lone
/// closing bracket; this text holds the types `uint256` and `uint8` only.)
/// The result depends on the text alone, and `parsed_interface` names it: the
/// interface where the text describes one, nothing where it does not. The
/// error is the parser's, as text.
#[verifier::external_body]
pub(crate) fn parse_interface(text: &str) -> (parsed: Result<Abi, String>)
    requires
        text@ == STABLECOIN_ABI@,
    ensures
        parsed matches Ok(abi) ==> parsed_interface(text@) == Some(abi),
        parsed is Err ==> parsed_interface(text@) is None,
{
    match serde_json::from_str::<Abi>(text) {
        Ok(abi) => Ok(abi),
        Err(error) => Err(error.to_string()),
    }
}

/// Calls `Address::from_str`, which reads the text, less a leading `0x`, as
/// hexadecimal digits, two to a byte and the first byte first, passing over
/// blanks, tabs and line ends among them; exactly twenty bytes make an
/// address. The result depends on the text alone, and `parsed_address` names
/// it: the bytes where the text is an address, nothing where it is not. The
/// error is the parser's, as text.
#[verifier::external_body]
pub(crate) fn parse_address(text: &str) -> (parsed: Result<[u8; 20], String>)
    ensures
        parsed matches Ok(bytes) ==> parsed_address(text@) == Some(bytes@),
        parsed is Err ==> parsed_address(text@) is None,
{
    match Address::from_str(text) {
        Ok(address) => Ok(address.0),
        Err(error) => Err(error.to_string()),
    }
}

/// Calls `ContractInstance::new` with a copy of the interface and another
/// handle to the client. It only stores its arguments, and `binding` names
/// what the contract then holds: that address, that interface and that
/// connection.
#[verifier::external_body]
pub(crate) fn bind_contract(address: [u8; 20], abi: &Abi, client: &Client) -> (contract: Contract)
    ensures
        binding(contract) == (Binding { address: address@, interface: *abi, client: *client }),
{
    ContractInstance::new(Address::from(address), abi.clone(), client.clone())
}

/// Calls `ContractInstance::method` for the function named `function`,
/// without arguments and with a 256-bit result, on a contract that is bound
/// to the interface this crate reads. It looks the name up in the interface
/// and encodes a call without arguments to the first function found, so it
/// succeeds exactly where `offers` holds; the call goes to the contract's
/// address over the contract's connection and invokes the function of that
/// name. (An interface that the parser has read files every function under
/// its own name.) The error comes back as text. Nothing is sent.
#[verifier::external_body]
pub(crate) fn build_supply_call(contract: &Contract, function: &str) -> (built: Result<
    SupplyCall,
    String,
>)
    requires
        parsed_interface(STABLECOIN_ABI@) == Some(binding(*contract).interface),
    ensures
        built is Ok <==> offers(binding(*contract).interface, function@),
        built matches Ok(call) ==> supply_request(call) == (Request {
            target: binding(*contract).address,
            function: function@,
            client: binding(*contract).client,
        }),
{
    match contract.method::<_, U256>(function, ()) {
        Ok(call) => Ok(call),
        Err(error) => Err(error.to_string()),
    }
}

/// Calls `ContractInstance::method` for the function named `function`,
/// without arguments and with an 8-bit result, on a contract that is bound to
/// the interface this crate reads. It looks the name up in the interface and
/// encodes a call without arguments to the first function found, so it
/// succeeds exactly where `offers` holds; the call goes to the contract's
/// address over the contract's connection and invokes the function of that
/// name. (An interface that the parser has read files every function under
/// its own name.) The error comes back as text. Nothing is sent.
#[verifier::external_body]
pub(crate) fn build_decimals_call(contract: &Contract, function: &str) -> (built: Result<
    DecimalsCall,
    String,
>)
    requires
        parsed_interface(STABLECOIN_ABI@) == Some(binding(*contract).interface),
    ensures
        built is Ok <==> offers(binding(*contract).interface, function@),
        built matches Ok(call) ==> decimals_request(call) == (Request {
            target: binding(*contract).address,
            function: function@,
            client: binding(*contract).client,
        }),
{
    match contract.method::<_, u8>(function, ()) {
        Ok(call) => Ok(call),
        Err(error) => Err(error.to_string()),
    }
}

} // verus!
