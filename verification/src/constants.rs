//! The fixed configuration: which contracts are watched and how they are reached.

use vstd::prelude::*;

verus! {

/// Contract address of Tether USD on Ethereum mainnet.
pub const USDT_ADDRESS: &'static str = "0xdAC17F958D2ee523a2206206994597C13D831ec7";

/// Contract address of USD Coin on Ethereum mainnet.
pub const USDC_ADDRESS: &'static str = "0xA0b86991c6218b36c1d19D4a2e9Eb0cE3606eB48";

/// Everything of the JSON-RPC endpoint's URL but the API key, which follows it.
pub const ENDPOINT_PREFIX: &'static str = "https://eth-mainnet.g.alchemy.com/v2/";

/// The two read-only functions that are queried on every watched contract.
pub const STABLECOIN_ABI: &'static str = "[{\"constant\":true,\"inputs\":[],\"name\":\"totalSupply\",\"outputs\":[{\"name\":\"\",\"type\":\"uint256\"}],\"type\":\"function\"},{\"constant\":true,\"inputs\":[],\"name\":\"decimals\",\"outputs\":[{\"name\":\"\",\"type\":\"uint8\"}],\"type\":\"function\"}]";

/// How many contracts are watched.
pub const ASSET_COUNT: usize = 2;

/// The address of the `index`-th watched contract, as text.
pub open spec fn asset_address(index: int) -> Seq<char> {
    if index == 0 {
        USDT_ADDRESS@
    } else {
        USDC_ADDRESS@
    }
}

/// The display name of the `index`-th watched contract.
pub open spec fn asset_name(index: int) -> Seq<char> {
    if index == 0 {
        "USDT"@
    } else {
        "USDC"@
    }
}

/// The address of a watched contract.
pub fn address_of(index: usize) -> (address: &'static str)
    requires
        index < ASSET_COUNT,
    ensures
        address@ == asset_address(index as int),
{
    if index == 0 {
        USDT_ADDRESS
    } else {
        USDC_ADDRESS
    }
}

/// The display name of a watched contract.
pub fn name_of(index: usize) -> (name: &'static str)
    requires
        index < ASSET_COUNT,
    ensures
        name@ == asset_name(index as int),
{
    if index == 0 {
        "USDT"
    } else {
        "USDC"
    }
}

} // verus!
