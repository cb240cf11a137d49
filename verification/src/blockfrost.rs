//! Data shapes of the external data provider and the pure decisions around
//! calling it: which base endpoint a network uses, which network an address
//! belongs to, and how responses reduce to what callers need. The HTTP
//! client itself lives at the service edge.

use vstd::prelude::*;

use crate::address::bech32_render_of;
use crate::address::spec_has_addr_prefix;
use crate::hexcodec::spec_hex_decode;
use crate::hexcodec::hex_decode_bytes;
use vstd::string::StringExecFns;
use vstd::string::StringSliceAdditionalSpecFns;
use vstd::utf8::encode_utf8;

verus! {

/// One transaction in the provider's list response.
#[derive(Debug)]
pub struct BlockfrostTransaction {
    pub tx_hash: String,
    pub tx_index: Option<u32>,
    pub block_height: u64,
    pub block_time: u64,
}

/// The provider's detail response for one transaction.
#[derive(Debug)]
pub struct BlockfrostTxDetails {
    pub hash: String,
    pub block: String,
    pub block_height: u64,
    pub block_time: u64,
    pub slot: Option<u64>,
    pub index: Option<u32>,
    pub fees: String,
}

/// The provider's response for one address.
#[derive(Debug)]
pub struct BlockfrostAddressInfo {
    pub address: String,
    pub amount: Vec<BlockfrostAmount>,
    pub stake_address: Option<String>,
    pub tx_count: usize,
    pub kind: Option<String>,
}

/// One asset amount in an address response.
#[derive(Debug)]
pub struct BlockfrostAmount {
    pub unit: String,
    pub quantity: String,
}

impl Clone for BlockfrostAmount {
    fn clone(&self) -> (r: Self)
        ensures
            r.unit@ == self.unit@,
            r.quantity@ == self.quantity@,
    {
        BlockfrostAmount { unit: self.unit.clone(), quantity: self.quantity.clone() }
    }
}

/// The network a textual address belongs to.
#[derive(Clone, Copy, Debug, PartialEq, Eq, Structural)]
pub enum AddressNetwork {
    Mainnet,
    Testnet,
    Unknown,
}

/// Whether the byte rendering starts with the mainnet prefix `addr1`.
pub open spec fn spec_has_mainnet_prefix(b: Seq<u8>) -> bool {
    b.len() >= 5 && b[0] == 97 && b[1] == 100 && b[2] == 100 && b[3] == 114 && b[4] == 49
}

/// Whether the byte rendering starts with the testnet prefix `addr_test`.
pub open spec fn spec_has_testnet_prefix(b: Seq<u8>) -> bool {
    b.len() >= 9 && b[0] == 97 && b[1] == 100 && b[2] == 100 && b[3] == 114 && b[4] == 95 && b[5]
        == 116 && b[6] == 101 && b[7] == 115 && b[8] == 116
}

/// The network an address's text form names.
pub open spec fn spec_network_of(b: Seq<u8>) -> AddressNetwork {
    if spec_has_mainnet_prefix(b) {
        AddressNetwork::Mainnet
    } else if spec_has_testnet_prefix(b) {
        AddressNetwork::Testnet
    } else {
        AddressNetwork::Unknown
    }
}

/// Detects the network from an address's text form.
pub fn detect_network_from_address(address: &str) -> (r: AddressNetwork)
    ensures
        r == spec_network_of(address.spec_bytes()),
{
    let b = address.as_bytes();
    if b.len() >= 5 && b[0] == 97 && b[1] == 100 && b[2] == 100 && b[3] == 114 && b[4] == 49 {
        AddressNetwork::Mainnet
    } else if b.len() >= 9 && b[0] == 97 && b[1] == 100 && b[2] == 100 && b[3] == 114 && b[4]
        == 95 && b[5] == 116 && b[6] == 101 && b[7] == 115 && b[8] == 116 {
        AddressNetwork::Testnet
    } else {
        AddressNetwork::Unknown
    }
}

/// The provider networks the service can be configured for.
#[derive(Clone, Copy, Debug, PartialEq, Eq, Structural)]
pub enum ProviderNetwork {
    Mainnet,
    Preprod,
    Preview,
}

/// The provider's base endpoint for each network, with a trailing slash so
/// that joined paths stay under it.
pub fn blockfrost_base_url(network: ProviderNetwork) -> (r: String)
    ensures
        network is Mainnet ==> r@ == "https://cardano-mainnet.blockfrost.io/api/v0/"@,
        network is Preprod ==> r@ == "https://cardano-preprod.blockfrost.io/api/v0/"@,
        network is Preview ==> r@ == "https://cardano-preview.blockfrost.io/api/v0/"@,
{
    match network {
        ProviderNetwork::Mainnet => <String as StringExecFns>::from_str(
            "https://cardano-mainnet.blockfrost.io/api/v0/",
        ),
        ProviderNetwork::Preprod => <String as StringExecFns>::from_str(
            "https://cardano-preprod.blockfrost.io/api/v0/",
        ),
        ProviderNetwork::Preview => <String as StringExecFns>::from_str(
            "https://cardano-preview.blockfrost.io/api/v0/",
        ),
    }
}

/// Whether an address and the configured provider network disagree in a way
/// that will return no data: a mainnet address on a test network, or a
/// testnet address on the main network.
pub fn network_mismatch(address_network: AddressNetwork, provider: ProviderNetwork) -> (r: bool)
    ensures
        r == ((address_network is Mainnet && !(provider is Mainnet)) || (
        address_network is Testnet && provider is Mainnet)),
{
    match (address_network, provider) {
        (AddressNetwork::Mainnet, ProviderNetwork::Mainnet) => false,
        (AddressNetwork::Mainnet, _) => true,
        (AddressNetwork::Testnet, ProviderNetwork::Mainnet) => true,
        _ => false,
    }
}

/// The address form handed to the provider: one already in checksum form is
/// kept; hex is converted; anything else has no provider form.
pub open spec fn spec_provider_address(a: Seq<char>) -> Option<Seq<char>> {
    if spec_has_addr_prefix(encode_utf8(a)) {
        Some(a)
    } else {
        match spec_hex_decode(encode_utf8(a)) {
            Some(b) => {
                if b.len() > 0 {
                    bech32_render_of(b)
                } else {
                    None
                }
            },
            None => None,
        }
    }
}

/// Normalizes an address for the provider, which requires the checksum form:
/// checksum text passes through, hex is converted, anything else is refused.
pub fn normalize_address_for_blockfrost(address: &String) -> (r: Option<String>)
    ensures
        r is Some <==> spec_provider_address(address@) is Some,
        r matches Some(v) ==> Some(v@) == spec_provider_address(address@),
{
    let ab = address.as_str().as_bytes();
    if ab.len() >= 4 && ab[0] == 97 && ab[1] == 100 && ab[2] == 100 && ab[3] == 114 {
        return Some(address.clone());
    }
    match hex_decode_bytes(ab) {
        Some(b) => {
            if b.len() > 0 {
                crate::address::bech32_of_address_bytes(b.as_slice())
            } else {
                None
            }
        },
        None => None,
    }
}

/// The quantity of the first amount whose unit is `lovelace`, or zero when
/// there is none.
pub open spec fn spec_lovelace_balance(s: Seq<BlockfrostAmount>) -> Seq<char>
    decreases s.len(),
{
    if s.len() == 0 {
        "0"@
    } else if s.first().unit@ == "lovelace"@ {
        s.first().quantity@
    } else {
        spec_lovelace_balance(s.drop_first())
    }
}

/// The balance of the base currency in an address response.
pub fn lovelace_balance(amounts: &Vec<BlockfrostAmount>) -> (r: String)
    ensures
        r@ == spec_lovelace_balance(amounts@),
{
    let unit = <String as StringExecFns>::from_str("lovelace");
    let n = amounts.len();
    let mut i: usize = 0;
    assert(amounts@.skip(0) =~= amounts@);
    while i < n
        invariant
            i <= n,
            n == amounts@.len(),
            unit@ == "lovelace"@,
            spec_lovelace_balance(amounts@) == spec_lovelace_balance(amounts@.skip(i as int)),
        decreases n - i,
    {
        proof {
            assert(amounts@.skip(i as int).first() == amounts@[i as int]);
            assert(amounts@.skip(i as int).drop_first() =~= amounts@.skip(i + 1));
        }
        if amounts[i].unit == unit {
            return amounts[i].quantity.clone();
        }
        i = i + 1;
    }
    assert(amounts@.skip(i as int).len() == 0);
    <String as StringExecFns>::from_str("0")
}

} // verus!
