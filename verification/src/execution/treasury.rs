//! The on-chain treasury: calls to the AgentTreasury contract.
//!
//! `grantCredit(address agent, uint256 ceiling, uint256 expiry)` and
//! `recallCredit(address agent, string reason)` are ABI-encoded here; the
//! application signs and sends the resulting call data. Without both a
//! banker key and a contract address the client runs in stub mode and
//! produces no call at all.

use vstd::prelude::*;
use crate::bridge::{
    abi_address_string, abi_address_uint_uint, abi_encode_address_string, abi_encode_address_uint_uint,
    address_parse, keccak256, keccak256_of, parse_address, signer_address, signer_key_parse,
};
use crate::text::{parse_u64, strip_hex_prefix, u64_text_value, without_hex_prefix};
use crate::types::AppError;

verus! {

/// The RPC endpoint used when none is configured (Base Sepolia).
pub open spec fn default_rpc_url() -> Seq<char> {
    "https://sepolia.base.org"@
}

/// The chain used when none is configured (Base Sepolia).
pub open spec fn default_chain_id() -> u64 {
    84532
}

/// The banker key a configured text yields: a non-empty text that, without
/// its `0x` prefix, `alloy` accepts as a private key.
pub open spec fn configured_key(key: Option<String>) -> Option<Seq<char>> {
    match key {
        Some(k) => if k@.len() > 0 && signer_key_parse(without_hex_prefix(k@)) is Ok {
            Some(without_hex_prefix(k@))
        } else {
            None
        },
        None => None,
    }
}

/// The contract address a configured text yields: a non-empty text that
/// `alloy` accepts as an address.
pub open spec fn configured_address(address: Option<String>) -> Option<Seq<u8>> {
    match address {
        Some(a) => if a@.len() > 0 && address_parse(a@) is Ok { Some(address_parse(a@)->Ok_0) } else { None },
        None => None,
    }
}

/// The four-byte selector of a Solidity function signature.
pub open spec fn selector_of(signature: Seq<char>) -> Seq<u8> {
    keccak256_of(vstd::utf8::encode_utf8(signature)).take(4)
}

/// Call data of `grantCredit(address,uint256,uint256)`.
pub open spec fn grant_credit_calldata(agent: Seq<u8>, ceiling: u64, expiry: u64) -> Seq<u8> {
    selector_of("grantCredit(address,uint256,uint256)"@) + abi_address_uint_uint(agent, ceiling, expiry)
}

/// Call data of `recallCredit(address,string)`.
pub open spec fn recall_credit_calldata(agent: Seq<u8>, reason: Seq<char>) -> Seq<u8> {
    selector_of("recallCredit(address,string)"@) + abi_address_string(agent, reason)
}

/// Whole seconds of a millisecond instant (rounded down), as a contract
/// `uint256` from a 64-bit value.
pub open spec fn expiry_seconds(expiry_ms: i64) -> u64 {
    (expiry_ms as int / 1000) as u64
}

/// Client for the AgentTreasury contract.
pub struct TreasuryClient {
    /// The banker's private key, hex without `0x` (None = stub mode).
    signer_key: Option<String>,
    /// Deployed contract address, 20 bytes.
    contract_address: Option<Vec<u8>>,
    /// EVM JSON-RPC endpoint.
    rpc_url: String,
    /// Chain id.
    chain_id: u64,
}

/// The four-byte selector of a Solidity function signature.
fn selector(signature: &str) -> (r: Vec<u8>)
    ensures
        r@ == selector_of(signature@),
        r@.len() == 4,
{
    let digest = keccak256(signature.as_bytes());
    let mut r: Vec<u8> = Vec::new();
    let mut i: usize = 0;
    while i < 4
        invariant
            i <= 4,
            digest@.len() == 32,
            r@ == digest@.take(i as int),
        decreases 4 - i,
    {
        r.push(digest[i]);
        i = i + 1;
        assert(r@ =~= digest@.take(i as int));
    }
    r
}

/// Appends the bytes of `tail` to `head`.
fn concat_bytes(head: Vec<u8>, tail: &Vec<u8>) -> (r: Vec<u8>)
    ensures
        r@ == head@ + tail@,
{
    let mut r = head;
    let ghost start = r@;
    let mut i: usize = 0;
    while i < tail.len()
        invariant
            i <= tail@.len(),
            r@ == start + tail@.take(i as int),
        decreases tail@.len() - i,
    {
        r.push(tail[i]);
        i = i + 1;
        assert(r@ =~= start + tail@.take(i as int));
    }
    assert(tail@.take(tail@.len() as int) =~= tail@);
    r
}

/// The message of an invalid-address error: `Invalid agent address: ` and
/// the parser's error text.
fn invalid_address(e: String) -> (r: AppError)
    ensures
        r matches AppError::Internal(m) && m@ == "Invalid agent address: "@ + e@,
{
    let mut m = String::from_str("Invalid agent address: ");
    m.append(e.as_str());
    AppError::Internal(m)
}

/// ABI call data of `grantCredit(agent, ceiling, expiry)`: the selector and
/// three words, 100 bytes. Refused (`Internal`) where the agent address does
/// not parse.
pub fn encode_grant_credit(agent_address: &str, ceiling: u64, expiry: u64) -> (r: Result<Vec<u8>, AppError>)
    ensures
        address_parse(agent_address@) matches Ok(a) ==> r matches Ok(data)
            && data@ == grant_credit_calldata(a, ceiling, expiry) && data@.len() == 100,
        address_parse(agent_address@) matches Err(e) ==> r matches Err(AppError::Internal(m))
            && m@ == "Invalid agent address: "@ + e,
{
    match parse_address(agent_address) {
        Ok(agent) => {
            let params = abi_encode_address_uint_uint(agent.as_slice(), ceiling, expiry);
            let head = selector("grantCredit(address,uint256,uint256)");
            Ok(concat_bytes(head, &params))
        },
        Err(e) => Err(invalid_address(e)),
    }
}

/// ABI call data of `recallCredit(agent, reason)`: the selector, the address
/// word, the offset and length words and the reason's bytes padded to whole
/// words. Refused (`Internal`) where the agent address does not parse.
pub fn encode_recall_credit(agent_address: &str, reason: &str) -> (r: Result<Vec<u8>, AppError>)
    ensures
        address_parse(agent_address@) matches Ok(a) ==> r matches Ok(data)
            && data@ == recall_credit_calldata(a, reason@)
            && data@.len() == 100 + 32 * ((vstd::utf8::encode_utf8(reason@).len() + 31) / 32),
        address_parse(agent_address@) matches Err(e) ==> r matches Err(AppError::Internal(m))
            && m@ == "Invalid agent address: "@ + e,
{
    match parse_address(agent_address) {
        Ok(agent) => {
            let params = abi_encode_address_string(agent.as_slice(), reason);
            let head = selector("recallCredit(address,string)");
            Ok(concat_bytes(head, &params))
        },
        Err(e) => Err(invalid_address(e)),
    }
}

impl TreasuryClient {
    /// The banker key, hex without `0x`, when one is configured.
    pub closed spec fn key(&self) -> Option<Seq<char>> {
        match self.signer_key {
            Some(k) => Some(k@),
            None => None,
        }
    }

    /// The contract address, when one is configured.
    pub closed spec fn contract(&self) -> Option<Seq<u8>> {
        match self.contract_address {
            Some(a) => Some(a@),
            None => None,
        }
    }

    /// The RPC endpoint.
    pub closed spec fn rpc(&self) -> Seq<char> {
        self.rpc_url@
    }

    /// The chain id.
    pub closed spec fn chain(&self) -> u64 {
        self.chain_id
    }

    /// Whether calls are sent: both a key and a contract are configured.
    pub open spec fn live(&self) -> bool {
        self.key() is Some && self.contract() is Some
    }

    /// A client from configuration texts: the RPC endpoint (Base Sepolia when
    /// absent), the chain id (84532 when absent or not a number), the banker
    /// key (with or without `0x`) and the contract address. A key or address
    /// that is empty or does not parse is left out, which puts the client in
    /// stub mode.
    pub fn from_config(
        rpc_url: Option<String>,
        chain_id: Option<String>,
        banker_key: Option<String>,
        treasury_address: Option<String>,
    ) -> (r: TreasuryClient)
        ensures
            r.rpc() == (match rpc_url { Some(u) => u@, None => default_rpc_url() }),
            r.chain() == (match chain_id {
                Some(c) => match u64_text_value(c@) { Some(v) => v, None => default_chain_id() },
                None => default_chain_id(),
            }),
            r.key() == configured_key(banker_key),
            r.contract() == configured_address(treasury_address),
    {
        let rpc_url = match rpc_url {
            Some(u) => u,
            None => String::from_str("https://sepolia.base.org"),
        };
        let chain_id: u64 = match chain_id {
            Some(c) => match parse_u64(c.as_str()) {
                Some(v) => v,
                None => 84532,
            },
            None => 84532,
        };
        let signer_key = match banker_key {
            Some(k) => {
                if k.unicode_len() == 0 {
                    None
                } else {
                    let stripped = strip_hex_prefix(k.as_str());
                    match signer_address(stripped.as_str()) {
                        Ok(_) => Some(stripped),
                        Err(_) => None,
                    }
                }
            },
            None => None,
        };
        let contract_address = match treasury_address {
            Some(a) => {
                if a.unicode_len() == 0 {
                    None
                } else {
                    match parse_address(a.as_str()) {
                        Ok(bytes) => Some(bytes),
                        Err(_) => None,
                    }
                }
            },
            None => None,
        };
        proof { reveal_strlit("https://sepolia.base.org"); }
        TreasuryClient { signer_key, contract_address, rpc_url, chain_id }
    }

    /// Whether on-chain calls are enabled (both key and contract configured).
    pub fn is_live(&self) -> (r: bool)
        ensures
            r == self.live(),
    {
        self.signer_key.is_some() && self.contract_address.is_some()
    }

    /// The banker key, hex without `0x`, for signing.
    pub fn signer_key(&self) -> (r: Option<&String>)
        ensures
            match r { Some(k) => self.key() == Some(k@), None => self.key() is None },
    {
        match &self.signer_key {
            Some(k) => Some(k),
            None => None,
        }
    }

    /// The contract address, 20 bytes.
    pub fn contract_address(&self) -> (r: Option<&Vec<u8>>)
        ensures
            match r { Some(a) => self.contract() == Some(a@), None => self.contract() is None },
    {
        match &self.contract_address {
            Some(a) => Some(a),
            None => None,
        }
    }

    /// The RPC endpoint.
    pub fn rpc_url(&self) -> (r: &String)
        ensures
            r@ == self.rpc(),
    {
        &self.rpc_url
    }

    /// The chain id.
    pub fn chain_id(&self) -> (r: u64)
        ensures
            r == self.chain(),
    {
        self.chain_id
    }

    /// The `grantCredit` call granting `agent_address` a ceiling of
    /// `ceiling_usd` (micro-dollars, which is USDC's six decimals) until
    /// `expiry_ms`, in whole seconds. In stub mode there is no call
    /// (`Ok(None)`); an agent address that does not parse is refused.
    pub fn grant_credit(&self, agent_address: &str, ceiling_usd: u64, expiry_ms: i64) -> (r: Result<Option<Vec<u8>>, AppError>)
        ensures
            !self.live() ==> r matches Ok(None),
            self.live() ==> (address_parse(agent_address@) matches Ok(a) ==> r matches Ok(Some(data))
                && data@ == grant_credit_calldata(a, ceiling_usd, expiry_seconds(expiry_ms))),
            self.live() ==> (address_parse(agent_address@) matches Err(e) ==> r matches Err(AppError::Internal(m))
                && m@ == "Invalid agent address: "@ + e),
    {
        if !self.is_live() {
            return Ok(None);
        }
        let seconds = expiry_ms / 1000 - if expiry_ms % 1000 < 0 { 1 } else { 0 };
        assert(seconds as int == expiry_ms as int / 1000);
        match encode_grant_credit(agent_address, ceiling_usd, seconds as u64) {
            Ok(data) => Ok(Some(data)),
            Err(e) => Err(e),
        }
    }

    /// The `recallCredit` call recalling the credit of `agent_address` with
    /// `reason`. In stub mode there is no call (`Ok(None)`); an agent address
    /// that does not parse is refused.
    pub fn recall_credit(&self, agent_address: &str, reason: &str) -> (r: Result<Option<Vec<u8>>, AppError>)
        ensures
            !self.live() ==> r matches Ok(None),
            self.live() ==> (address_parse(agent_address@) matches Ok(a) ==> r matches Ok(Some(data))
                && data@ == recall_credit_calldata(a, reason@)),
            self.live() ==> (address_parse(agent_address@) matches Err(e) ==> r matches Err(AppError::Internal(m))
                && m@ == "Invalid agent address: "@ + e),
    {
        if !self.is_live() {
            return Ok(None);
        }
        match encode_recall_credit(agent_address, reason) {
            Ok(data) => Ok(Some(data)),
            Err(e) => Err(e),
        }
    }
}

/// A contract expiry is the instant's whole seconds: for an instant at or
/// after the epoch (and within 64 bits), the seconds times 1000 is the
/// instant rounded down to a second.
pub proof fn lemma_expiry_in_seconds(expiry_ms: i64)
    requires
        expiry_ms >= 0,
    ensures
        expiry_seconds(expiry_ms) * 1000 <= expiry_ms < expiry_seconds(expiry_ms) * 1000 + 1000,
{
}

} // verus!
