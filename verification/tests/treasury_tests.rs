//! AgentTreasury call data and the treasury client's configuration.

use openclaw_aibank::execution::treasury::{encode_grant_credit, encode_recall_credit, TreasuryClient};
use openclaw_aibank::types::AppError;

const AGENT: &str = "0x0000000000000000000000000000000000000001";
const KEY: &str = "0x59c6995e998f97a5a0044966f0945389dc9e86dae88c7a8412f4603b6b78690d";
const CONTRACT: &str = "0x5FbDB2315678afecb367f032d93F642f64180aa3";

fn selector(signature: &str) -> Vec<u8> {
    alloy::primitives::keccak256(signature.as_bytes())[..4].to_vec()
}

#[test]
fn test_abi_encode_grant_credit() {
    let encoded = encode_grant_credit(AGENT, 1_000_000, 1_700_000_000).unwrap();
    assert_eq!(encoded.len(), 100);
}

#[test]
fn test_abi_encode_recall_credit() {
    let encoded = encode_recall_credit(AGENT, "max loss exceeded").unwrap();
    assert!(encoded.len() >= 132);
}

#[test]
fn test_stub_mode_when_no_env() {
    let client = TreasuryClient::from_config(None, None, None, None);
    assert!(!client.is_live());
}

#[test]
fn test_stub_grant_credit() {
    let client = TreasuryClient::from_config(None, None, None, None);
    let now = chrono::Utc::now().timestamp_millis();
    let result = client.grant_credit(AGENT, 1_000_000, now + 3_600_000);
    assert!(result.is_ok());
    assert!(result.unwrap().is_none());
}

#[test]
fn grant_call_data_layout() {
    let encoded = encode_grant_credit(AGENT, 1_000_000, 1_700_000_000).unwrap();
    assert_eq!(&encoded[..4], selector("grantCredit(address,uint256,uint256)").as_slice());
    // Address word: 12 zero bytes, then the 20 address bytes.
    assert!(encoded[4..35].iter().all(|b| *b == 0));
    assert_eq!(encoded[35], 1);
    // Ceiling word (1_000_000 = 0x0F4240) and expiry word (1_700_000_000 = 0x6553F100).
    assert_eq!(&encoded[65..68], &[0x0F, 0x42, 0x40]);
    assert_eq!(&encoded[96..100], &[0x65, 0x53, 0xF1, 0x00]);
}

#[test]
fn recall_call_data_layout() {
    let encoded = encode_recall_credit(AGENT, "max loss exceeded").unwrap();
    assert_eq!(encoded.len(), 132);
    assert_eq!(&encoded[..4], selector("recallCredit(address,string)").as_slice());
    // Offset word 0x40, length word 17, then the text padded to a word.
    assert_eq!(encoded[67], 0x40);
    assert_eq!(encoded[99], 17);
    assert_eq!(&encoded[100..117], "max loss exceeded".as_bytes());
    assert!(encoded[117..132].iter().all(|b| *b == 0));
}

#[test]
fn invalid_agent_address_is_refused() {
    match encode_grant_credit("not-an-address", 1, 1) {
        Err(AppError::Internal(m)) => assert!(m.starts_with("Invalid agent address: ")),
        other => panic!("unexpected {:?}", other),
    }
}

#[test]
fn configuration_defaults_and_parsing() {
    let client = TreasuryClient::from_config(None, None, None, None);
    assert_eq!(client.rpc_url(), "https://sepolia.base.org");
    assert_eq!(client.chain_id(), 84532);
    let client = TreasuryClient::from_config(
        Some("http://127.0.0.1:8545".to_string()),
        Some("31337".to_string()),
        Some(KEY.to_string()),
        Some(CONTRACT.to_string()),
    );
    assert_eq!(client.rpc_url(), "http://127.0.0.1:8545");
    assert_eq!(client.chain_id(), 31337);
    assert!(client.is_live());
    // The key is kept without its 0x prefix.
    assert_eq!(client.signer_key().unwrap().as_str(), &KEY[2..]);
    let unparsable = TreasuryClient::from_config(None, Some("base".to_string()), Some("zz".to_string()), Some(CONTRACT.to_string()));
    assert_eq!(unparsable.chain_id(), 84532);
    assert!(!unparsable.is_live());
}

#[test]
fn live_client_encodes_calls() {
    let client = TreasuryClient::from_config(None, None, Some(KEY.to_string()), Some(CONTRACT.to_string()));
    let data = client.grant_credit(AGENT, 5_000_000, 1_700_000_000_999).unwrap().unwrap();
    assert_eq!(data, encode_grant_credit(AGENT, 5_000_000, 1_700_000_000).unwrap());
    let data = client.recall_credit(AGENT, "e2e test recall").unwrap().unwrap();
    assert_eq!(data, encode_recall_credit(AGENT, "e2e test recall").unwrap());
}
