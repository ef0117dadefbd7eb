//! OKX request signing, request building, order replies, the CEX request line
//! and the force-recall rule.

use base64::Engine;
use hmac::Mac;
use openclaw_aibank::execution::okx_cex::place_order_request;
use openclaw_aibank::execution::okx_rest::{
    okx_signature, order_outcome, request_timestamp, OkxCredentials, OkxOrder, OkxPosition, OkxRestClient,
};
use openclaw_aibank::poller::{recall_decision, unrealized_loss};
use openclaw_aibank::types::{ApprovedConditions, AppError, CreditLine, CreditStatus, TradeProposal, TradeSide};

const USD: u64 = 1_000_000;

fn creds() -> OkxCredentials {
    OkxCredentials {
        api_key: "key".to_string(),
        secret_key: "secret".to_string(),
        passphrase: "pass".to_string(),
    }
}

fn expected_sign(secret: &str, prehash: &str) -> String {
    let mut mac = hmac::Hmac::<sha2::Sha256>::new_from_slice(secret.as_bytes()).unwrap();
    mac.update(prehash.as_bytes());
    base64::engine::general_purpose::STANDARD.encode(mac.finalize().into_bytes())
}

#[test]
fn credentials_need_all_three_parts() {
    let s = |t: &str| Some(t.to_string());
    assert!(OkxCredentials::from_parts(s("k"), s("s"), s("p")).is_some());
    assert!(OkxCredentials::from_parts(None, s("s"), s("p")).is_none());
    assert!(OkxCredentials::from_parts(s("k"), s(""), s("p")).is_none());
    assert!(OkxCredentials::from_parts(s("k"), s("s"), None).is_none());
}

#[test]
fn signature_is_hmac_sha256_base64_of_prehash() {
    let ts = "2024-01-01T00:00:00.000Z";
    let sig = okx_signature("secret", ts, "GET", "/api/v5/account/balance", "").unwrap();
    assert_eq!(sig, expected_sign("secret", "2024-01-01T00:00:00.000ZGET/api/v5/account/balance"));
    // The RFC 4231 vector with the key "Jefe".
    let mut mac = hmac::Hmac::<sha2::Sha256>::new_from_slice(b"Jefe").unwrap();
    mac.update(b"what do ya want for nothing?");
    let digest = mac.finalize().into_bytes();
    assert_eq!(hex::encode(digest), "5bdcc146bf60754e6a042426089575c75a003f089d2739839dec58b964ec3843");
    let sig = okx_signature("Jefe", "what do ya ", "want ", "for ", "nothing?").unwrap();
    assert_eq!(sig, base64::engine::general_purpose::STANDARD.encode(digest));
}

#[test]
fn requests_are_signed_with_headers() {
    let client = OkxRestClient::with_credentials(Some(creds()));
    let ts = "2024-05-06T07:08:09.010Z";
    let q = client.balance_request(ts).unwrap();
    assert_eq!(q.method, "GET");
    assert_eq!(q.url, "https://www.okx.com/api/v5/account/balance");
    assert_eq!(q.body, "");
    let names: Vec<&str> = q.headers.iter().map(|h| h.0.as_str()).collect();
    assert_eq!(names, vec!["OK-ACCESS-KEY", "OK-ACCESS-SIGN", "OK-ACCESS-TIMESTAMP", "OK-ACCESS-PASSPHRASE", "Content-Type"]);
    assert_eq!(q.headers[0].1, "key");
    assert_eq!(q.headers[1].1, expected_sign("secret", &format!("{ts}GET/api/v5/account/balance")));
    assert_eq!(q.headers[2].1, ts);
    assert_eq!(q.headers[3].1, "pass");

    let order = match client.order_request("BTC-USDT", "buy", 1_234_567, ts).unwrap() {
        OkxOrder::Signed(q) => q,
        other => panic!("unexpected {:?}", other),
    };
    assert_eq!(order.url, "https://www.okx.com/api/v5/trade/order");
    assert_eq!(
        order.body,
        r#"{"instId":"BTC-USDT","ordType":"market","side":"buy","sz":"1.23","tdMode":"cash","tgtCcy":"quote_ccy"}"#
    );
    let body: serde_json::Value = serde_json::from_str(&order.body).unwrap();
    assert_eq!(body["sz"], "1.23");
    assert_eq!(order.headers[1].1, expected_sign("secret", &format!("{ts}POST/api/v5/trade/order{}", order.body)));

    let cancel = client.cancel_orders_request("ETH-USDT", ts).unwrap();
    assert_eq!(cancel.body, r#"[{"instId":"ETH-USDT"}]"#);
    assert!(client.positions_request(ts).is_some());
}

#[test]
fn without_credentials_nothing_is_sent() {
    let client = OkxRestClient::with_credentials(None);
    assert!(!client.has_credentials());
    assert!(client.balance_request("t").is_none());
    assert!(client.positions_request("t").is_none());
    assert!(client.cancel_orders_request("BTC-USDT", "t").is_none());
    match client.order_request("BTC-USDT", "buy", 25 * USD + 50_000, "t") {
        Ok(OkxOrder::Simulated { inst_id, side, size }) => {
            assert_eq!(inst_id, "BTC-USDT");
            assert_eq!(side, "buy");
            assert_eq!(size, "25.05");
        }
        other => panic!("unexpected {:?}", other),
    }
}

#[test]
fn timestamps_have_millisecond_precision() {
    assert_eq!(request_timestamp(1_704_067_200_123).unwrap(), "2024-01-01T00:00:00.123Z");
}

#[test]
fn order_replies() {
    let s = |t: &str| Some(t.to_string());
    assert!(order_outcome(s("0"), None, None).is_ok());
    match order_outcome(s("51008"), s("Order failed"), s("Insufficient balance")) {
        Err(AppError::OkxError(m)) => {
            assert_eq!(m, "OKX order failed: code=51008 msg=Order failed detail=Insufficient balance")
        }
        other => panic!("unexpected {:?}", other),
    }
    match order_outcome(None, None, None) {
        Err(AppError::OkxError(m)) => assert_eq!(m, "OKX order failed: code=? msg= detail="),
        other => panic!("unexpected {:?}", other),
    }
}

#[test]
fn cex_request_line() {
    let id = uuid::Uuid::new_v4();
    let p = TradeProposal {
        id: id.as_u128(),
        agent_id: 1,
        submitted_at: 0,
        pair: "BTC-USDT".to_string(),
        side: TradeSide::Sell,
        amount_usd: 500_000,
        confidence: 7500,
        reasoning: "r".to_string(),
        contract_address: None,
        contract_method: None,
    };
    let line = place_order_request(&p);
    let v: serde_json::Value = serde_json::from_str(&line).unwrap();
    assert_eq!(v["id"], id.to_string());
    assert_eq!(v["method"], "place_order");
    assert_eq!(v["params"]["side"], "sell");
    assert_eq!(v["params"]["sz"], "0.50");
    assert_eq!(v["params"]["tdMode"], "cash");
}

fn position(inst: &str, pnl: i64) -> OkxPosition {
    OkxPosition { inst_id: inst.to_string(), unrealized_pnl: pnl, notional_usd: 0 }
}

fn line(spent: u64, max_loss: u64) -> CreditLine {
    CreditLine {
        id: 1,
        proposal_id: 2,
        agent_id: 3,
        approved_usd: 5 * USD,
        spent_usd: spent,
        remaining_usd: 5 * USD - spent,
        status: CreditStatus::Active,
        approved_at: 0,
        expires_at: i64::MAX,
        conditions: ApprovedConditions {
            allowed_pairs: vec!["BTC-USDT".to_string(), "ETH-USDT".to_string()],
            max_single_trade_usd: USD,
            max_loss_usd: max_loss,
            window_end: i64::MAX,
        },
        reputation_at_approval: 50,
    }
}

#[test]
fn losses_count_only_in_the_lines_pairs() {
    let positions = vec![
        position("BTC-USDT", -700_000),
        position("ETH-USDT", 900_000),
        position("DOGE-USDT", -5_000_000),
        position("ETH-USDT", -100_000),
    ];
    let pairs = vec!["BTC-USDT".to_string(), "ETH-USDT".to_string()];
    assert_eq!(unrealized_loss(&positions, &pairs), 800_000);
    assert_eq!(unrealized_loss(&positions, &vec![]), 0);
}

#[test]
fn recall_when_effective_loss_exceeds_max() {
    let positions = vec![position("BTC-USDT", -700_000)];
    // Spent $0.50 + $0.70 unrealized = $1.20 > $1.00.
    let reason = recall_decision(&line(500_000, USD), &positions).unwrap();
    assert_eq!(reason, "Max loss exceeded: $1.20 > $1.00 (spent=$0.50 + unrealized_loss=$0.70)");
    // Reaching the limit recalls; staying below it does not.
    assert_eq!(
        recall_decision(&line(300_000, USD), &positions).unwrap(),
        "Max loss exceeded: $1.00 > $1.00 (spent=$0.30 + unrealized_loss=$0.70)"
    );
    assert!(recall_decision(&line(299_999, USD), &positions).is_none());
    assert!(recall_decision(&line(0, USD), &vec![position("DOGE-USDT", -9 * USD as i64)]).is_none());
}

#[test]
fn request_bodies_escape_json_text() {
    let client = OkxRestClient::with_credentials(Some(creds()));
    let cancel = client.cancel_orders_request("A\"B\\C\n\u{1}", "t").unwrap();
    assert_eq!(cancel.body, r#"[{"instId":"A\"B\\C\n\u0001"}]"#);
}
