//! Requests to the OKX Agent Trade Kit, the subprocess that places CEX
//! orders. The application owns the subprocess and writes these lines to it.

use vstd::prelude::*;
use crate::bridge::{json_quote, json_quoted, uuid_text, uuid_to_text};
use crate::text::{cents, cents_of, fixed2_text, push_fixed2};
use crate::types::{TradeProposal, TradeSide};

verus! {

/// The wire name of a side.
pub open spec fn side_text(side: TradeSide) -> Seq<char> {
    match side {
        TradeSide::Buy => "buy"@,
        TradeSide::Sell => "sell"@,
    }
}

/// The JSON-RPC `place_order` request for a trade: a spot market order in
/// cash mode for the trade's amount with two decimals, under the proposal's
/// id (keys in the order `serde_json` writes them).
pub open spec fn place_order_line(p: TradeProposal) -> Seq<char> {
    "{\"id\":"@ + json_quoted(uuid_text(p.id)) + ",\"jsonrpc\":\"2.0\",\"method\":\"place_order\",\"params\":{\"instId\":"@
        + json_quoted(p.pair@) + ",\"ordType\":\"market\",\"side\":\""@ + side_text(p.side)
        + "\",\"sz\":\""@ + fixed2_text(cents_of(p.amount_usd as nat)) + "\",\"tdMode\":\"cash\"}}"@
}

/// Build the `place_order` request line for a trade (see [`place_order_line`]).
pub fn place_order_request(p: &TradeProposal) -> (r: String)
    ensures
        r@ == place_order_line(*p),
{
    let mut s = String::from_str("{\"id\":");
    s.append(json_quote(uuid_to_text(p.id).as_str()).as_str());
    s.append(",\"jsonrpc\":\"2.0\",\"method\":\"place_order\",\"params\":{\"instId\":");
    s.append(json_quote(p.pair.as_str()).as_str());
    s.append(",\"ordType\":\"market\",\"side\":\"");
    match p.side {
        TradeSide::Buy => s.append("buy"),
        TradeSide::Sell => s.append("sell"),
    }
    s.append("\",\"sz\":\"");
    push_fixed2(&mut s, cents(p.amount_usd));
    s.append("\",\"tdMode\":\"cash\"}}");
    s
}

} // verus!
