//! Supervised agentic trading: credit lines granted by a Banker, every trade
//! screened by a Guardian, x402 payments classified by risk, and the MCP tool
//! surface that agents talk to.
//!
//! Money is held as unsigned micro-dollars (millionths of a USD, the USDC base
//! unit), times as signed milliseconds since the Unix epoch, and agent, proposal
//! and payment identifiers as the 128-bit value of their UUID.

pub mod text;
pub mod types;
pub mod bridge;
pub mod banker;
pub mod guardian;
pub mod execution;
pub mod monitor;
pub mod mcp;
pub mod poller;
pub mod dashboard;
