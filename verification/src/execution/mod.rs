//! Execution-side logic: x402 screening, treasury call data, OKX requests.

pub mod okx_cex;
pub mod okx_rest;
pub mod treasury;
pub mod x402;
