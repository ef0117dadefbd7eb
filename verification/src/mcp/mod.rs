//! The MCP (Model Context Protocol) skill exposed to agents.

pub mod skill;
