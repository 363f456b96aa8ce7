//! Verified core of an MCP-style protocol server: session lifecycle,
//! JSON-RPC dispatch, push-channel bookkeeping and the security checks
//! that gate every request.

pub mod channels;
pub mod cleanup;
pub mod compat;
pub mod configman;
pub mod dispatch;
pub mod legacy;
pub mod odoo_cfg;
pub mod prompts;
pub mod protocol;
pub mod registry;
pub mod security;
pub mod session;
pub mod streamable;
pub mod strutil;
pub mod uiserver;
