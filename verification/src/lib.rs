//! Verified core of the SoulSystem coding harness: its MCP JSON-RPC
//! adapter, the model-provider endpoints, the brain-spawn route of the
//! orchestrator and the bounded trace buffers of the self-improvement
//! loop.

pub mod buffers;
pub mod json;
pub mod mcp;
pub mod provider;
pub mod schemas;
pub mod session;
pub mod spawn;
pub mod text;
