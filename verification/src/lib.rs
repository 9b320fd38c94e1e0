//! Verified core of the Senza Python SDK: the decisions, parsers and
//! converters that sit between Python values and the agent runtime.

pub mod text;
pub mod error;
pub mod content;
pub mod value;
pub mod json;
pub mod tool_result;
pub mod thinking;
pub mod hooks;
pub mod harness;
pub mod hook_outcome;
pub mod hook_ctx;
pub mod hook_kind;
pub mod provider;
pub mod builder;
pub mod sandbox;
pub mod agent;
pub mod human;
pub mod strategy;
pub mod session;
