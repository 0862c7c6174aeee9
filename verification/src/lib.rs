//! Kaname: the common scaffolding of an MCP server.
//!
//! The library keeps a registry of MCP tool definitions in insertion order,
//! turns it into the tool list of the MCP handshake, builds tool call results,
//! and registers the standard configuration tools (`config_get`,
//! `config_set`, `status`).

pub mod config_tools;
pub mod error;
pub mod json;
pub mod mcp;
pub mod prelude;
pub mod response;
pub mod server;
pub mod text;

pub use config_tools::{register_config_tools, ConfigGetInput, ConfigHandler, ConfigSetInput, StatusInput};
pub use error::KanameError;
pub use response::{json_err, json_ok, json_result, ToolResponse};
pub use server::{McpServerInfo, McpTool, ToolRegistry};
pub use text::IntoText;

pub use rmcp;
pub use schemars;
pub use serde_json;
