//! Convenience re-exports for common usage: `use kaname::prelude::*;`.

pub use crate::config_tools::{register_config_tools, ConfigGetInput, ConfigHandler, ConfigSetInput, StatusInput};
pub use crate::error::KanameError;
pub use crate::response::{json_err, json_ok, json_result, ToolResponse};
pub use crate::server::{McpServerInfo, McpTool, ToolRegistry};
pub use crate::text::IntoText;
