# kaname

The common scaffolding of an MCP server, written in Verus.

- `src/` is the verified library:
  - `server.rs`: server metadata and the tool registry. The registry keeps tool
    definitions in the order their names were first registered, with no name
    twice; registering a known name replaces its tool in place. Its contracts
    are stated over a sequence of tool views, and the laws of registration
    (a read after a write, other names untouched, order kept, registering
    twice is registering once, the count is the number of distinct names) are
    proof functions there. `to_tool_list` builds the `rmcp` tool list.
  - `config_tools.rs`: the `config_get`, `config_set` and `status` tools, their
    exact input schemas, and the laws of registering them.
  - `response.rs`: tool call results (`ToolResponse` and the `json_*` helpers).
  - `error.rs`: `KanameError`.
  - `json.rs`, `mcp.rs`: the `serde_json` and `rmcp` values the library handles,
    and the trusted wrappers around the calls into those crates.
  - `text.rs`: `IntoText`, the string arguments of the constructors.
- `app/` adds what needs outside derives: the `serde`/`schemars` input types,
  the `thiserror` error type, and the helpers generic over `Serialize`.
- `tests/` runs the library.
