//! Shared MCP tool input types and registration helpers for app config management.

use vstd::prelude::*;
use crate::json::{
    json_array, json_array_value, json_map_entries, json_map_insert, json_map_new, json_object,
    json_object_value, json_string, json_string_value,
};
use crate::server::{McpToolView, ToolRegistry, appended_if_new, lookup, names_distinct, tool_names, with_tool};

verus! {

/// Input for the `config_get` MCP tool.
///
/// Shared across all apps that expose configuration via MCP.
#[derive(Debug)]
pub struct ConfigGetInput {
    /// Config key to retrieve (dot-separated path, e.g. `appearance.font_size`).
    /// Omit to get all configuration.
    pub key: Option<String>,
}

/// Input for the `config_set` MCP tool.
#[derive(Debug)]
pub struct ConfigSetInput {
    /// Config key to set (dot-separated path).
    pub key: String,
    /// New value as a JSON string.
    pub value: String,
}

/// Input for the `status` MCP tool (common across apps).
#[derive(Debug)]
pub struct StatusInput {
    /// Optional section to query (e.g. `cpu`, `memory`, `connections`).
    pub section: Option<String>,
}

/// The characters of an optional string.
pub open spec fn opt_text(s: Option<String>) -> Option<Seq<char>> {
    match s {
        Some(t) => Some(t@),
        None => None,
    }
}

fn clone_opt_text(s: &Option<String>) -> (copy: Option<String>)
    ensures
        opt_text(copy) == opt_text(*s),
{
    match s {
        Some(t) => Some(t.clone()),
        None => None,
    }
}

impl Clone for ConfigGetInput {
    fn clone(&self) -> (copy: Self)
        ensures
            opt_text(copy.key) == opt_text(self.key),
    {
        ConfigGetInput { key: clone_opt_text(&self.key) }
    }
}

impl Clone for ConfigSetInput {
    fn clone(&self) -> (copy: Self)
        ensures
            copy.key@ == self.key@,
            copy.value@ == self.value@,
    {
        ConfigSetInput { key: self.key.clone(), value: self.value.clone() }
    }
}

impl Clone for StatusInput {
    fn clone(&self) -> (copy: Self)
        ensures
            opt_text(copy.section) == opt_text(self.section),
    {
        StatusInput { section: clone_opt_text(&self.section) }
    }
}

/// The schema of a string property with a description:
/// `{"type": "string", "description": description}`.
pub open spec fn string_property(description: Seq<char>) -> serde_json::Value {
    json_object_value(map!["type"@ => json_string_value("string"@), "description"@ => json_string_value(description)])
}

/// The schema of an object with the given properties:
/// `{"type": "object", "properties": {...}}`.
pub open spec fn object_schema(properties: Map<Seq<char>, serde_json::Value>) -> serde_json::Value {
    json_object_value(map!["type"@ => json_string_value("object"@), "properties"@ => json_object_value(properties)])
}

/// The `config_get` tool: an optional `key` string property.
pub open spec fn config_get_tool() -> McpToolView {
    McpToolView {
        name: "config_get"@,
        description: "Get configuration value(s). Omit key to retrieve all config."@,
        schema: object_schema(map!["key"@ => string_property("Config key (dot-separated path). Omit for all config."@)]),
    }
}

/// The `config_set` tool: required `key` and `value` string properties.
pub open spec fn config_set_tool() -> McpToolView {
    McpToolView {
        name: "config_set"@,
        description: "Set a configuration value."@,
        schema: json_object_value(
            map![
                "type"@ => json_string_value("object"@),
                "required"@ => json_array_value(seq![json_string_value("key"@), json_string_value("value"@)]),
                "properties"@ => json_object_value(map![
                    "key"@ => string_property("Config key to set (dot-separated path)"@),
                    "value"@ => string_property("New value as JSON string"@)
                ])
            ],
        ),
    }
}

/// The `status` tool: an optional `section` string property.
pub open spec fn status_tool() -> McpToolView {
    McpToolView {
        name: "status"@,
        description: "Get application status."@,
        schema: object_schema(map!["section"@ => string_property("Optional status section to query"@)]),
    }
}

/// The tools after registering the three config tools in order.
pub open spec fn with_config_tools(tools: Seq<McpToolView>) -> Seq<McpToolView> {
    with_tool(with_tool(with_tool(tools, config_get_tool()), config_set_tool()), status_tool())
}

/// The keys of the schemas below are distinct from one another.
proof fn lemma_schema_keys_distinct()
    ensures
        "type"@ != "properties"@,
        "type"@ != "required"@,
        "required"@ != "properties"@,
        "type"@ != "description"@,
        "key"@ != "value"@,
{
    reveal_strlit("type");
    reveal_strlit("properties");
    reveal_strlit("required");
    reveal_strlit("description");
    reveal_strlit("key");
    reveal_strlit("value");
    assert("type"@.len() == 4);
    assert("properties"@.len() == 10);
    assert("required"@.len() == 8);
    assert("description"@.len() == 11);
    assert("key"@.len() == 3);
    assert("value"@.len() == 5);
}

/// `{"type": "string", "description": description}`.
fn string_property_schema(description: &str) -> (schema: serde_json::Value)
    ensures
        schema == string_property(description@),
{
    let mut map = json_map_new();
    json_map_insert(&mut map, "type".to_owned(), json_string("string".to_owned()));
    json_map_insert(&mut map, "description".to_owned(), json_string(description.to_owned()));
    assert(json_map_entries(map) =~= map![
        "type"@ => json_string_value("string"@),
        "description"@ => json_string_value(description@)
    ]);
    json_object(map)
}

/// `{"type": "object", ...}` with the given entries besides `type`.
fn object_with_type(mut map: crate::json::JsonObject) -> (schema: serde_json::Value)
    ensures
        schema == json_object_value(json_map_entries(map).insert("type"@, json_string_value("object"@))),
{
    json_map_insert(&mut map, "type".to_owned(), json_string("object".to_owned()));
    json_object(map)
}

fn config_get_schema() -> (schema: serde_json::Value)
    ensures
        schema == config_get_tool().schema,
{
    let mut properties = json_map_new();
    json_map_insert(
        &mut properties,
        "key".to_owned(),
        string_property_schema("Config key (dot-separated path). Omit for all config."),
    );
    let ghost property_entries = json_map_entries(properties);
    let mut map = json_map_new();
    json_map_insert(&mut map, "properties".to_owned(), json_object(properties));
    let ghost entries = json_map_entries(map);
    proof {
        lemma_schema_keys_distinct();
    }
    assert(property_entries =~= map!["key"@ => string_property("Config key (dot-separated path). Omit for all config."@)]);
    assert(entries.insert("type"@, json_string_value("object"@)) =~= map![
        "type"@ => json_string_value("object"@),
        "properties"@ => json_object_value(map!["key"@ => string_property("Config key (dot-separated path). Omit for all config."@)])
    ]);
    object_with_type(map)
}

fn config_set_schema() -> (schema: serde_json::Value)
    ensures
        schema == config_set_tool().schema,
{
    let mut properties = json_map_new();
    json_map_insert(&mut properties, "key".to_owned(), string_property_schema("Config key to set (dot-separated path)"));
    json_map_insert(&mut properties, "value".to_owned(), string_property_schema("New value as JSON string"));
    let ghost property_entries = json_map_entries(properties);
    let mut required = Vec::new();
    required.push(json_string("key".to_owned()));
    required.push(json_string("value".to_owned()));
    let ghost required_items = required@;
    let mut map = json_map_new();
    json_map_insert(&mut map, "required".to_owned(), json_array(required));
    json_map_insert(&mut map, "properties".to_owned(), json_object(properties));
    let ghost entries = json_map_entries(map);
    proof {
        lemma_schema_keys_distinct();
    }
    assert(required_items =~= seq![json_string_value("key"@), json_string_value("value"@)]);
    assert(property_entries =~= map![
        "key"@ => string_property("Config key to set (dot-separated path)"@),
        "value"@ => string_property("New value as JSON string"@)
    ]);
    assert(entries.insert("type"@, json_string_value("object"@)) =~= map![
        "type"@ => json_string_value("object"@),
        "required"@ => json_array_value(seq![json_string_value("key"@), json_string_value("value"@)]),
        "properties"@ => json_object_value(map![
            "key"@ => string_property("Config key to set (dot-separated path)"@),
            "value"@ => string_property("New value as JSON string"@)
        ])
    ]);
    object_with_type(map)
}

fn status_schema() -> (schema: serde_json::Value)
    ensures
        schema == status_tool().schema,
{
    let mut properties = json_map_new();
    json_map_insert(&mut properties, "section".to_owned(), string_property_schema("Optional status section to query"));
    let ghost property_entries = json_map_entries(properties);
    let mut map = json_map_new();
    json_map_insert(&mut map, "properties".to_owned(), json_object(properties));
    let ghost entries = json_map_entries(map);
    proof {
        lemma_schema_keys_distinct();
    }
    assert(property_entries =~= map!["section"@ => string_property("Optional status section to query"@)]);
    assert(entries.insert("type"@, json_string_value("object"@)) =~= map![
        "type"@ => json_string_value("object"@),
        "properties"@ => json_object_value(map!["section"@ => string_property("Optional status section to query"@)])
    ]);
    object_with_type(map)
}

/// Register standard config management tools in a `ToolRegistry`:
/// `config_get` (retrieve configuration values), `config_set` (update
/// configuration values) and `status` (query application status).
///
/// Apps call this to get all three tools, then add app-specific tools on top.
pub fn register_config_tools(registry: &mut ToolRegistry)
    ensures
        final(registry)@ == with_config_tools(old(registry)@),
{
    registry.register(
        "config_get",
        "Get configuration value(s). Omit key to retrieve all config.",
        config_get_schema(),
    );
    registry.register("config_set", "Set a configuration value.", config_set_schema());
    registry.register("status", "Get application status.", status_schema());
}

/// Trait for apps to implement config get/set logic.
///
/// Enables mockable, testable config handling. Each app implements this
/// with its own configuration type.
pub trait ConfigHandler: Send + Sync {
    /// Get a config value by key, or all config as JSON if key is `None`.
    fn get(&self, key: Option<&str>) -> Result<serde_json::Value, String>;

    /// Set a config value by key.
    fn set(&mut self, key: &str, value: &str) -> Result<(), String>;
}

/// The three config tools have distinct names.
proof fn lemma_config_tool_names_distinct()
    ensures
        config_get_tool().name != config_set_tool().name,
        config_get_tool().name != status_tool().name,
        config_set_tool().name != status_tool().name,
{
    reveal_strlit("config_get");
    reveal_strlit("config_set");
    reveal_strlit("status");
    assert("config_get"@[7] != "config_set"@[7]);
    assert("config_get"@.len() != "status"@.len());
    assert("config_set"@.len() != "status"@.len());
}

/// On an empty registry the config tools are `config_get`, `config_set` and
/// `status`, in this order.
pub proof fn lemma_config_tools_on_empty()
    ensures
        with_config_tools(Seq::empty()) == seq![config_get_tool(), config_set_tool(), status_tool()],
{
    lemma_config_tool_names_distinct();
    let t0 = Seq::<McpToolView>::empty();
    let t1 = with_tool(t0, config_get_tool());
    assert(!crate::server::has_tool(t0, config_get_tool().name));
    assert(t1 == seq![config_get_tool()]);
    assert(!crate::server::has_tool(t1, config_set_tool().name)) by {
        assert(t1[0].name == config_get_tool().name);
    }
    let t2 = with_tool(t1, config_set_tool());
    assert(t2 =~= seq![config_get_tool(), config_set_tool()]);
    assert(!crate::server::has_tool(t2, status_tool().name)) by {
        assert(t2[0].name == config_get_tool().name);
        assert(t2[1].name == config_set_tool().name);
    }
    assert(with_tool(t2, status_tool()) =~= seq![config_get_tool(), config_set_tool(), status_tool()]);
}

/// After the config tools are registered, each of the three names looks up
/// its config tool, and every other name looks up what it did before.
pub proof fn lemma_config_tools_lookup(tools: Seq<McpToolView>, name: Seq<char>)
    requires
        names_distinct(tools),
    ensures
        names_distinct(with_config_tools(tools)),
        lookup(with_config_tools(tools), config_get_tool().name) == Some(config_get_tool()),
        lookup(with_config_tools(tools), config_set_tool().name) == Some(config_set_tool()),
        lookup(with_config_tools(tools), status_tool().name) == Some(status_tool()),
        name != config_get_tool().name && name != config_set_tool().name && name != status_tool().name
            ==> lookup(with_config_tools(tools), name) == lookup(tools, name),
{
    lemma_config_tool_names_distinct();
    let t1 = with_tool(tools, config_get_tool());
    let t2 = with_tool(t1, config_set_tool());
    crate::server::lemma_with_tool_keeps_names_distinct(tools, config_get_tool());
    crate::server::lemma_with_tool_keeps_names_distinct(t1, config_set_tool());
    crate::server::lemma_with_tool_keeps_names_distinct(t2, status_tool());
    crate::server::lemma_lookup_after_register(tools, config_get_tool());
    crate::server::lemma_register_leaves_other_names(t1, config_set_tool(), config_get_tool().name);
    crate::server::lemma_register_leaves_other_names(t2, status_tool(), config_get_tool().name);
    crate::server::lemma_lookup_after_register(t1, config_set_tool());
    crate::server::lemma_register_leaves_other_names(t2, status_tool(), config_set_tool().name);
    crate::server::lemma_lookup_after_register(t2, status_tool());
    if name != config_get_tool().name && name != config_set_tool().name && name != status_tool().name {
        crate::server::lemma_register_leaves_other_names(tools, config_get_tool(), name);
        crate::server::lemma_register_leaves_other_names(t1, config_set_tool(), name);
        crate::server::lemma_register_leaves_other_names(t2, status_tool(), name);
    }
}

/// Registering the config tools a second time changes nothing: the tools
/// are overwritten in place, not duplicated.
pub proof fn lemma_config_tools_twice(tools: Seq<McpToolView>)
    requires
        names_distinct(tools),
    ensures
        with_config_tools(with_config_tools(tools)) == with_config_tools(tools),
{
    let once = with_config_tools(tools);
    lemma_config_tools_lookup(tools, config_get_tool().name);
    crate::server::lemma_register_present(once, config_get_tool());
    crate::server::lemma_register_present(once, config_set_tool());
    crate::server::lemma_register_present(once, status_tool());
}

/// A name that differs from `other` is new to the names with `other` appended
/// exactly when it is new to the names.
proof fn lemma_appended_if_new_past(names: Seq<Seq<char>>, other: Seq<char>, name: Seq<char>)
    requires
        name != other,
    ensures
        appended_if_new(names + appended_if_new(names, other), name) == appended_if_new(names, name),
{
    let longer = names + appended_if_new(names, other);
    if longer.contains(name) {
        let i = choose|i: int| 0 <= i < longer.len() && longer[i] == name;
        assert(i < names.len());
        assert(names[i] == name);
    }
    if names.contains(name) {
        let i = choose|i: int| 0 <= i < names.len() && names[i] == name;
        assert(longer[i] == name);
    }
}

/// Registering the config tools on any registry keeps the names that were
/// there, in order, and then appends `config_get`, `config_set` and `status`,
/// in this order, each one only where it was not registered yet.
pub proof fn lemma_config_tools_names(tools: Seq<McpToolView>)
    requires
        names_distinct(tools),
    ensures
        tool_names(with_config_tools(tools)) == tool_names(tools) + appended_if_new(tool_names(tools), "config_get"@)
            + appended_if_new(tool_names(tools), "config_set"@) + appended_if_new(tool_names(tools), "status"@),
{
    lemma_config_tool_names_distinct();
    let names = tool_names(tools);
    let t1 = with_tool(tools, config_get_tool());
    let t2 = with_tool(t1, config_set_tool());
    crate::server::lemma_with_tool_keeps_names_distinct(tools, config_get_tool());
    crate::server::lemma_with_tool_keeps_names_distinct(t1, config_set_tool());
    crate::server::lemma_names_after_register(tools, config_get_tool());
    crate::server::lemma_names_after_register(t1, config_set_tool());
    crate::server::lemma_names_after_register(t2, status_tool());
    let n1 = names + appended_if_new(names, "config_get"@);
    assert(tool_names(t1) == n1);
    lemma_appended_if_new_past(names, "config_get"@, "config_set"@);
    let n2 = n1 + appended_if_new(names, "config_set"@);
    assert(tool_names(t2) == n2);
    lemma_appended_if_new_past(names, "config_get"@, "status"@);
    lemma_appended_if_new_past(n1, "config_set"@, "status"@);
    assert(appended_if_new(n2, "status"@) == appended_if_new(names, "status"@));
}

} // verus!
