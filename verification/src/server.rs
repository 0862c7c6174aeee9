//! Server metadata and the registry of MCP tools.

use vstd::prelude::*;
use crate::json::{
    JsonObject, is_json_object, json_as_object, json_map_clone, json_map_entries, json_map_insert,
    json_map_new, json_object_value, json_string, json_string_value, json_value_clone,
};
use crate::mcp::{make_tool, rmcp_tool};
use crate::text::IntoText;

verus! {

/// Metadata describing an MCP server.
#[derive(Debug, PartialEq, Eq)]
pub struct McpServerInfo {
    pub name: String,
    pub version: String,
    pub description: String,
}

impl Clone for McpServerInfo {
    fn clone(&self) -> (copy: Self)
        ensures
            copy.name@ == self.name@,
            copy.version@ == self.version@,
            copy.description@ == self.description@,
    {
        McpServerInfo {
            name: self.name.clone(),
            version: self.version.clone(),
            description: self.description.clone(),
        }
    }
}

impl McpServerInfo {
    /// Create a new server info descriptor.
    pub fn new<N: IntoText, V: IntoText, D: IntoText>(name: N, version: V, description: D) -> (info: Self)
        ensures
            info.name@ == name.text_view(),
            info.version@ == version.text_view(),
            info.description@ == description.text_view(),
    {
        McpServerInfo {
            name: name.into_text(),
            version: version.into_text(),
            description: description.into_text(),
        }
    }

    /// The one-line form of the descriptor: the name, then ` v` and the version.
    pub fn to_string(&self) -> (text: String)
        ensures
            text@ == self.name@ + " v"@ + self.version@,
    {
        let mut text = self.name.clone();
        text.append(" v");
        text.append(self.version.as_str());
        text
    }
}

/// What a tool definition holds: its name, its description and its input schema.
pub struct McpToolView {
    pub name: Seq<char>,
    pub description: Seq<char>,
    pub schema: serde_json::Value,
}

/// A single MCP tool definition with its JSON Schema.
#[derive(Debug)]
pub struct McpTool {
    pub name: String,
    pub description: String,
    pub schema: serde_json::Value,
}

impl View for McpTool {
    type V = McpToolView;

    open spec fn view(&self) -> McpToolView {
        McpToolView { name: self.name@, description: self.description@, schema: self.schema }
    }
}

impl Clone for McpTool {
    fn clone(&self) -> (copy: Self)
        ensures
            copy@ == self@,
    {
        McpTool {
            name: self.name.clone(),
            description: self.description.clone(),
            schema: json_value_clone(&self.schema),
        }
    }
}

impl McpTool {
    /// Create a tool definition from a name, a description and an input schema.
    pub fn new<N: IntoText, D: IntoText>(name: N, description: D, schema: serde_json::Value) -> (tool: Self)
        ensures
            tool@ == (McpToolView { name: name.text_view(), description: description.text_view(), schema }),
    {
        McpTool { name: name.into_text(), description: description.into_text(), schema }
    }

    /// The one-line form of the tool: the name, then `: ` and the description.
    pub fn to_string(&self) -> (text: String)
        ensures
            text@ == self.name@ + ": "@ + self.description@,
    {
        let mut text = self.name.clone();
        text.append(": ");
        text.append(self.description.as_str());
        text
    }
}

/// No two tools of the sequence share a name.
pub open spec fn names_distinct(tools: Seq<McpToolView>) -> bool {
    forall|i: int, j: int|
        0 <= i < tools.len() && 0 <= j < tools.len() && i != j ==> #[trigger] tools[i].name != #[trigger] tools[j].name
}

/// Some tool of the sequence has this name.
pub open spec fn has_tool(tools: Seq<McpToolView>, name: Seq<char>) -> bool {
    exists|i: int| 0 <= i < tools.len() && #[trigger] tools[i].name == name
}

/// The position of a tool with this name (meaningful where `has_tool` holds).
pub open spec fn tool_position(tools: Seq<McpToolView>, name: Seq<char>) -> int {
    choose|i: int| 0 <= i < tools.len() && #[trigger] tools[i].name == name
}

/// The tool with this name, if the sequence has one.
pub open spec fn lookup(tools: Seq<McpToolView>, name: Seq<char>) -> Option<McpToolView> {
    if has_tool(tools, name) {
        Some(tools[tool_position(tools, name)])
    } else {
        None
    }
}

/// The tools after registering `tool`: a tool of the same name is replaced
/// in its place; otherwise `tool` is appended.
pub open spec fn with_tool(tools: Seq<McpToolView>, tool: McpToolView) -> Seq<McpToolView> {
    if has_tool(tools, tool.name) {
        tools.update(tool_position(tools, tool.name), tool)
    } else {
        tools.push(tool)
    }
}

/// The view of a sequence of tool definitions.
pub open spec fn tool_views(tools: Seq<McpTool>) -> Seq<McpToolView> {
    tools.map_values(|t: McpTool| t@)
}

/// A registry that collects MCP tool definitions.
///
/// Tools are kept in the order in which their names were first registered;
/// no two tools share a name.
#[derive(Debug)]
pub struct ToolRegistry {
    tools: Vec<McpTool>,
}

impl View for ToolRegistry {
    type V = Seq<McpToolView>;

    closed spec fn view(&self) -> Seq<McpToolView> {
        tool_views(self.tools@)
    }
}

impl ToolRegistry {
    /// No two registered tools share a name.
    #[verifier::type_invariant]
    spec fn names_are_distinct(self) -> bool {
        names_distinct(tool_views(self.tools@))
    }

    /// Create an empty registry.
    pub fn new() -> (registry: Self)
        ensures
            registry@ == Seq::<McpToolView>::empty(),
            names_distinct(registry@),
    {
        let registry = ToolRegistry { tools: Vec::new() };
        assert(names_distinct(registry@));
        assert(registry@ =~= Seq::<McpToolView>::empty());
        registry
    }

    /// Register a tool definition. A tool of the same name is replaced and
    /// keeps its place in the insertion order; a new name is appended.
    pub fn register_tool(&mut self, tool: McpTool)
        ensures
            final(self)@ == with_tool(old(self)@, tool@),
            names_distinct(final(self)@),
    {
        proof {
            use_type_invariant(&*self);
        }
        let mut tools: Vec<McpTool> = Vec::new();
        std::mem::swap(&mut tools, &mut self.tools);
        let ghost before = tool_views(tools@);
        let ghost added = tool@;
        assert(before == old(self)@);
        match position_of(&tools, &tool.name) {
            Some(i) => {
                proof {
                    lemma_position(before, added.name, i as int);
                }
                tools.set(i, tool);
            },
            None => {
                tools.push(tool);
            },
        }
        assert(tool_views(tools@) =~= with_tool(before, added));
        proof {
            lemma_with_tool_keeps_names_distinct(before, added);
        }
        self.tools = tools;
    }

    /// Register a tool with a name, description, and JSON Schema for its input.
    ///
    /// If a tool with the same name already exists, it is replaced
    /// (the insertion-order position is preserved).
    pub fn register<N: IntoText, D: IntoText>(&mut self, name: N, description: D, schema: serde_json::Value)
        ensures
            final(self)@ == with_tool(
                old(self)@,
                McpToolView { name: name.text_view(), description: description.text_view(), schema },
            ),
            names_distinct(final(self)@),
    {
        let tool = McpTool::new(name, description, schema);
        self.register_tool(tool);
    }

    /// Get all registered tools in insertion order.
    pub fn tools(&self) -> (list: Vec<&McpTool>)
        ensures
            names_distinct(self@),
            list@.len() == self@.len(),
            forall|i: int| 0 <= i < list@.len() ==> list@[i]@ == self@[i],
    {
        proof {
            use_type_invariant(self);
        }
        let mut list: Vec<&McpTool> = Vec::new();
        let mut i: usize = 0;
        while i < self.tools.len()
            invariant
                i <= self.tools@.len(),
                list@.len() == i,
                forall|j: int| 0 <= j < i ==> list@[j]@ == self@[j],
            decreases self.tools@.len() - i,
        {
            list.push(&self.tools[i]);
            i += 1;
        }
        list
    }

    /// All registered tools in insertion order (the same list as `tools`).
    pub fn iter(&self) -> (list: Vec<&McpTool>)
        ensures
            list@.len() == self@.len(),
            forall|i: int| 0 <= i < list@.len() ==> list@[i]@ == self@[i],
    {
        self.tools()
    }

    /// The names of the registered tools in insertion order.
    pub fn names(&self) -> (names: Vec<&str>)
        ensures
            names@.len() == self@.len(),
            forall|i: int| 0 <= i < names@.len() ==> names@[i]@ == self@[i].name,
    {
        let mut names: Vec<&str> = Vec::new();
        let mut i: usize = 0;
        while i < self.tools.len()
            invariant
                i <= self.tools@.len(),
                names@.len() == i,
                forall|j: int| 0 <= j < i ==> names@[j]@ == self@[j].name,
            decreases self.tools@.len() - i,
        {
            names.push(self.tools[i].name.as_str());
            i += 1;
        }
        names
    }

    /// Look up a tool by name.
    pub fn get(&self, name: &str) -> (found: Option<&McpTool>)
        ensures
            match found {
                Some(tool) => lookup(self@, name@) == Some(tool@),
                None => lookup(self@, name@) is None,
            },
    {
        proof {
            use_type_invariant(self);
        }
        let key = name.to_owned();
        match position_of(&self.tools, &key) {
            Some(i) => {
                proof {
                    lemma_position(self@, name@, i as int);
                }
                Some(&self.tools[i])
            },
            None => None,
        }
    }

    /// Whether a tool with this name is registered.
    pub fn contains(&self, name: &str) -> (present: bool)
        ensures
            present == has_tool(self@, name@),
    {
        let key = name.to_owned();
        match position_of(&self.tools, &key) {
            Some(i) => {
                assert(self@[i as int].name == name@);
                true
            },
            None => false,
        }
    }

    /// Return the number of registered tools.
    pub fn len(&self) -> (count: usize)
        ensures
            count == self@.len(),
    {
        self.tools.len()
    }

    /// Return `true` if no tools are registered.
    pub fn is_empty(&self) -> (empty: bool)
        ensures
            empty == (self@.len() == 0),
    {
        self.tools.len() == 0
    }
}

impl ToolRegistry {
    /// Convert every registered tool into the rmcp `Tool` type, preserving
    /// insertion order.
    pub fn to_tool_list(&self) -> (list: Vec<rmcp::model::Tool>)
        ensures
            list@.len() == self@.len(),
            forall|i: int| 0 <= i < list@.len() ==> listed_as(self@[i], #[trigger] list@[i]),
    {
        let mut list: Vec<rmcp::model::Tool> = Vec::new();
        let mut i: usize = 0;
        while i < self.tools.len()
            invariant
                i <= self.tools@.len(),
                list@.len() == i,
                forall|j: int| 0 <= j < i ==> listed_as(self@[j], #[trigger] list@[j]),
            decreases self.tools@.len() - i,
        {
            let tool = &self.tools[i];
            let schema = input_schema_of(&tool.schema);
            let ghost entries = json_map_entries(schema);
            let name = tool.name.clone();
            let description = tool.description.clone();
            let listed = make_tool(name, description, schema);
            assert(self@[i as int] == tool@);
            assert(listed == rmcp_tool(self@[i as int].name, self@[i as int].description, entries));
            assert(input_schema_entries(tool@.schema, entries));
            assert(listed_as(self@[i as int], listed));
            list.push(listed);
            i += 1;
        }
        list
    }
}

impl Default for ToolRegistry {
    fn default() -> (registry: Self)
        ensures
            registry@ == Seq::<McpToolView>::empty(),
    {
        ToolRegistry::new()
    }
}

impl Clone for ToolRegistry {
    fn clone(&self) -> (copy: Self)
        ensures
            copy@ == self@,
    {
        proof {
            use_type_invariant(self);
        }
        let mut tools: Vec<McpTool> = Vec::new();
        let mut i: usize = 0;
        while i < self.tools.len()
            invariant
                i <= self.tools@.len(),
                tools@.len() == i,
                forall|j: int| 0 <= j < i ==> tools@[j]@ == self.tools@[j]@,
            decreases self.tools@.len() - i,
        {
            tools.push(self.tools[i].clone());
            i += 1;
        }
        assert(tool_views(tools@) =~= tool_views(self.tools@));
        ToolRegistry { tools }
    }
}

/// The entries of the input schema object that the tool list carries for a
/// tool's schema: an object schema as it is; any other schema wrapped as the
/// `properties` of an object whose `type` is `"object"`.
pub open spec fn input_schema_entries(schema: serde_json::Value, entries: Map<Seq<char>, serde_json::Value>) -> bool {
    if is_json_object(schema) {
        entries.dom().finite() && schema == json_object_value(entries)
    } else {
        entries == map!["type"@ => json_string_value("object"@), "properties"@ => schema]
    }
}

/// `listed` is the `rmcp` tool that the tool list holds for `tool`: its name,
/// its description and its input schema object.
pub open spec fn listed_as(tool: McpToolView, listed: rmcp::model::Tool) -> bool {
    exists|entries: Map<Seq<char>, serde_json::Value>|
        input_schema_entries(tool.schema, entries) && listed == #[trigger] rmcp_tool(tool.name, tool.description, entries)
}

/// The input schema object for a tool's schema.
fn input_schema_of(schema: &serde_json::Value) -> (object: JsonObject)
    ensures
        input_schema_entries(*schema, json_map_entries(object)),
{
    match json_as_object(schema) {
        Some(map) => json_map_clone(map),
        None => {
            let mut map = json_map_new();
            json_map_insert(&mut map, "type".to_owned(), json_string("object".to_owned()));
            json_map_insert(&mut map, "properties".to_owned(), json_value_clone(schema));
            assert(json_map_entries(map) =~= map!["type"@ => json_string_value("object"@), "properties"@ => *schema]);
            map
        },
    }
}

/// The position of the tool named `name`, if there is one.
fn position_of(tools: &Vec<McpTool>, name: &String) -> (position: Option<usize>)
    ensures
        match position {
            Some(i) => i < tools@.len() && tools@[i as int].name@ == name@,
            None => !has_tool(tool_views(tools@), name@),
        },
{
    let mut i: usize = 0;
    while i < tools.len()
        invariant
            i <= tools@.len(),
            forall|j: int| 0 <= j < i ==> tools@[j].name@ != name@,
        decreases tools@.len() - i,
    {
        if tools[i].name == *name {
            return Some(i);
        }
        i += 1;
    }
    assert forall|j: int| 0 <= j < tool_views(tools@).len() implies #[trigger] tool_views(tools@)[j].name != name@ by {
        assert(tool_views(tools@)[j] == tools@[j]@);
    }
    None
}

/// Where names are distinct, the tool at position `i` is the one that
/// `tool_position` picks for its name.
proof fn lemma_position(tools: Seq<McpToolView>, name: Seq<char>, i: int)
    requires
        names_distinct(tools),
        0 <= i < tools.len(),
        tools[i].name == name,
    ensures
        has_tool(tools, name),
        tool_position(tools, name) == i,
{
    assert(tools[i].name == name);
    let k = tool_position(tools, name);
    assert(0 <= k < tools.len() && tools[k].name == name);
}

/// Registering keeps the names distinct.
pub proof fn lemma_with_tool_keeps_names_distinct(tools: Seq<McpToolView>, tool: McpToolView)
    requires
        names_distinct(tools),
    ensures
        names_distinct(with_tool(tools, tool)),
{
    let after = with_tool(tools, tool);
    if has_tool(tools, tool.name) {
        let k = tool_position(tools, tool.name);
        assert(tools[k].name == tool.name);
        assert forall|i: int, j: int|
            0 <= i < after.len() && 0 <= j < after.len() && i != j implies #[trigger] after[i].name != #[trigger] after[j].name by {
            if i == k {
                assert(tools[j].name != tools[k].name);
            } else if j == k {
                assert(tools[i].name != tools[k].name);
            } else {
                assert(tools[i].name != tools[j].name);
            }
        }
    } else {
        assert forall|i: int, j: int|
            0 <= i < after.len() && 0 <= j < after.len() && i != j implies #[trigger] after[i].name != #[trigger] after[j].name by {
            if i == tools.len() {
                assert(tools[j].name != tool.name);
            } else if j == tools.len() {
                assert(tools[i].name != tool.name);
            } else {
                assert(tools[i].name != tools[j].name);
            }
        }
    }
}

/// The names of a sequence of tools, in order.
pub open spec fn tool_names(tools: Seq<McpToolView>) -> Seq<Seq<char>> {
    tools.map_values(|t: McpToolView| t.name)
}

/// A read after a write: once a tool is registered, looking up its name
/// gives exactly that tool.
pub proof fn lemma_lookup_after_register(tools: Seq<McpToolView>, tool: McpToolView)
    requires
        names_distinct(tools),
    ensures
        lookup(with_tool(tools, tool), tool.name) == Some(tool),
{
    let after = with_tool(tools, tool);
    lemma_with_tool_keeps_names_distinct(tools, tool);
    if has_tool(tools, tool.name) {
        let k = tool_position(tools, tool.name);
        assert(after[k] == tool);
        lemma_position(after, tool.name, k);
    } else {
        let k = tools.len() as int;
        assert(after[k] == tool);
        lemma_position(after, tool.name, k);
    }
}

/// Registering a tool leaves the lookup of every other name unchanged.
pub proof fn lemma_register_leaves_other_names(tools: Seq<McpToolView>, tool: McpToolView, name: Seq<char>)
    requires
        names_distinct(tools),
        name != tool.name,
    ensures
        lookup(with_tool(tools, tool), name) == lookup(tools, name),
{
    let after = with_tool(tools, tool);
    lemma_with_tool_keeps_names_distinct(tools, tool);
    if has_tool(tools, name) {
        let k = tool_position(tools, name);
        assert(tools[k].name == name);
        assert(after[k] == tools[k]);
        lemma_position(after, name, k);
    } else {
        if has_tool(after, name) {
            let k = tool_position(after, name);
            assert(after[k].name == name);
            if k < tools.len() {
                assert(tools[k] == after[k]);
            }
            assert(false);
        }
    }
}

/// Registering keeps every registered name at its position; a name already
/// registered keeps the count and has its tool replaced in place, and a new
/// name is appended at the end.
pub proof fn lemma_register_keeps_order(tools: Seq<McpToolView>, tool: McpToolView)
    requires
        names_distinct(tools),
    ensures
        forall|i: int| 0 <= i < tools.len() ==> #[trigger] with_tool(tools, tool)[i].name == tools[i].name,
        has_tool(tools, tool.name) ==> with_tool(tools, tool).len() == tools.len(),
        !has_tool(tools, tool.name) ==> with_tool(tools, tool) == tools.push(tool),
        tool_names(with_tool(tools, tool)).subrange(0, tools.len() as int) == tool_names(tools),
{
    let after = with_tool(tools, tool);
    if has_tool(tools, tool.name) {
        let k = tool_position(tools, tool.name);
        assert(tools[k].name == tool.name);
    }
    assert(tool_names(after).subrange(0, tools.len() as int) =~= tool_names(tools));
}

/// Registering the same tool twice leaves the registry as registering it once.
pub proof fn lemma_register_twice(tools: Seq<McpToolView>, tool: McpToolView)
    requires
        names_distinct(tools),
    ensures
        with_tool(with_tool(tools, tool), tool) == with_tool(tools, tool),
{
    let once = with_tool(tools, tool);
    lemma_with_tool_keeps_names_distinct(tools, tool);
    if has_tool(tools, tool.name) {
        let k = tool_position(tools, tool.name);
        assert(tools[k].name == tool.name);
        assert(once[k] == tool);
        lemma_position(once, tool.name, k);
        assert(once.update(k, tool) =~= once);
    } else {
        let k = tools.len() as int;
        assert(once[k] == tool);
        lemma_position(once, tool.name, k);
        assert(once.update(k, tool) =~= once);
    }
}

/// Registering a tool that is already registered, with the same description
/// and schema, changes nothing.
pub proof fn lemma_register_present(tools: Seq<McpToolView>, tool: McpToolView)
    requires
        names_distinct(tools),
        lookup(tools, tool.name) == Some(tool),
    ensures
        with_tool(tools, tool) == tools,
{
    let k = tool_position(tools, tool.name);
    assert(tools[k] == tool);
    assert(tools.update(k, tool) =~= tools);
}

/// The number of tools is the number of distinct names registered.
pub proof fn lemma_count_is_distinct_names(tools: Seq<McpToolView>)
    requires
        names_distinct(tools),
    ensures
        tool_names(tools).to_set().len() == tools.len(),
{
    let names = tool_names(tools);
    assert(names.no_duplicates()) by {
        assert forall|i: int, j: int| 0 <= i < names.len() && 0 <= j < names.len() && i != j implies names[i]
            != names[j] by {
            assert(tools[i].name != tools[j].name);
        }
    }
    names.unique_seq_to_set();
}

/// The tools of a registry created empty and then given these
/// registrations, one after the other.
pub open spec fn registered(registrations: Seq<McpToolView>) -> Seq<McpToolView>
    decreases registrations.len(),
{
    if registrations.len() == 0 {
        Seq::empty()
    } else {
        with_tool(registered(registrations.drop_last()), registrations.last())
    }
}

/// The distinct names of a sequence, in the order of their first occurrence.
pub open spec fn first_occurrences(names: Seq<Seq<char>>) -> Seq<Seq<char>>
    decreases names.len(),
{
    if names.len() == 0 {
        Seq::empty()
    } else {
        let earlier = first_occurrences(names.drop_last());
        if earlier.contains(names.last()) {
            earlier
        } else {
            earlier.push(names.last())
        }
    }
}

/// The last of the registrations that has this name, if any has.
pub open spec fn last_registration(registrations: Seq<McpToolView>, name: Seq<char>) -> Option<McpToolView>
    decreases registrations.len(),
{
    if registrations.len() == 0 {
        None
    } else if registrations.last().name == name {
        Some(registrations.last())
    } else {
        last_registration(registrations.drop_last(), name)
    }
}

/// One more registration is one more `with_tool`.
pub proof fn lemma_registered_push(registrations: Seq<McpToolView>, tool: McpToolView)
    ensures
        registered(registrations.push(tool)) == with_tool(registered(registrations), tool),
{
    assert(registrations.push(tool).drop_last() =~= registrations);
}

/// The distinct names in first-occurrence order hold no name twice and hold
/// exactly the names of the sequence.
pub proof fn lemma_first_occurrences(names: Seq<Seq<char>>)
    ensures
        first_occurrences(names).no_duplicates(),
        forall|name: Seq<char>| first_occurrences(names).contains(name) <==> names.contains(name),
    decreases names.len(),
{
    if names.len() > 0 {
        let earlier_names = names.drop_last();
        lemma_first_occurrences(earlier_names);
        assert(names =~= earlier_names.push(names.last()));
        assert forall|name: Seq<char>| names.contains(name) <==> (earlier_names.contains(name) || name == names.last()) by {
            if names.contains(name) {
                let i = choose|i: int| 0 <= i < names.len() && names[i] == name;
                if i < names.len() - 1 {
                    assert(earlier_names[i] == name);
                }
            }
            if earlier_names.contains(name) {
                let i = choose|i: int| 0 <= i < earlier_names.len() && earlier_names[i] == name;
                assert(names[i] == name);
            }
            if name == names.last() {
                assert(names[names.len() - 1] == name);
            }
        }
        let earlier = first_occurrences(earlier_names);
        if !earlier.contains(names.last()) {
            let after = earlier.push(names.last());
            assert forall|name: Seq<char>| after.contains(name) <==> (earlier.contains(name) || name == names.last()) by {
                if after.contains(name) {
                    let i = choose|i: int| 0 <= i < after.len() && after[i] == name;
                    if i < earlier.len() {
                        assert(earlier[i] == name);
                    }
                }
                if earlier.contains(name) {
                    let i = choose|i: int| 0 <= i < earlier.len() && earlier[i] == name;
                    assert(after[i] == name);
                }
                if name == names.last() {
                    assert(after[after.len() - 1] == name);
                }
            }
            assert forall|i: int, j: int| 0 <= i < after.len() && 0 <= j < after.len() && i != j implies after[i]
                != after[j] by {
                if i == earlier.len() {
                    assert(!earlier.contains(after[i]));
                    if after[j] == after[i] {
                        assert(earlier[j] == after[i]);
                    }
                } else if j == earlier.len() {
                    assert(!earlier.contains(after[j]));
                    if after[j] == after[i] {
                        assert(earlier[i] == after[j]);
                    }
                } else {
                    assert(earlier[i] != earlier[j]);
                }
            }
        }
    }
}

/// The laws of a sequence of registrations, made on a registry created empty:
/// no name twice; the names are the distinct registered names in the order of
/// their first registration; and looking up a name gives the last tool
/// registered under it, or `None` if it was never registered.
pub proof fn lemma_registered(registrations: Seq<McpToolView>)
    ensures
        names_distinct(registered(registrations)),
        tool_names(registered(registrations)) == first_occurrences(tool_names(registrations)),
        forall|name: Seq<char>| #[trigger] lookup(registered(registrations), name) == last_registration(registrations, name),
    decreases registrations.len(),
{
    if registrations.len() == 0 {
        assert(tool_names(registered(registrations)) =~= first_occurrences(tool_names(registrations)));
        assert forall|name: Seq<char>| #[trigger] lookup(registered(registrations), name) == last_registration(registrations, name) by {
            assert(!has_tool(registered(registrations), name));
        }
    } else {
        let earlier_registrations = registrations.drop_last();
        let tool = registrations.last();
        lemma_registered(earlier_registrations);
        let before = registered(earlier_registrations);
        let after = registered(registrations);
        assert(after == with_tool(before, tool));
        lemma_with_tool_keeps_names_distinct(before, tool);
        // The names.
        let names = tool_names(registrations);
        assert(names.drop_last() =~= tool_names(earlier_registrations));
        assert(names.last() == tool.name);
        let earlier = first_occurrences(tool_names(earlier_registrations));
        assert(earlier == tool_names(before));
        if has_tool(before, tool.name) {
            let k = tool_position(before, tool.name);
            assert(before[k].name == tool.name);
            assert(earlier[k] == tool.name);
            assert(earlier.contains(tool.name));
            assert(tool_names(after) =~= tool_names(before));
        } else {
            if earlier.contains(tool.name) {
                let i = choose|i: int| 0 <= i < earlier.len() && earlier[i] == tool.name;
                assert(before[i].name == tool.name);
                assert(false);
            }
            assert(tool_names(after) =~= tool_names(before).push(tool.name));
        }
        // The lookups.
        assert forall|name: Seq<char>| #[trigger] lookup(after, name) == last_registration(registrations, name) by {
            if name == tool.name {
                lemma_lookup_after_register(before, tool);
            } else {
                lemma_register_leaves_other_names(before, tool, name);
                assert(lookup(before, name) == last_registration(earlier_registrations, name));
            }
        }
    }
}

/// After a sequence of registrations on a registry created empty, the number
/// of tools is the number of distinct names registered.
pub proof fn lemma_registered_count(registrations: Seq<McpToolView>)
    ensures
        registered(registrations).len() == tool_names(registrations).to_set().len(),
{
    let names = tool_names(registrations);
    lemma_registered(registrations);
    lemma_first_occurrences(names);
    let distinct = first_occurrences(names);
    assert(registered(registrations).len() == tool_names(registered(registrations)).len());
    assert(distinct.to_set() =~= names.to_set()) by {
        assert forall|name: Seq<char>| distinct.to_set().contains(name) <==> names.to_set().contains(name) by {
            assert(distinct.contains(name) <==> names.contains(name));
        }
    }
    distinct.unique_seq_to_set();
}

/// A name not yet present is appended to the names; a present one adds nothing.
pub open spec fn appended_if_new(names: Seq<Seq<char>>, name: Seq<char>) -> Seq<Seq<char>> {
    if names.contains(name) {
        Seq::empty()
    } else {
        seq![name]
    }
}

/// Registering a tool keeps the names that were there, in order, and appends
/// the tool's name exactly when it was not there yet.
pub proof fn lemma_names_after_register(tools: Seq<McpToolView>, tool: McpToolView)
    requires
        names_distinct(tools),
    ensures
        tool_names(with_tool(tools, tool)) == tool_names(tools) + appended_if_new(tool_names(tools), tool.name),
{
    let names = tool_names(tools);
    let after = with_tool(tools, tool);
    if has_tool(tools, tool.name) {
        let k = tool_position(tools, tool.name);
        assert(tools[k].name == tool.name);
        assert(names[k] == tool.name);
        assert(names.contains(tool.name));
        assert(tool_names(after) =~= names + appended_if_new(names, tool.name));
    } else {
        if names.contains(tool.name) {
            let i = choose|i: int| 0 <= i < names.len() && names[i] == tool.name;
            assert(tools[i].name == tool.name);
            assert(false);
        }
        assert(tool_names(after) =~= names + appended_if_new(names, tool.name));
    }
}

/// A tool of the list carries the name and the description of the registered
/// tool, unchanged, and its input schema object is the registered schema when
/// that is a JSON object, or else `{"type": "object", "properties": schema}`.
pub proof fn lemma_listed_tool(tool: McpToolView, listed: rmcp::model::Tool)
    requires
        listed_as(tool, listed),
    ensures
        exists|entries: Map<Seq<char>, serde_json::Value>|
            {
                &&& listed == #[trigger] rmcp_tool(tool.name, tool.description, entries)
                &&& is_json_object(tool.schema) ==> tool.schema == json_object_value(entries)
                &&& !is_json_object(tool.schema) ==> entries == map![
                    "type"@ => json_string_value("object"@),
                    "properties"@ => tool.schema
                ]
            },
{
}

} // verus!
