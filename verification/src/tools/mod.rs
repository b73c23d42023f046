//! The tools the model can call: what each is named, what it says of itself, the schema of
//! its arguments, and how a call of it is read.

use vstd::prelude::*;

use crate::json::{entry, fields_model, items_model, Json, JsonView};

pub mod bash;
pub mod edit;
pub mod glob;
pub mod load_skill;
pub mod read;
pub mod write;

pub use bash::Bash;
pub use edit::Edit;
pub use glob::Glob;
pub use load_skill::LoadSkill;
pub use read::Read;
pub use write::Write;

verus! {

/// The schema of a string argument with a description.
pub open spec fn string_property_spec(description: Seq<char>) -> JsonView {
    JsonView::Object(
        seq![("type"@, JsonView::Str("string"@)), ("description"@, JsonView::Str(description))],
    )
}

/// The schema of an argument of the JSON type `kind` with a description and a default.
pub open spec fn defaulted_property_spec(
    kind: Seq<char>,
    description: Seq<char>,
    default: JsonView,
) -> JsonView {
    JsonView::Object(
        seq![
            ("type"@, JsonView::Str(kind)),
            ("description"@, JsonView::Str(description)),
            ("default"@, default),
        ],
    )
}

/// The schema of an object whose members are `properties`, of which `required` must be given.
pub open spec fn object_schema_spec(
    properties: Seq<(Seq<char>, JsonView)>,
    required: Seq<JsonView>,
) -> JsonView {
    JsonView::Object(
        seq![
            ("type"@, JsonView::Str("object"@)),
            ("properties"@, JsonView::Object(properties)),
            ("required"@, JsonView::Array(required)),
        ],
    )
}

/// The schema of a string argument with a description.
pub fn string_property(description: &str) -> (r: Json)
    ensures
        r@ == string_property_spec(description@),
{
    let mut fields: Vec<(String, Json)> = Vec::new();
    fields.push(entry("type", Json::from_str("string")));
    fields.push(entry("description", Json::from_str(description)));
    let r = Json::object(fields);
    assert(fields_model(fields@) =~= seq![
        ("type"@, JsonView::Str("string"@)),
        ("description"@, JsonView::Str(description@)),
    ]);
    r
}

/// The schema of an argument of the JSON type `kind` with a description and a default.
pub fn defaulted_property(kind: &str, description: &str, default: Json) -> (r: Json)
    ensures
        r@ == defaulted_property_spec(kind@, description@, default@),
{
    let ghost dm = default@;
    let mut fields: Vec<(String, Json)> = Vec::new();
    fields.push(entry("type", Json::from_str(kind)));
    fields.push(entry("description", Json::from_str(description)));
    fields.push(entry("default", default));
    let r = Json::object(fields);
    assert(fields_model(fields@) =~= seq![
        ("type"@, JsonView::Str(kind@)),
        ("description"@, JsonView::Str(description@)),
        ("default"@, dm),
    ]);
    r
}

/// The schema of an object with the given members, of which those named in `required` must
/// be given.
pub fn object_schema(properties: Vec<(String, Json)>, required: Vec<Json>) -> (r: Json)
    ensures
        r@ == object_schema_spec(fields_model(properties@), items_model(required@)),
{
    let ghost pm = fields_model(properties@);
    let ghost rm = items_model(required@);
    let mut fields: Vec<(String, Json)> = Vec::new();
    fields.push(entry("type", Json::from_str("object")));
    fields.push(entry("properties", Json::object(properties)));
    fields.push(entry("required", Json::array(required)));
    let r = Json::object(fields);
    assert(fields_model(fields@) =~= seq![
        ("type"@, JsonView::Str("object"@)),
        ("properties"@, JsonView::Object(pm)),
        ("required"@, JsonView::Array(rm)),
    ]);
    r
}

} // verus!

verus! {

/// What a call of a tool asks the agent to do.
pub enum ToolRequest {
    /// Run a shell command and answer with what it wrote to its standard output.
    Bash { command: String },
    /// Answer with the content of a file, or nothing when it cannot be read.
    Read { path: String },
    /// Write a file.
    Write(write::WriteArgs),
    /// Edit a file.
    Edit(edit::EditArgs),
    /// Answer with the paths that match a search pattern, one per line.
    Glob { pattern: String },
    /// Answer with the instructions of a skill.
    LoadSkill { name: String },
    /// Answer at once: the agent has no tool of that name.
    Unknown { answer: String },
}

/// Whether `name` names one of the tools that the agent runs.
pub open spec fn is_agent_tool(name: Seq<char>) -> bool {
    ||| name == "bash"@
    ||| name == "read"@
    ||| name == "write"@
    ||| name == "edit"@
    ||| name == "glob"@
    ||| name == "load_skill"@
}

/// Whether a call of the tool `name` has the string members that the tool cannot run without.
/// A call of a tool that the agent does not have needs none.
pub open spec fn call_is_complete(name: Seq<char>, args: JsonView) -> bool {
    if name == "bash"@ {
        args.field_text("command"@) is Some
    } else if name == "read"@ {
        args.field_text("path"@) is Some
    } else if name == "write"@ {
        args.field_text("path"@) is Some && args.field_text("content"@) is Some
    } else if name == "edit"@ {
        &&& args.field_text("path"@) is Some
        &&& args.field_text("old_string"@) is Some
        &&& args.field_text("new_string"@) is Some
    } else if name == "glob"@ {
        args.field_text("pattern"@) is Some
    } else if name == "load_skill"@ {
        args.field_text("name"@) is Some
    } else {
        true
    }
}

proof fn lemma_agent_tool_names_differ()
    ensures
        "bash"@ != "read"@,
        "bash"@ != "write"@,
        "bash"@ != "edit"@,
        "bash"@ != "glob"@,
        "bash"@ != "load_skill"@,
        "read"@ != "write"@,
        "read"@ != "edit"@,
        "read"@ != "glob"@,
        "read"@ != "load_skill"@,
        "write"@ != "edit"@,
        "write"@ != "glob"@,
        "write"@ != "load_skill"@,
        "edit"@ != "glob"@,
        "edit"@ != "load_skill"@,
        "glob"@ != "load_skill"@,
{
    reveal_strlit("bash");
    reveal_strlit("read");
    reveal_strlit("write");
    reveal_strlit("edit");
    reveal_strlit("glob");
    reveal_strlit("load_skill");
    assert("bash"@[0] != "read"@[0]);
    assert("bash"@[0] != "write"@[0]);
    assert("bash"@[0] != "edit"@[0]);
    assert("bash"@[0] != "glob"@[0]);
    assert("bash"@[0] != "load_skill"@[0]);
    assert("read"@[0] != "write"@[0]);
    assert("read"@[0] != "edit"@[0]);
    assert("read"@[0] != "glob"@[0]);
    assert("read"@[0] != "load_skill"@[0]);
    assert("write"@[0] != "edit"@[0]);
    assert("write"@[0] != "glob"@[0]);
    assert("write"@[0] != "load_skill"@[0]);
    assert("edit"@[0] != "glob"@[0]);
    assert("edit"@[0] != "load_skill"@[0]);
    assert("glob"@[0] != "load_skill"@[0]);
}

/// The schema of the arguments of the tool `name`; `null` for a tool the agent does not have.
pub open spec fn parameters_of(name: Seq<char>) -> JsonView {
    if name == "bash"@ {
        bash::bash_parameters_spec()
    } else if name == "read"@ {
        read::read_parameters_spec()
    } else if name == "write"@ {
        write::write_parameters_spec()
    } else if name == "edit"@ {
        edit::edit_parameters_spec()
    } else if name == "glob"@ {
        glob::glob_parameters_spec()
    } else if name == "load_skill"@ {
        load_skill::load_skill_parameters_spec()
    } else {
        JsonView::Null
    }
}

/// Whether `args` carries, as a string, every member that `schema` lists as required.
pub open spec fn has_required(schema: JsonView, args: JsonView) -> bool {
    match schema.field("required"@) {
        Some(JsonView::Array(keys)) => forall|k: int|
            0 <= k < keys.len() ==> match #[trigger] keys[k] {
                JsonView::Str(key) => args.field_text(key) is Some,
                _ => true,
            },
        _ => true,
    }
}

/// The members an object schema lists as required.
proof fn lemma_schema_required()
    ensures
        forall|properties: Seq<(Seq<char>, JsonView)>, required: Seq<JsonView>|
            #[trigger] object_schema_spec(properties, required).field("required"@) == Some(
                JsonView::Array(required),
            ),
{
    reveal_strlit("type");
    reveal_strlit("properties");
    reveal_strlit("required");
    assert("type"@[0] != "required"@[0]);
    assert("properties"@[0] != "required"@[0]);
    assert forall|properties: Seq<(Seq<char>, JsonView)>, required: Seq<JsonView>|
        #[trigger] object_schema_spec(properties, required).field("required"@) == Some(
            JsonView::Array(required),
        ) by {
        let fields = seq![
            ("type"@, JsonView::Str("object"@)),
            ("properties"@, JsonView::Object(properties)),
            ("required"@, JsonView::Array(required)),
        ];
        assert(fields.skip(1).skip(1)[0] == ("required"@, JsonView::Array(required)));
        assert(crate::json::lookup(fields.skip(1).skip(1), "required"@) == Some(
            JsonView::Array(required),
        ));
        assert(crate::json::lookup(fields.skip(1), "required"@) == Some(JsonView::Array(required)));
    }
}

/// With the required members `keys` given one by one, `has_required` holds exactly when each
/// is there as a string.
proof fn lemma_required_keys(schema: JsonView, args: JsonView, keys: Seq<Seq<char>>)
    requires
        schema.field("required"@) == Some(
            JsonView::Array(keys.map_values(|k: Seq<char>| JsonView::Str(k))),
        ),
    ensures
        has_required(schema, args) <==> forall|k: int|
            0 <= k < keys.len() ==> args.field_text(#[trigger] keys[k]) is Some,
{
    let items = keys.map_values(|k: Seq<char>| JsonView::Str(k));
    if has_required(schema, args) {
        assert forall|k: int| 0 <= k < keys.len() implies args.field_text(#[trigger] keys[k])
            is Some by {
            assert(items[k] == JsonView::Str(keys[k]));
        }
    }
    if forall|k: int| 0 <= k < keys.len() ==> args.field_text(#[trigger] keys[k]) is Some {
        assert forall|k: int| 0 <= k < items.len() implies match #[trigger] items[k] {
            JsonView::Str(key) => args.field_text(key) is Some,
            _ => true,
        } by {
            assert(items[k] == JsonView::Str(keys[k]));
        }
    }
}

/// A call of one of the agent's tools holds what the tool needs exactly when it carries, as
/// strings, the members that the tool's schema lists as required. Members the schema leaves
/// optional, such as the `path` of glob or the `replace_all` of edit, play no part.
pub proof fn law_complete_exactly_when_required_members_given(name: Seq<char>, args: JsonView)
    requires
        is_agent_tool(name),
    ensures
        call_is_complete(name, args) <==> has_required(parameters_of(name), args),
{
    lemma_agent_tool_names_differ();
    lemma_schema_required();
    let schema = parameters_of(name);
    if name == "bash"@ {
        let keys = seq!["command"@];
        assert(keys.map_values(|k: Seq<char>| JsonView::Str(k)) =~= seq![JsonView::Str("command"@)]);
        lemma_required_keys(schema, args, keys);
        assert(keys[0] == "command"@);
    } else if name == "read"@ {
        let keys = seq!["path"@];
        assert(keys.map_values(|k: Seq<char>| JsonView::Str(k)) =~= seq![JsonView::Str("path"@)]);
        lemma_required_keys(schema, args, keys);
        assert(keys[0] == "path"@);
    } else if name == "write"@ {
        let keys = seq!["path"@, "content"@];
        assert(keys.map_values(|k: Seq<char>| JsonView::Str(k)) =~= seq![
            JsonView::Str("path"@),
            JsonView::Str("content"@),
        ]);
        lemma_required_keys(schema, args, keys);
        assert(keys[0] == "path"@ && keys[1] == "content"@);
    } else if name == "edit"@ {
        let keys = seq!["path"@, "old_string"@, "new_string"@];
        assert(keys.map_values(|k: Seq<char>| JsonView::Str(k)) =~= seq![
            JsonView::Str("path"@),
            JsonView::Str("old_string"@),
            JsonView::Str("new_string"@),
        ]);
        lemma_required_keys(schema, args, keys);
        assert(keys[0] == "path"@ && keys[1] == "old_string"@ && keys[2] == "new_string"@);
    } else if name == "glob"@ {
        let keys = seq!["pattern"@];
        assert(keys.map_values(|k: Seq<char>| JsonView::Str(k)) =~= seq![JsonView::Str("pattern"@)]);
        lemma_required_keys(schema, args, keys);
        assert(keys[0] == "pattern"@);
    } else {
        let keys = seq!["name"@];
        assert(keys.map_values(|k: Seq<char>| JsonView::Str(k)) =~= seq![JsonView::Str("name"@)]);
        lemma_required_keys(schema, args, keys);
        assert(keys[0] == "name"@);
    }
}

/// Whether a call of the tool `name` with the arguments `args` can be run: see
/// [`call_is_complete`].
pub fn arguments_complete(name: &str, args: &Json) -> (r: bool)
    ensures
        r == call_is_complete(name@, args@),
        is_agent_tool(name@) ==> (r <==> has_required(parameters_of(name@), args@)),
        !is_agent_tool(name@) ==> r,
{
    proof {
        lemma_agent_tool_names_differ();
        if is_agent_tool(name@) {
            law_complete_exactly_when_required_members_given(name@, args@);
        }
    }
    if crate::text::chars_equal(name, "bash") {
        args.has_str("command")
    } else if crate::text::chars_equal(name, "read") {
        args.has_str("path")
    } else if crate::text::chars_equal(name, "write") {
        args.has_str("path") && args.has_str("content")
    } else if crate::text::chars_equal(name, "edit") {
        args.has_str("path") && args.has_str("old_string") && args.has_str("new_string")
    } else if crate::text::chars_equal(name, "glob") {
        args.has_str("pattern")
    } else if crate::text::chars_equal(name, "load_skill") {
        args.has_str("name")
    } else {
        true
    }
}

/// Reads a call of the tool `name` with the arguments `args`, which must hold what the tool
/// needs.
pub fn tool_request(name: &str, args: &Json) -> (r: ToolRequest)
    requires
        call_is_complete(name@, args@),
    ensures
        name@ == "bash"@ ==> match r {
            ToolRequest::Bash { command } => args@.field_text("command"@) == Some(command@),
            _ => false,
        },
        name@ == "read"@ ==> match r {
            ToolRequest::Read { path } => args@.field_text("path"@) == Some(path@),
            _ => false,
        },
        name@ == "write"@ ==> match r {
            ToolRequest::Write(a) => args@.field_text("path"@) == Some(a.path@)
                && args@.field_text("content"@) == Some(a.content@),
            _ => false,
        },
        name@ == "edit"@ ==> match r {
            ToolRequest::Edit(a) => {
                &&& args@.field_text("path"@) == Some(a.path@)
                &&& args@.field_text("old_string"@) == Some(a.old_string@)
                &&& args@.field_text("new_string"@) == Some(a.new_string@)
                &&& a.replace_all == (args@.field_bool("replace_all"@) == Some(true))
            },
            _ => false,
        },
        name@ == "glob"@ ==> match r {
            ToolRequest::Glob { pattern } => pattern@ == glob::search_pattern_spec(args@),
            _ => false,
        },
        name@ == "load_skill"@ ==> match r {
            ToolRequest::LoadSkill { name: skill } => args@.field_text("name"@) == Some(skill@),
            _ => false,
        },
        !is_agent_tool(name@) ==> match r {
            ToolRequest::Unknown { answer } => answer@ == "unknown tool: "@ + name@,
            _ => false,
        },
{
    proof {
        lemma_agent_tool_names_differ();
    }
    if crate::text::chars_equal(name, "bash") {
        ToolRequest::Bash { command: Bash.command(args) }
    } else if crate::text::chars_equal(name, "read") {
        ToolRequest::Read { path: Read.path(args) }
    } else if crate::text::chars_equal(name, "write") {
        ToolRequest::Write(Write.arguments(args))
    } else if crate::text::chars_equal(name, "edit") {
        ToolRequest::Edit(Edit.arguments(args))
    } else if crate::text::chars_equal(name, "glob") {
        ToolRequest::Glob { pattern: Glob.search_pattern(args) }
    } else if crate::text::chars_equal(name, "load_skill") {
        ToolRequest::LoadSkill { name: LoadSkill.skill_name(args) }
    } else {
        ToolRequest::Unknown { answer: crate::text::joined("unknown tool: ", name) }
    }
}

} // verus!
