use vstd::prelude::*;

use crate::json::{entry, fields_model, items_model, Json, JsonView};
use crate::tools::{object_schema, object_schema_spec, string_property, string_property_spec};

verus! {

/// The tool that writes a file, replacing what it held.
pub struct Write;

/// What a call of [`Write`] asks for.
pub struct WriteArgs {
    pub path: String,
    pub content: String,
}

/// The schema of the arguments of [`Write`].
pub open spec fn write_parameters_spec() -> JsonView {
    object_schema_spec(
        seq![
            ("path"@, string_property_spec("Path to the file to write."@)),
            ("content"@, string_property_spec("The text content to write."@)),
        ],
        seq![JsonView::Str("path"@), JsonView::Str("content"@)],
    )
}

impl Write {
    pub fn name(&self) -> (r: &'static str)
        ensures
            r@ == "write"@,
    {
        "write"
    }

    pub fn description(&self) -> (r: &'static str)
        ensures
            r@ == "Write content to file."@,
    {
        "Write content to file."
    }

    pub fn parameters(&self) -> (r: Json)
        ensures
            r@ == write_parameters_spec(),
    {
        let mut props: Vec<(String, Json)> = Vec::new();
        props.push(entry("path", string_property("Path to the file to write.")));
        props.push(entry("content", string_property("The text content to write.")));
        let mut required: Vec<Json> = Vec::new();
        required.push(Json::from_str("path"));
        required.push(Json::from_str("content"));
        assert(fields_model(props@) =~= seq![
            ("path"@, string_property_spec("Path to the file to write."@)),
            ("content"@, string_property_spec("The text content to write."@)),
        ]);
        assert(items_model(required@) =~= seq![JsonView::Str("path"@), JsonView::Str("content"@)]);
        object_schema(props, required)
    }

    /// What a call asks for: the string members `path` and `content`, which the call must
    /// have.
    pub fn arguments(&self, args: &Json) -> (r: WriteArgs)
        requires
            args@.field_text("path"@) is Some,
            args@.field_text("content"@) is Some,
        ensures
            args@.field_text("path"@) == Some(r.path@),
            args@.field_text("content"@) == Some(r.content@),
    {
        WriteArgs { path: args.str_member("path"), content: args.str_member("content") }
    }

    /// What a finished write answers.
    pub fn done_message(&self) -> (r: String)
        ensures
            r@ == "File written successfully."@,
    {
        "File written successfully.".to_owned()
    }
}

} // verus!
