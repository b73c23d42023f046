use vstd::prelude::*;

use crate::json::{entry, fields_model, items_model, Json, JsonView};
use crate::tools::{object_schema, object_schema_spec, string_property, string_property_spec};

verus! {

/// The tool that reads a file.
pub struct Read;

/// The schema of the arguments of [`Read`].
pub open spec fn read_parameters_spec() -> JsonView {
    object_schema_spec(
        seq![("path"@, string_property_spec("Path to the file to read."@))],
        seq![JsonView::Str("path"@)],
    )
}

impl Read {
    pub fn name(&self) -> (r: &'static str)
        ensures
            r@ == "read"@,
    {
        "read"
    }

    pub fn description(&self) -> (r: &'static str)
        ensures
            r@ == "Read file contents."@,
    {
        "Read file contents."
    }

    pub fn parameters(&self) -> (r: Json)
        ensures
            r@ == read_parameters_spec(),
    {
        let mut props: Vec<(String, Json)> = Vec::new();
        props.push(entry("path", string_property("Path to the file to read.")));
        let mut required: Vec<Json> = Vec::new();
        required.push(Json::from_str("path"));
        assert(fields_model(props@) =~= seq![
            ("path"@, string_property_spec("Path to the file to read."@)),
        ]);
        assert(items_model(required@) =~= seq![JsonView::Str("path"@)]);
        object_schema(props, required)
    }

    /// The file a call asks to read: its string member `path`, which the call must have.
    pub fn path(&self, args: &Json) -> (r: String)
        requires
            args@.field_text("path"@) is Some,
        ensures
            args@.field_text("path"@) == Some(r@),
    {
        args.str_member("path")
    }
}

} // verus!
