use vstd::prelude::*;

use crate::json::{entry, fields_model, items_model, Json, JsonView};
use crate::text::{joined, join_lines, join_lines_spec};
use crate::tools::{
    defaulted_property, defaulted_property_spec, object_schema, object_schema_spec,
    string_property, string_property_spec,
};

verus! {

/// The tool that finds files whose paths match a pattern.
pub struct Glob;

/// The schema of the arguments of [`Glob`].
pub open spec fn glob_parameters_spec() -> JsonView {
    object_schema_spec(
        seq![
            ("pattern"@, string_property_spec("Glob pattern, e.g. '**/*.rs' or '*.txt'."@)),
            (
                "path"@,
                defaulted_property_spec(
                    "string"@,
                    "Optional directory to search in. Defaults to the current directory."@,
                    JsonView::Str("."@),
                ),
            ),
        ],
        seq![JsonView::Str("pattern"@)],
    )
}

/// The pattern that a call with the string member `pattern` searches for: the directory that
/// its string member `path` names, `.` when it names none, a slash, then the pattern.
pub open spec fn search_pattern_spec(args: JsonView) -> Seq<char> {
    let dir = match args.field_text("path"@) {
        Some(p) => p,
        None => "."@,
    };
    dir + "/"@ + args.field_text("pattern"@).unwrap()
}

impl Glob {
    pub fn name(&self) -> (r: &'static str)
        ensures
            r@ == "glob"@,
    {
        "glob"
    }

    pub fn description(&self) -> (r: &'static str)
        ensures
            r@ == "Find files by pattern."@,
    {
        "Find files by pattern."
    }

    pub fn parameters(&self) -> (r: Json)
        ensures
            r@ == glob_parameters_spec(),
    {
        let mut props: Vec<(String, Json)> = Vec::new();
        props.push(entry("pattern", string_property("Glob pattern, e.g. '**/*.rs' or '*.txt'.")));
        props.push(
            entry(
                "path",
                defaulted_property(
                    "string",
                    "Optional directory to search in. Defaults to the current directory.",
                    Json::from_str("."),
                ),
            ),
        );
        let mut required: Vec<Json> = Vec::new();
        required.push(Json::from_str("pattern"));
        assert(fields_model(props@) =~= seq![
            ("pattern"@, string_property_spec("Glob pattern, e.g. '**/*.rs' or '*.txt'."@)),
            (
                "path"@,
                defaulted_property_spec(
                    "string"@,
                    "Optional directory to search in. Defaults to the current directory."@,
                    JsonView::Str("."@),
                ),
            ),
        ]);
        assert(items_model(required@) =~= seq![JsonView::Str("pattern"@)]);
        object_schema(props, required)
    }

    /// The pattern a call searches for; the call must name a pattern.
    pub fn search_pattern(&self, args: &Json) -> (r: String)
        requires
            args@.field_text("pattern"@) is Some,
        ensures
            r@ == search_pattern_spec(args@),
    {
        let pattern = args.str_member("pattern");
        let dir = match args.get_str("path") {
            Some(p) => p,
            None => ".".to_owned(),
        };
        let with_slash = joined(dir.as_str(), "/");
        joined(with_slash.as_str(), pattern.as_str())
    }

    /// The answer of a search: the paths found, one per line.
    pub fn listing(&self, paths: &Vec<String>) -> (r: String)
        ensures
            r@ == join_lines_spec(paths@.map_values(|p: String| p@)),
    {
        join_lines(paths)
    }
}

} // verus!
