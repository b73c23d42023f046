use vstd::prelude::*;

use crate::json::{entry, fields_model, items_model, Json, JsonView};
use crate::tools::{object_schema, object_schema_spec, string_property, string_property_spec};

verus! {

/// The tool that loads one of the skills the system prompt lists.
pub struct LoadSkill;

/// The schema of the arguments of [`LoadSkill`].
pub open spec fn load_skill_parameters_spec() -> JsonView {
    object_schema_spec(
        seq![
            (
                "name"@,
                string_property_spec(
                    "The skill name, as shown in the available-skills list in the system prompt."@,
                ),
            ),
        ],
        seq![JsonView::Str("name"@)],
    )
}

impl LoadSkill {
    pub fn name(&self) -> (r: &'static str)
        ensures
            r@ == "load_skill"@,
    {
        "load_skill"
    }

    pub fn description(&self) -> (r: &'static str)
        ensures
            r@ == "Load a skill from a file"@,
    {
        "Load a skill from a file"
    }

    pub fn parameters(&self) -> (r: Json)
        ensures
            r@ == load_skill_parameters_spec(),
    {
        let mut props: Vec<(String, Json)> = Vec::new();
        props.push(
            entry(
                "name",
                string_property(
                    "The skill name, as shown in the available-skills list in the system prompt.",
                ),
            ),
        );
        let mut required: Vec<Json> = Vec::new();
        required.push(Json::from_str("name"));
        assert(fields_model(props@) =~= seq![
            (
                "name"@,
                string_property_spec(
                    "The skill name, as shown in the available-skills list in the system prompt."@,
                ),
            ),
        ]);
        assert(items_model(required@) =~= seq![JsonView::Str("name"@)]);
        object_schema(props, required)
    }

    /// The skill a call asks for: its string member `name`, which the call must have.
    pub fn skill_name(&self, args: &Json) -> (r: String)
        requires
            args@.field_text("name"@) is Some,
        ensures
            args@.field_text("name"@) == Some(r@),
    {
        args.str_member("name")
    }
}

} // verus!
