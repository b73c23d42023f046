use vstd::prelude::*;

use vstd::utf8::{decode_utf8, valid_utf8};

use crate::json::{entry, fields_model, items_model, Json, JsonView};
use crate::tools::{object_schema, object_schema_spec, string_property, string_property_spec};

verus! {

/// The text that `String::from_utf8_lossy` makes of `bytes`: each invalid sequence replaced by
/// U+FFFD.
pub uninterp spec fn utf8_lossy(bytes: Seq<u8>) -> Seq<char>;

/// Decodes bytes with `String::from_utf8_lossy`, taking the text it gives as an owned string.
/// Claimed: the result is `utf8_lossy` of the bytes, a function of the bytes alone, and bytes
/// that are valid UTF-8 decode to the characters they encode. How invalid sequences are
/// replaced is left to the name.
#[verifier::external_body]
fn lossy_utf8(bytes: &[u8]) -> (r: String)
    ensures
        r@ == utf8_lossy(bytes@),
        valid_utf8(bytes@) ==> r@ == decode_utf8(bytes@),
{
    String::from_utf8_lossy(bytes).into_owned()
}

/// The tool that runs a shell command.
pub struct Bash;

/// The schema of the arguments of [`Bash`].
pub open spec fn bash_parameters_spec() -> JsonView {
    object_schema_spec(
        seq![("command"@, string_property_spec("The shell command to run."@))],
        seq![JsonView::Str("command"@)],
    )
}

impl Bash {
    pub fn name(&self) -> (r: &'static str)
        ensures
            r@ == "bash"@,
    {
        "bash"
    }

    pub fn description(&self) -> (r: &'static str)
        ensures
            r@ == "Run a shell command."@,
    {
        "Run a shell command."
    }

    pub fn parameters(&self) -> (r: Json)
        ensures
            r@ == bash_parameters_spec(),
    {
        let mut props: Vec<(String, Json)> = Vec::new();
        props.push(entry("command", string_property("The shell command to run.")));
        let mut required: Vec<Json> = Vec::new();
        required.push(Json::from_str("command"));
        assert(fields_model(props@) =~= seq![
            ("command"@, string_property_spec("The shell command to run."@)),
        ]);
        assert(items_model(required@) =~= seq![JsonView::Str("command"@)]);
        object_schema(props, required)
    }

    /// The answer of a command: what it wrote to its standard output, decoded as UTF-8 with
    /// each invalid sequence replaced.
    pub fn output_text(&self, stdout: &[u8]) -> (r: String)
        ensures
            r@ == utf8_lossy(stdout@),
            valid_utf8(stdout@) ==> r@ == decode_utf8(stdout@),
    {
        lossy_utf8(stdout)
    }

    /// The command a call asks to run: its string member `command`, which the call must have.
    pub fn command(&self, args: &Json) -> (r: String)
        requires
            args@.field_text("command"@) is Some,
        ensures
            args@.field_text("command"@) == Some(r@),
    {
        args.str_member("command")
    }
}

} // verus!
