use vstd::prelude::*;

use crate::json::{entry, fields_model, items_model, Json, JsonView};
use crate::text::{chars_of, occurs_at, replace_all, replace_all_chars, replace_first, replace_first_chars, string_of};
use crate::tools::{
    defaulted_property, defaulted_property_spec, object_schema, object_schema_spec,
    string_property, string_property_spec,
};

verus! {

/// The tool that replaces text in a file.
pub struct Edit;

/// What a call of [`Edit`] asks for.
pub struct EditArgs {
    pub path: String,
    pub old_string: String,
    pub new_string: String,
    pub replace_all: bool,
}

/// The schema of the arguments of [`Edit`].
pub open spec fn edit_parameters_spec() -> JsonView {
    object_schema_spec(
        seq![
            ("path"@, string_property_spec("Path to the file to edit."@)),
            ("old_string"@, string_property_spec("The exact text to find."@)),
            ("new_string"@, string_property_spec("The replacement text."@)),
            (
                "replace_all"@,
                defaulted_property_spec(
                    "boolean"@,
                    "Replace every occurrence. Defaults to false."@,
                    JsonView::Bool(false),
                ),
            ),
        ],
        seq![
            JsonView::Str("path"@),
            JsonView::Str("old_string"@),
            JsonView::Str("new_string"@),
        ],
    )
}

/// The new content of a file: `content` with the first occurrence of `old` replaced by
/// `new`, or every occurrence when `all` is set.
pub open spec fn edited(content: Seq<char>, old: Seq<char>, new: Seq<char>, all: bool) -> Seq<char> {
    if all {
        replace_all(content, old, new)
    } else {
        replace_first(content, old, new)
    }
}

impl Edit {
    pub fn name(&self) -> (r: &'static str)
        ensures
            r@ == "edit"@,
    {
        "edit"
    }

    pub fn description(&self) -> (r: &'static str)
        ensures
            r@ == "Replace text in file."@,
    {
        "Replace text in file."
    }

    pub fn parameters(&self) -> (r: Json)
        ensures
            r@ == edit_parameters_spec(),
    {
        let mut props: Vec<(String, Json)> = Vec::new();
        props.push(entry("path", string_property("Path to the file to edit.")));
        props.push(entry("old_string", string_property("The exact text to find.")));
        props.push(entry("new_string", string_property("The replacement text.")));
        props.push(
            entry(
                "replace_all",
                defaulted_property(
                    "boolean",
                    "Replace every occurrence. Defaults to false.",
                    Json::Bool(false),
                ),
            ),
        );
        let mut required: Vec<Json> = Vec::new();
        required.push(Json::from_str("path"));
        required.push(Json::from_str("old_string"));
        required.push(Json::from_str("new_string"));
        assert(fields_model(props@) =~= seq![
            ("path"@, string_property_spec("Path to the file to edit."@)),
            ("old_string"@, string_property_spec("The exact text to find."@)),
            ("new_string"@, string_property_spec("The replacement text."@)),
            (
                "replace_all"@,
                defaulted_property_spec(
                    "boolean"@,
                    "Replace every occurrence. Defaults to false."@,
                    JsonView::Bool(false),
                ),
            ),
        ]);
        assert(items_model(required@) =~= seq![
            JsonView::Str("path"@),
            JsonView::Str("old_string"@),
            JsonView::Str("new_string"@),
        ]);
        object_schema(props, required)
    }

    /// What a call asks for: the string members `path`, `old_string` and `new_string`, which
    /// the call must have, and the boolean member `replace_all`, false when absent or not a
    /// boolean.
    pub fn arguments(&self, args: &Json) -> (r: EditArgs)
        requires
            args@.field_text("path"@) is Some,
            args@.field_text("old_string"@) is Some,
            args@.field_text("new_string"@) is Some,
        ensures
            args@.field_text("path"@) == Some(r.path@),
            args@.field_text("old_string"@) == Some(r.old_string@),
            args@.field_text("new_string"@) == Some(r.new_string@),
            r.replace_all == (args@.field_bool("replace_all"@) == Some(true)),
    {
        let replace_all = match args.get_bool("replace_all") {
            Some(b) => b,
            None => false,
        };
        EditArgs {
            path: args.str_member("path"),
            old_string: args.str_member("old_string"),
            new_string: args.str_member("new_string"),
            replace_all,
        }
    }

    /// The content of the file after the edit.
    pub fn apply(&self, content: &str, old_string: &str, new_string: &str, replace_all: bool) -> (r:
        String)
        ensures
            r@ == edited(content@, old_string@, new_string@, replace_all),
            old_string@.len() > 0 ==> forall|i: int|
                #[trigger] occurs_at(content@, old_string@, i) && (forall|j: int|
                    0 <= j < i ==> !#[trigger] occurs_at(content@, old_string@, j)) ==> r@ == (
                if replace_all {
                    content@.take(i) + new_string@ + edited(
                        content@.skip(i + old_string@.len()),
                        old_string@,
                        new_string@,
                        true,
                    )
                } else {
                    content@.take(i) + new_string@ + content@.skip(i + old_string@.len())
                }),
    {
        proof {
            assert forall|i: int|
                old_string@.len() > 0 && #[trigger] occurs_at(content@, old_string@, i) && (
                forall|j: int| 0 <= j < i ==> !#[trigger] occurs_at(content@, old_string@, j))
                implies edited(content@, old_string@, new_string@, replace_all) == (if replace_all {
                content@.take(i) + new_string@ + edited(
                    content@.skip(i + old_string@.len()),
                    old_string@,
                    new_string@,
                    true,
                )
            } else {
                content@.take(i) + new_string@ + content@.skip(i + old_string@.len())
            }) by {
                law_edit_replaces_leftmost_occurrence(content@, old_string@, new_string@, i);
            }
        }
        let c = chars_of(content);
        let o = chars_of(old_string);
        let n = chars_of(new_string);
        let out = if replace_all {
            replace_all_chars(&c, &o, &n)
        } else {
            replace_first_chars(&c, &o, &n)
        };
        string_of(out.as_slice())
    }

    /// What a finished edit answers, whether or not the text was found.
    pub fn done_message(&self) -> (r: String)
        ensures
            r@ == "File edited successfully."@,
    {
        "File edited successfully.".to_owned()
    }
}

} // verus!

verus! {

/// An edit whose text to find does not occur in the file leaves the file as it was, in either
/// mode; the tool still answers that the file was edited.
pub proof fn law_edit_without_match_keeps_content(
    content: Seq<char>,
    old: Seq<char>,
    new: Seq<char>,
    all: bool,
)
    requires
        old.len() > 0,
        forall|i: int| !crate::text::occurs_at(content, old, i),
    ensures
        edited(content, old, new, all) == content,
{
    crate::text::lemma_replace_first_without_match(content, old, new);
    crate::text::lemma_replace_all_without_match(content, old, new);
}

/// Where the text to find is not empty and first occurs at `i`, an edit of one occurrence
/// gives the content before `i`, the new text, and the content after that occurrence; an edit
/// of every occurrence gives the content before `i`, the new text, and the content after that
/// occurrence edited in the same way, so that occurrences are replaced from the left and never
/// overlap.
pub proof fn law_edit_replaces_leftmost_occurrence(
    content: Seq<char>,
    old: Seq<char>,
    new: Seq<char>,
    i: int,
)
    requires
        old.len() > 0,
        occurs_at(content, old, i),
        forall|j: int| 0 <= j < i ==> !#[trigger] occurs_at(content, old, j),
    ensures
        edited(content, old, new, false) == content.take(i) + new + content.skip(i + old.len()),
        edited(content, old, new, true) == content.take(i) + new + edited(
            content.skip(i + old.len()),
            old,
            new,
            true,
        ),
{
    crate::text::lemma_replace_first_at_leftmost(content, old, new, i);
    crate::text::lemma_replace_all_at_leftmost(content, old, new, i);
}

/// Where the text to find occurs once only, at `i`, an edit in either mode gives the content
/// before it, the new text, and the content after it.
pub proof fn law_edit_replaces_single_occurrence(
    content: Seq<char>,
    old: Seq<char>,
    new: Seq<char>,
    i: int,
    all: bool,
)
    requires
        old.len() > 0,
        occurs_at(content, old, i),
        forall|j: int| j != i ==> !#[trigger] occurs_at(content, old, j),
    ensures
        edited(content, old, new, all) == content.take(i) + new + content.skip(i + old.len()),
{
    law_edit_replaces_leftmost_occurrence(content, old, new, i);
    let rest = content.skip(i + old.len());
    assert forall|k: int| !#[trigger] occurs_at(rest, old, k) by {
        if occurs_at(rest, old, k) {
            assert(rest.subrange(k, k + old.len()) =~= content.subrange(
                i + old.len() + k,
                i + old.len() + k + old.len(),
            ));
            assert(occurs_at(content, old, i + old.len() + k));
        }
    }
    crate::text::lemma_replace_all_without_match(rest, old, new);
}

/// An edit whose text to find is empty puts the new text at the start of the file; in the mode
/// that replaces every occurrence, it puts the new text before every character and at the end.
pub proof fn law_edit_of_empty_text(content: Seq<char>, new: Seq<char>)
    ensures
        edited(content, Seq::empty(), new, false) == new + content,
        content.len() == 0 ==> edited(content, Seq::empty(), new, true) == new,
        content.len() > 0 ==> edited(content, Seq::empty(), new, true) == new + seq![content[0]]
            + edited(content.skip(1), Seq::empty(), new, true),
{
}

/// An edit that replaces a text by itself leaves the file as it was, in either mode.
pub proof fn law_edit_by_same_text_keeps_content(content: Seq<char>, text: Seq<char>, all: bool)
    ensures
        edited(content, text, text, all) == content,
{
    crate::text::lemma_replace_first_by_itself(content, text);
    crate::text::lemma_replace_all_by_itself(content, text);
}

} // verus!
