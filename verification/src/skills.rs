//! Skills: directories holding a `SKILL.md` whose front matter names and describes them.

use vstd::prelude::*;

use crate::text::{before_first, before_first_chars, chars_of, starts_with, starts_with_chars, string_of, trim_chars, trim_spec};

verus! {

/// A skill found on disk.
pub struct Skill {
    pub name: String,
    pub description: String,
    pub location: String,
}

/// The line that opens and closes the front matter.
pub open spec fn fence() -> Seq<char> {
    seq!['-', '-', '-']
}

/// The front matter of a `SKILL.md`: when the file begins with `---`, what stands between it
/// and the next `---` (or the end), without white space around it; `None` otherwise.
pub open spec fn front_matter_spec(content: Seq<char>) -> Option<Seq<char>> {
    if starts_with(content, fence()) {
        Some(trim_spec(before_first(content.skip(3), fence())))
    } else {
        None
    }
}

/// The front matter of a `SKILL.md`.
pub fn front_matter(content: &str) -> (r: Option<String>)
    ensures
        r matches Some(s) ==> front_matter_spec(content@) == Some(s@),
        r is None ==> front_matter_spec(content@) is None,
{
    let c = chars_of(content);
    let mut f: Vec<char> = Vec::new();
    f.push('-');
    f.push('-');
    f.push('-');
    assert(f@ =~= fence());
    if !starts_with_chars(&c, &f) {
        return None;
    }
    let head = before_first_chars(&c, 3, &f);
    let trimmed = trim_chars(&head);
    Some(string_of(trimmed.as_slice()))
}

} // verus!
