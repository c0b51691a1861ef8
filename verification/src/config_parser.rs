//! Task identifiers and the task configurations they name.

pub mod digest;
pub mod registry;
pub mod types;
pub mod validator;

pub use registry::{all_tasks, TaskRegistry};
use vstd::prelude::*;

verus! {

/// The ASCII lower-case form of one character: `'A'..='Z'` move to
/// `'a'..='z'`, every other character stays.
pub open spec fn lower_char(c: char) -> char {
    if 'A' <= c && c <= 'Z' {
        ((c as u8) + 32) as char
    } else {
        c
    }
}

/// The ASCII lower-case form of a text, character by character.
pub open spec fn ascii_lowercase(s: Seq<char>) -> Seq<char> {
    s.map_values(|c: char| lower_char(c))
}

/// No character of `s` is an ASCII upper-case letter.
pub open spec fn is_normalized(s: Seq<char>) -> bool {
    forall|i: int| 0 <= i < s.len() ==> !('A' <= #[trigger] s[i] && s[i] <= 'Z')
}

/// Lower-casing leaves a normalized text as it is, and always yields one.
pub proof fn lemma_ascii_lowercase_normalizes(s: Seq<char>)
    ensures
        is_normalized(ascii_lowercase(s)),
        ascii_lowercase(ascii_lowercase(s)) == ascii_lowercase(s),
        is_normalized(s) ==> ascii_lowercase(s) == s,
        ascii_lowercase(s).len() == s.len(),
{
    let l = ascii_lowercase(s);
    assert forall|i: int| 0 <= i < l.len() implies !('A' <= #[trigger] l[i] && l[i] <= 'Z') by {
        assert(l[i] == lower_char(s[i]));
    }
    assert(ascii_lowercase(l) =~= l);
    if is_normalized(s) {
        assert(l =~= s);
    }
}

/// `str::to_ascii_lowercase` of std: a copy of the text in which the ASCII
/// letters `A` to `Z` are replaced by `a` to `z` and nothing else changes.
#[verifier::external_body]
fn to_ascii_lowercase(s: &str) -> (r: String)
    ensures
        r@ == ascii_lowercase(s@),
{
    s.to_ascii_lowercase()
}

/// The key of a mirror task. Two spellings that differ only in the case of
/// ASCII letters name the same task: the identifier keeps the lower-case
/// form and is compared by it.
#[derive(Debug, Hash)]
pub struct TaskId {
    id: String,
}

impl View for TaskId {
    type V = Seq<char>;

    closed spec fn view(&self) -> Seq<char> {
        self.id@
    }
}

impl TaskId {
    #[verifier::type_invariant]
    spec fn normalized(&self) -> bool {
        is_normalized(self.id@)
    }

    /// The identifier named by `id`, whatever its case.
    pub fn new(id: &str) -> (t: TaskId)
        ensures
            t@ == ascii_lowercase(id@),
    {
        let lowered = to_ascii_lowercase(id);
        proof {
            lemma_ascii_lowercase_normalizes(id@);
        }
        TaskId { id: lowered }
    }

    /// The normalized text of the identifier.
    pub fn as_str(&self) -> (s: &str)
        ensures
            s@ == self@,
            is_normalized(s@),
    {
        proof {
            use_type_invariant(self);
        }
        self.id.as_str()
    }
}

impl Clone for TaskId {
    fn clone(&self) -> (r: Self)
        ensures
            r == *self,
    {
        proof {
            use_type_invariant(self);
        }
        TaskId { id: self.id.clone() }
    }
}

impl PartialEq for TaskId {
    fn eq(&self, other: &TaskId) -> (r: bool) {
        self.id == other.id
    }
}

impl Eq for TaskId {}

impl vstd::std_specs::cmp::PartialEqSpecImpl for TaskId {
    open spec fn obeys_eq_spec() -> bool {
        true
    }

    open spec fn eq_spec(&self, other: &TaskId) -> bool {
        self@ == other@
    }
}

} // verus!
