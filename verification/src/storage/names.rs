//! How a snippet's identifier and the name of its file go together: the file
//! is named by the identifier followed by `.txt`.

use crate::text::{chars_of, string_of};
use vstd::prelude::*;

verus! {

/// The ending of every snippet file's name.
pub open spec fn extension() -> Seq<char> {
    seq!['.', 't', 'x', 't']
}

/// The name of the file that holds the snippet `id`.
pub open spec fn file_name_of(id: Seq<char>) -> Seq<char> {
    id + extension()
}

/// `name` is the name of a snippet file: it ends in the extension and has at
/// least one character before it.
pub open spec fn is_snippet_file_name(name: Seq<char>) -> bool {
    name.len() > extension().len() && name.skip(name.len() - extension().len()) == extension()
}

/// The identifier of the snippet that a file named `name` holds.
pub open spec fn id_of_file_name(name: Seq<char>) -> Seq<char> {
    name.take(name.len() - extension().len())
}

/// `c` is one of `0` to `9` or `a` to `f`.
pub open spec fn is_lower_hex(c: char) -> bool {
    ('0' <= c && c <= '9') || ('a' <= c && c <= 'f')
}

/// `id` has the shape of a freshly drawn identifier: thirty-two lowercase
/// hexadecimal digits in groups of 8, 4, 4, 4 and 12, with a hyphen between
/// neighbouring groups.
pub open spec fn is_fresh_id(id: Seq<char>) -> bool {
    &&& id.len() == 36
    &&& forall|i: int|
        0 <= i < 36 ==> if i == 8 || i == 13 || i == 18 || i == 23 {
            #[trigger] id[i] == '-'
        } else {
            is_lower_hex(id[i])
        }
}

/// The file named after an identifier is a snippet file exactly when the
/// identifier is not empty, and it then leads back to that identifier.
pub proof fn lemma_file_name_leads_back(id: Seq<char>)
    ensures
        is_snippet_file_name(file_name_of(id)) <==> id.len() > 0,
        id_of_file_name(file_name_of(id)) == id,
{
    let name = file_name_of(id);
    assert(name.skip(name.len() - extension().len()) =~= extension());
}

/// A snippet file is named after the identifier that its name gives.
pub proof fn lemma_id_leads_back(name: Seq<char>)
    requires
        is_snippet_file_name(name),
    ensures
        file_name_of(id_of_file_name(name)) == name,
        id_of_file_name(name).len() > 0,
{
}

/// Snippets with different identifiers live in files with different names.
pub proof fn lemma_file_names_differ(a: Seq<char>, b: Seq<char>)
    requires
        a != b,
    ensures
        file_name_of(a) != file_name_of(b),
{
    lemma_file_name_leads_back(a);
    lemma_file_name_leads_back(b);
}

/// A name without a dot among its last four characters, such as that of a
/// temporary file written before a rename, is not a snippet file's name.
pub proof fn lemma_name_without_dot_is_no_snippet(name: Seq<char>)
    requires
        forall|i: int| name.len() - 4 <= i < name.len() && 0 <= i ==> name[i] != '.',
    ensures
        !is_snippet_file_name(name),
{
}

/// A freshly drawn identifier names a snippet file.
pub proof fn lemma_fresh_id_names_a_file(id: Seq<char>)
    requires
        is_fresh_id(id),
    ensures
        is_snippet_file_name(file_name_of(id)),
        id_of_file_name(file_name_of(id)) == id,
{
    lemma_file_name_leads_back(id);
}

/// The name of the file that holds the snippet `id`.
pub fn file_name_for(id: &str) -> (name: String)
    ensures
        name@ == file_name_of(id@),
{
    let mut name = id.to_owned();
    name.push('.');
    name.push('t');
    name.push('x');
    name.push('t');
    name
}

/// The identifier of the snippet kept in the file named `file_name`, or
/// `None` if that is not the name of a snippet file.
pub fn snippet_id(file_name: &str) -> (id: Option<String>)
    ensures
        id is Some <==> is_snippet_file_name(file_name@),
        id matches Some(text) ==> text@ == id_of_file_name(file_name@),
{
    let mut chars = chars_of(file_name);
    let len: usize = chars.len();
    if len > 4 && chars[len - 4] == '.' && chars[len - 3] == 't' && chars[len - 2] == 'x'
        && chars[len - 1] == 't' {
        assert(file_name@.skip(len - 4) =~= extension());
        chars.truncate(len - 4);
        let text = string_of(&chars);
        Some(text)
    } else {
        None
    }
}

/// `uuid::Uuid::new_v4` draws a random version 4 identifier from the
/// operating system's random source, and writing it with `to_string` gives its
/// hyphenated lowercase form. The contract states that form and leaves open
/// which identifier was drawn. The call panics if the random source fails.
#[verifier::external_body]
pub(crate) fn fresh_id() -> (id: String)
    ensures
        is_fresh_id(id@),
{
    uuid::Uuid::new_v4().to_string()
}

} // verus!
