//! The file in which a note is composed: a name that no other invocation
//! uses.

use vstd::prelude::*;
use vstd::string::*;

verus! {

/// The number of characters of a token.
pub open spec fn token_len() -> nat {
    36
}

/// A digit, or a lower-case letter from `a` to `f`.
pub open spec fn is_lower_hex(c: char) -> bool {
    ('0' <= c && c <= '9') || ('a' <= c && c <= 'f')
}

/// Whether a hyphen stands at position `at` of a token.
pub open spec fn is_hyphen_place(at: int) -> bool {
    at == 8 || at == 13 || at == 18 || at == 23
}

/// A token: 36 characters, hyphens at the four places, lower-case
/// hexadecimal digits at the others.
pub open spec fn is_token(token: Seq<char>) -> bool {
    &&& token.len() == token_len()
    &&& forall|i: int|
        0 <= i < token.len() ==> if is_hyphen_place(i) {
            #[trigger] token[i] == '-'
        } else {
            is_lower_hex(token[i])
        }
}

/// The path of the file for the token `token`.
pub open spec fn edit_file_path(token: Seq<char>) -> Seq<char> {
    "/tmp/note_"@ + token + ".bpp"@
}

/// `path` is the path of the file for some token.
pub open spec fn is_edit_file_path(path: Seq<char>) -> bool {
    exists|token: Seq<char>| is_token(token) && path == #[trigger] edit_file_path(token)
}

/// A token holds no path separator, so its file stands directly in the
/// directory of the path.
pub proof fn lemma_token_has_no_separator(token: Seq<char>)
    requires
        is_token(token),
    ensures
        !token.contains('/'),
{
    if token.contains('/') {
        let i = choose|i: int| 0 <= i < token.len() && token[i] == '/';
        assert(token[i] == '-' || is_lower_hex(token[i]));
    }
}

/// A fresh random token: `uuid::Uuid::new_v4`, written out by the `Display`
/// of `Uuid`. Trusted: the text is the hyphenated lower-case form that
/// `Display` writes, 36 characters with hyphens after the 8th, 12th, 16th
/// and 20th hexadecimal digit. Nothing is claimed of which digits they are.
#[verifier::external_body]
fn fresh_token() -> (token: String)
    ensures
        is_token(token@),
{
    uuid::Uuid::new_v4().to_string()
}

/// The path of the file for the token `token`.
pub fn edit_file_for(token: &str) -> (path: String)
    ensures
        path@ == edit_file_path(token@),
{
    String::from_str("/tmp/note_").concat(token).concat(".bpp")
}

/// The path of a file for a fresh token.
pub fn edit_file() -> (path: String)
    ensures
        is_edit_file_path(path@),
{
    let token: String = fresh_token();
    edit_file_for(token.as_str())
}

} // verus!
