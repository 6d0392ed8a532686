//! Calls into std and outside crates whose behaviour the rest of the
//! library relies on through the contracts written here.

use vstd::prelude::*;

verus! {

/// What `Path::new(p).parent()` gives for the path text `p`, as text.
pub uninterp spec fn path_parent(p: Seq<char>) -> Option<Seq<char>>;

/// What `Path::new(p).file_name()` gives for the path text `p`, as text.
pub uninterp spec fn path_file_name(p: Seq<char>) -> Option<Seq<char>>;

/// What `str::to_lowercase` gives for `s`.
pub uninterp spec fn lowercase(s: Seq<char>) -> Seq<char>;

/// What `bytesize::ByteSize(bytes)` displays, for example `"1.5 MB"`.
pub uninterp spec fn byte_size_text(bytes: u64) -> Seq<char>;

/// The parent directory of a path: calls `std::path::Path::parent`.
///
/// The contract names the result `path_parent(p@)`; a parent of a UTF-8
/// path is a prefix of it, so the conversion back to text loses nothing.
#[verifier::external_body]
pub(crate) fn parent_of(p: &str) -> (r: Option<String>)
    ensures
        match r {
            Some(s) => path_parent(p@) == Some(s@),
            None => path_parent(p@) is None,
        },
{
    std::path::Path::new(p).parent().map(|q| q.to_string_lossy().into_owned())
}

/// The final component of a path: calls `std::path::Path::file_name`.
///
/// The contract names the result `path_file_name(p@)`.
#[verifier::external_body]
pub(crate) fn file_name_of(p: &str) -> (r: Option<String>)
    ensures
        match r {
            Some(s) => path_file_name(p@) == Some(s@),
            None => path_file_name(p@) is None,
        },
{
    std::path::Path::new(p).file_name().map(|q| q.to_string_lossy().into_owned())
}

/// Lower-case text: calls `str::to_lowercase`; the contract names the
/// result `lowercase(s@)`.
#[verifier::external_body]
pub(crate) fn to_lower(s: &str) -> (r: String)
    ensures
        r@ == lowercase(s@),
{
    s.to_lowercase()
}

/// A human-readable byte count: calls `Display` of `bytesize::ByteSize`
/// (decimal units, one decimal place).
///
/// The contract names the result `byte_size_text(bytes)`, and states what
/// `bytesize::to_string` plainly does below one kilobyte: the number
/// followed by `" B"`.
#[verifier::external_body]
pub(crate) fn byte_size(bytes: u64) -> (r: String)
    ensures
        r@ == byte_size_text(bytes),
        bytes < 1000 ==> r@ == crate::text::decimal(bytes as nat) + " B"@,
{
    bytesize::ByteSize(bytes).to_string()
}

/// The user's home directory: calls `dirs::home_dir`.
///
/// Nothing is stated of the result: it depends on the environment.
#[verifier::external_body]
pub(crate) fn home_dir() -> (r: Option<String>) {
    dirs::home_dir().map(|p| p.to_string_lossy().into_owned())
}

/// Appends a character: calls `String::push`.
#[verifier::external_body]
pub(crate) fn push_char(s: &mut String, c: char)
    ensures
        final(s)@ == old(s)@.push(c),
{
    s.push(c);
}

/// Removes the last character, if any: calls `String::pop`.
#[verifier::external_body]
pub(crate) fn pop_char(s: &mut String)
    ensures
        final(s)@ == if old(s)@.len() > 0 {
            old(s)@.drop_last()
        } else {
            old(s)@
        },
{
    s.pop();
}

} // verus!
