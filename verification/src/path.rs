//! File paths that are known to be text.

use camino::Utf8PathBuf;
use std::str::FromStr;
use vstd::prelude::*;

verus! {

/// `camino`'s owned path, which always holds valid UTF-8. The verifier does not look inside
/// it: what it holds is known only through [`path_chars`].
#[verifier::external_type_specification]
#[verifier::external_body]
pub struct ExUtf8PathBuf(Utf8PathBuf);

/// The characters that a path is made of.
pub uninterp spec fn path_chars(path: Utf8PathBuf) -> Seq<char>;

/// Calls `camino`'s `FromStr::from_str` for `Utf8PathBuf`, which copies the text into a new
/// path buffer as it stands and never fails. Taken on trust: the path is made of the
/// characters of `text`.
#[verifier::external_body]
pub(crate) fn path_from_str(text: &str) -> (path: Utf8PathBuf)
    ensures
        path_chars(path) == text@,
{
    match Utf8PathBuf::from_str(text) {
        Ok(path) => path,
        Err(never) => match never {},
    }
}

/// `camino` derives `Clone` for `Utf8PathBuf`, which clones the path buffer inside. Taken on
/// trust: the copy is made of the characters of the path.
pub assume_specification[ <Utf8PathBuf as Clone>::clone ](path: &Utf8PathBuf) -> (copy:
    Utf8PathBuf)
    ensures
        path_chars(copy) == path_chars(*path),
;

} // verus!
