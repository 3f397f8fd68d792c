//! File paths held as text, and appending a file name to a folder path.

use vstd::prelude::*;
use crate::text::has_prefix;

verus! {

/// A file name that `Path::join` appends as a relative part: without
/// separators or a drive prefix.
pub open spec fn is_plain_file_name(name: Seq<char>) -> bool {
    forall|i: int|
        0 <= i < name.len() ==> #[trigger] name[i] != '/' && name[i] != '\\' && name[i] != ':'
}

/// `\\?\`, which starts a verbatim path on Windows.
pub open spec fn verbatim_prefix() -> Seq<char> {
    seq!['\\', '\\', '?', '\\']
}

/// `base` does not end in a separator or a drive colon, so a name pushed
/// onto it needs a separator.
pub open spec fn needs_separator(base: Seq<char>) -> bool {
    base.len() > 0 && base.last() != '/' && base.last() != '\\' && base.last() != ':'
}

/// `path` is `name` pushed onto `base`, for a base that is not a verbatim
/// Windows path (which `PathBuf::push` normalises): `base`, then at most one
/// separator, then `name`; where `base` needs a separator it is exactly one,
/// the platform's (`/` on Unix, `\` on Windows).
pub open spec fn is_joined(path: Seq<char>, base: Seq<char>, name: Seq<char>) -> bool {
    !has_prefix(base, verbatim_prefix()) ==> exists|sep: Seq<char>|
        path == base + sep + name && sep.len() <= 1 && (needs_separator(base) ==> (sep
            == seq!['/'] || sep == seq!['\\']))
}

/// `Path::new(base).join(name)`, as text. A relative `name` extends `base`:
/// the documentation of `PathBuf::push` shows `/tmp` joined with `file.bk`
/// as `/tmp/file.bk`, the separator being `std::path::MAIN_SEPARATOR`. The
/// contract claims nothing of a verbatim Windows base, whose result the
/// standard library normalises, and leaves open, where the base already ends
/// in a separator or a colon, whether one more is written.
#[verifier::external_body]
pub(crate) fn join_path(base: &str, name: &str) -> (r: String)
    requires
        is_plain_file_name(name@),
    ensures
        is_joined(r@, base@, name@),
{
    std::path::Path::new(base).join(name).to_string_lossy().into_owned()
}

/// Of paths paired with whether each exists, the first that exists.
pub fn first_existing(candidates: &Vec<(String, bool)>) -> (r: Option<String>)
    ensures
        r is None <==> forall|i: int| 0 <= i < candidates@.len() ==> !(#[trigger] candidates@[i]).1,
        r matches Some(p) ==> exists|i: int|
            0 <= i < candidates@.len() && (#[trigger] candidates@[i]).1 && p@ == candidates@[i].0@
                && forall|j: int| 0 <= j < i ==> !(#[trigger] candidates@[j]).1,
{
    let mut i: usize = 0;
    while i < candidates.len()
        invariant
            i <= candidates.len(),
            forall|j: int| 0 <= j < i ==> !(#[trigger] candidates@[j]).1,
        decreases candidates.len() - i,
    {
        if candidates[i].1 {
            return Some(candidates[i].0.clone());
        }
        i = i + 1;
    }
    None
}

} // verus!
