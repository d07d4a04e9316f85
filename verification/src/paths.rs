//! File-system paths of the console's state, held as UTF-8 strings.
use vstd::prelude::*;

verus! {

broadcast use vstd::string::group_string_axioms;

/// `Path::join` on Unix: an absolute segment replaces the base; otherwise a
/// `/` is put between a non-empty base that does not end in one and the
/// segment.
pub open spec fn path_join(base: Seq<char>, seg: Seq<char>) -> Seq<char> {
    if seg.len() > 0 && seg[0] == '/' {
        seg
    } else if base.len() > 0 && base.last() != '/' {
        base + seq!['/'] + seg
    } else {
        base + seg
    }
}

/// Joins a path segment onto a base path.
pub fn join(base: &str, seg: &str) -> (r: String)
    ensures
        r@ == path_join(base@, seg@),
{
    let sn = seg.unicode_len();
    if sn > 0 && seg.get_char(0) == '/' {
        return seg.to_owned();
    }
    let bn = base.unicode_len();
    let mut out = base.to_owned();
    if bn > 0 && base.get_char(bn - 1) != '/' {
        proof {
            reveal_strlit("/");
        }
        out.append("/");
    }
    out.append(seg);
    out
}

/// The parent directory of a path, as `Path::parent` computes it.
pub uninterp spec fn spec_path_parent(path: Seq<char>) -> Option<Seq<char>>;

/// `std::path::Path::parent` on a UTF-8 path. The contract names the
/// result: the path without its final component, or none for a root or an
/// empty path; the normalisation of separators and `.` components that
/// the standard library applies is left unstated.
#[verifier::external_body]
pub(crate) fn parent(path: &str) -> (r: Option<String>)
    ensures
        match r {
            Some(p) => spec_path_parent(path@) == Some(p@),
            None => spec_path_parent(path@) is None,
        },
{
    std::path::Path::new(path).parent().map(|p| p.to_string_lossy().into_owned())
}

/// The parent of `path`, or `.` when it has none.
pub open spec fn parent_or_dot(path: Seq<char>) -> Seq<char> {
    match spec_path_parent(path) {
        Some(p) => p,
        None => "."@,
    }
}

/// A file next to `path`: `name` in the parent directory of `path`.
pub fn sibling(path: &str, name: &str) -> (r: String)
    ensures
        r@ == path_join(parent_or_dot(path@), name@),
{
    match parent(path) {
        Some(p) => join(p.as_str(), name),
        None => join(".", name),
    }
}

} // verus!
