//! Paths as text. The separator is `/`.

use vstd::prelude::*;
use vstd::string::*;

verus! {

/// `dir` ending in exactly one more separator, unless it already ends in one:
/// what every path below `dir` starts with.
pub open spec fn spec_dir_prefix(dir: Seq<char>) -> Seq<char> {
    if dir.len() > 0 && dir.last() == '/' {
        dir
    } else {
        dir + seq!['/']
    }
}

/// The path of the entry `name` of the directory `dir`. An empty `dir` stands
/// for the current directory and gives `name` alone.
pub open spec fn spec_join(dir: Seq<char>, name: Seq<char>) -> Seq<char> {
    if dir.len() == 0 {
        name
    } else {
        spec_dir_prefix(dir) + name
    }
}

/// `path` lies strictly below `dir`: it starts with `dir` and a separator and
/// goes on after them. Both are taken as canonical paths, so that the text
/// decides.
pub open spec fn spec_strictly_within(dir: Seq<char>, path: Seq<char>) -> bool {
    let base = spec_dir_prefix(dir);
    path.len() > base.len() && path.subrange(0, base.len() as int) == base
}

/// An entry joined to a directory lies, as text, strictly below it.
pub proof fn lemma_join_within(dir: Seq<char>, name: Seq<char>)
    requires
        dir.len() > 0,
        name.len() > 0,
    ensures
        spec_strictly_within(dir, spec_join(dir, name)),
{
    let base = spec_dir_prefix(dir);
    assert(spec_join(dir, name).subrange(0, base.len() as int) =~= base);
}

/// Joins the entry `name` to the directory `dir`, with one `/` between them
/// unless `dir` is empty or brings its own.
pub fn join_path(dir: &str, name: &str) -> (path: String)
    ensures
        path@ == spec_join(dir@, name@),
{
    let n: usize = dir.unicode_len();
    let mut path = dir.to_owned();
    if n > 0 && dir.get_char(n - 1) != '/' {
        proof {
            reveal_strlit("/");
        }
        path.append("/");
        assert(path@ =~= dir@ + seq!['/']);
    }
    path.append(name);
    path
}

/// Whether the canonical `path` lies strictly below the canonical `dir`.
pub fn is_strictly_within(dir: &str, path: &str) -> (inside: bool)
    ensures
        inside == spec_strictly_within(dir@, path@),
{
    let d: usize = dir.unicode_len();
    let mut base = dir.to_owned();
    if d == 0 || dir.get_char(d - 1) != '/' {
        proof {
            reveal_strlit("/");
        }
        base.append("/");
        assert(base@ =~= dir@ + seq!['/']);
    }
    let b: usize = base.as_str().unicode_len();
    if path.unicode_len() <= b {
        return false;
    }
    let head = path.substring_char(0, b).to_owned();
    head == base
}

} // verus!
