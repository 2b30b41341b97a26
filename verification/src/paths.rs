//! Directory and file paths as text, with `/` between their components.

use vstd::prelude::*;
use vstd::string::*;

verus! {

/// A path that starts at the root of the file system.
pub open spec fn is_absolute(path: Seq<char>) -> bool {
    path.len() > 0 && path[0] == '/'
}

/// The path reached by following `part` from `base`.
///
/// An absolute `part` stands alone. Otherwise `part` is appended to `base`,
/// after a `/` unless `base` is empty or already ends in one.
pub open spec fn joined(base: Seq<char>, part: Seq<char>) -> Seq<char> {
    if is_absolute(part) {
        part
    } else if base.len() == 0 || base.last() == '/' {
        base + part
    } else {
        base + seq!['/'] + part
    }
}

/// The path reached by following each of `parts` in turn from `base`.
pub open spec fn joined_all(base: Seq<char>, parts: Seq<Seq<char>>) -> Seq<char>
    decreases parts.len(),
{
    if parts.len() == 0 {
        base
    } else {
        joined(joined_all(base, parts.drop_last()), parts.last())
    }
}

/// Joins `part` onto `base`.
pub fn join(base: &str, part: &str) -> (path: String)
    ensures
        path@ == joined(base@, part@),
{
    let part_len = part.unicode_len();
    if part_len > 0 && part.get_char(0) == '/' {
        return part.to_owned();
    }
    let base_len = base.unicode_len();
    let mut path = base.to_owned();
    if base_len > 0 && base.get_char(base_len - 1) != '/' {
        proof {
            reveal_strlit("/");
            assert("/"@ == seq!['/']);
        }
        path.append("/");
    }
    path.append(part);
    path
}

} // verus!
