use vstd::prelude::*;
use vstd::string::*;

verus! {

/// The final component of `path` as `std::path::Path::file_name` gives it on
/// the platform the crate is built for, and the empty text where it gives
/// none.
pub uninterp spec fn path_file_name(path: Seq<char>) -> Seq<char>;

/// The parent of `path` as `std::path::Path::parent` gives it on the platform
/// the crate is built for.
pub uninterp spec fn path_parent(path: Seq<char>) -> Option<Seq<char>>;

/// `name` below `base`, where `/` separates the components of a path: `name`
/// itself where it starts at the root, and otherwise `base`, a separator
/// unless `base` is empty or ends in one, and `name`.
pub open spec fn path_join(base: Seq<char>, name: Seq<char>) -> Seq<char> {
    if name.len() > 0 && name[0] == '/' {
        name
    } else if base.len() == 0 || base.last() == '/' {
        base + name
    } else {
        base + seq!['/'] + name
    }
}

/// Calls `std::path::Path::file_name`. The contract claims only that the
/// text returned is determined by the characters of `path`.
#[verifier::external_body]
pub(crate) fn file_name_of(path: &str) -> (name: String)
    ensures
        name@ == path_file_name(path@),
{
    let name = std::path::Path::new(path).file_name();
    name.unwrap_or_default().to_str().unwrap_or_default().to_string()
}

/// Calls `std::path::Path::parent`. The contract claims only that whether
/// there is a parent, and its text, are determined by the characters of
/// `path`.
#[verifier::external_body]
pub(crate) fn parent_of(path: &str) -> (parent: Option<String>)
    ensures
        match parent {
            Some(p) => path_parent(path@) == Some(p@),
            None => path_parent(path@) is None,
        },
{
    match std::path::Path::new(path).parent() {
        Some(p) => Some(p.to_str().unwrap_or_default().to_string()),
        None => None,
    }
}

/// The path of `name` below `base`.
pub fn join_path(base: &str, name: &str) -> (joined: String)
    ensures
        joined@ == path_join(base@, name@),
{
    let name_len = name.unicode_len();
    if name_len > 0 && name.get_char(0) == '/' {
        return name.to_owned();
    }
    let base_len = base.unicode_len();
    let mut joined = base.to_owned();
    if base_len > 0 && base.get_char(base_len - 1) != '/' {
        proof {
            reveal_strlit("/");
            assert("/"@ =~= seq!['/']);
        }
        joined.append("/");
    }
    joined.append(name);
    joined
}

} // verus!
