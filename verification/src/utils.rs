//! Paths as text.

use vstd::prelude::*;

verus! {

/// What `Path::join` gives for a base path and a path to adjoin, both as text:
/// the platform's rule for adjoining one path to another.
pub uninterp spec fn joined_path(base: Seq<char>, name: Seq<char>) -> Seq<char>;

/// `Path::join` on text: `name` adjoined to `base` by the platform's rule. Both
/// are valid Unicode, so the joined path is too, and it comes back as text.
#[verifier::external_body]
pub(crate) fn join_path(base: &str, name: &str) -> (path: String)
    ensures
        path@ == joined_path(base@, name@),
{
    std::path::Path::new(base).join(name).to_string_lossy().into_owned()
}

/// The path that `path` and an optional file name stand for.
pub open spec fn real_path(path: Seq<char>, file_name: Option<Seq<char>>) -> Seq<char> {
    match file_name {
        Some(name) => joined_path(path, name),
        None => path,
    }
}

/// The path of a file: `path` itself, or `file_name` adjoined to `path` where
/// one is given. Text is always a valid path, so this never fails.
pub fn get_real_path(path: String, file_name: Option<String>) -> (resolved: Result<String, String>)
    ensures
        resolved is Ok,
        resolved->Ok_0@ == real_path(
            path@,
            match file_name {
                Some(name) => Some(name@),
                None => None,
            },
        ),
{
    match file_name {
        Some(name) => Ok(join_path(path.as_str(), name.as_str())),
        None => Ok(path),
    }
}

} // verus!
