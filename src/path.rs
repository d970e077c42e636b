//! Turning the destination given by the user into the file that is written.
use vstd::prelude::*;

use crate::DEFAULT_IMAGE_NAME;

verus! {

/// What the file system holds at a path when it is resolved.
#[derive(Clone, Copy, Debug, PartialEq, Eq, Structural)]
pub enum PathKind {
    Directory,
    File,
    Missing,
}

/// The file to write, and whether its directory chain must be created first.
#[derive(Debug)]
pub struct Resolution {
    pub target: String,
    pub create_dirs: bool,
}

/// `dir` followed by the relative file name `name`, with one '/' between them
/// unless `dir` is empty or already ends in '/'. The separator is '/', which
/// Windows accepts as well; Windows drive-relative forms such as "C:" are
/// joined the same way.
pub open spec fn join_spec(dir: Seq<char>, name: Seq<char>) -> Seq<char> {
    if dir.len() == 0 {
        name
    } else if dir.last() == '/' {
        dir + name
    } else {
        dir + seq!['/'] + name
    }
}

/// The file written for `path`: inside it under the default name when it is
/// a directory, the path itself otherwise.
pub open spec fn resolved_target(path: Seq<char>, kind: PathKind) -> Seq<char> {
    match kind {
        PathKind::Directory => join_spec(path, DEFAULT_IMAGE_NAME@),
        _ => path,
    }
}

/// A missing path without an extension is meant as a directory, which is created.
pub open spec fn needs_dirs(kind: PathKind, has_extension: bool) -> bool {
    kind == PathKind::Missing && !has_extension
}

/// A path that is a single file name on every platform (no '/', '\\' or ':'),
/// other than "..", with a '.' after its first character.
pub open spec fn plain_name_with_dot(path: Seq<char>) -> bool {
    &&& forall|i: int| 0 <= i < path.len() ==> path[i] != '/' && path[i] != '\\' && path[i] != ':'
    &&& path != seq!['.', '.']
    &&& exists|i: int| 1 <= i < path.len() && path[i] == '.'
}

/// Relies on std::path::Path::extension: a path whose text holds no '.' has no
/// extension, and a plain file name with a '.' after its first character has
/// one.
#[verifier::external_body]
fn path_has_extension(path: &str) -> (r: bool)
    ensures
        r ==> path@.contains('.'),
        plain_name_with_dot(path@) ==> r,
{
    std::path::Path::new(path).extension().is_some()
}

/// Joins the relative file name `name` to the directory `dir`.
pub fn join_file_name(dir: &str, name: &str) -> (r: String)
    ensures
        r@ == join_spec(dir@, name@),
{
    let n = dir.unicode_len();
    let mut r = String::from_str(dir);
    if n > 0 && dir.get_char(n - 1) != '/' {
        proof {
            reveal_strlit("/");
        }
        r.append("/");
    }
    r.append(name);
    r
}

/// Resolves `path`, of kind `kind`, given whether it has a file extension.
pub fn resolve_with_extension(path: &str, kind: PathKind, has_extension: bool) -> (r: Resolution)
    ensures
        r.target@ == resolved_target(path@, kind),
        r.create_dirs == needs_dirs(kind, has_extension),
{
    let target = match kind {
        PathKind::Directory => join_file_name(path, DEFAULT_IMAGE_NAME),
        _ => String::from_str(path),
    };
    Resolution { target, create_dirs: kind == PathKind::Missing && !has_extension }
}

/// Resolves `path`, of kind `kind`: an existing directory gets the default
/// file name appended, an existing file is kept, and a missing path is kept
/// and created as a directory when it has no extension.
pub fn resolve_destination(path: &str, kind: PathKind) -> (r: Resolution)
    ensures
        r.target@ == resolved_target(path@, kind),
        r.create_dirs ==> kind == PathKind::Missing,
        kind == PathKind::Missing && !path@.contains('.') ==> r.create_dirs,
        plain_name_with_dot(path@) ==> !r.create_dirs,
{
    let has_extension = path_has_extension(path);
    resolve_with_extension(path, kind, has_extension)
}

} // verus!
