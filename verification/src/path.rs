//! Paths in a Unix file system, as the bytes they consist of.

use vstd::prelude::*;

verus! {

/// The byte that separates the components of a path: `/`.
pub const SEPARATOR: u8 = 47;

/// The path starts at the root of the file system.
pub open spec fn is_absolute(path: Seq<u8>) -> bool {
    path.len() > 0 && path[0] == SEPARATOR
}

/// `name` seen from the directory `dir`: an absolute `name` stands for itself, and a separator is
/// put between the two unless `dir` is empty or brings its own.
pub open spec fn joined(dir: Seq<u8>, name: Seq<u8>) -> Seq<u8> {
    if is_absolute(name) {
        name
    } else if dir.len() > 0 && dir.last() != SEPARATOR {
        dir.push(SEPARATOR) + name
    } else {
        dir + name
    }
}

/// A path. Its view is its bytes.
#[derive(Debug, PartialEq, Eq)]
pub struct UnixPath {
    pub bytes: Vec<u8>,
}

impl View for UnixPath {
    type V = Seq<u8>;

    open spec fn view(&self) -> Seq<u8> {
        self.bytes@
    }
}

/// The bytes of an optional path.
pub open spec fn bytes_of(path: Option<UnixPath>) -> Option<Seq<u8>> {
    match path {
        Some(path) => Some(path@),
        None => None,
    }
}

impl Clone for UnixPath {
    fn clone(&self) -> (copy: Self)
        ensures
            copy@ == self@,
    {
        UnixPath { bytes: self.bytes.clone() }
    }
}

/// A copy of an optional path.
pub fn clone_path(path: &Option<UnixPath>) -> (copy: Option<UnixPath>)
    ensures
        bytes_of(copy) == bytes_of(*path),
{
    match path {
        Some(path) => Some(path.clone()),
        None => None,
    }
}

impl UnixPath {
    /// `name` seen from this directory.
    pub fn join(&self, name: &str) -> (path: UnixPath)
        ensures
            path@ == joined(self@, vstd::utf8::encode_utf8(name@)),
    {
        let name_bytes = name.as_bytes();
        if name_bytes.len() > 0 && name_bytes[0] == SEPARATOR {
            let mut bytes: Vec<u8> = Vec::new();
            bytes.extend_from_slice(name_bytes);
            return UnixPath { bytes };
        }
        let mut bytes = self.bytes.clone();
        if bytes.len() > 0 && bytes[bytes.len() - 1] != SEPARATOR {
            bytes.push(SEPARATOR);
        }
        bytes.extend_from_slice(name_bytes);
        UnixPath { bytes }
    }
}

/// A relative name joined to a directory keeps the directory in front and the name at the end.
pub proof fn law_join_keeps_both(dir: Seq<u8>, name: Seq<u8>)
    requires
        !is_absolute(name),
    ensures
        dir.is_prefix_of(joined(dir, name)),
        name.is_suffix_of(joined(dir, name)),
{
    let path = joined(dir, name);
    assert(path.subrange(0, dir.len() as int) =~= dir);
    assert(path.subrange(path.len() - name.len(), path.len() as int) =~= name);
}

/// Joining puts exactly what is needed between the two: nothing after an empty directory or one
/// that ends in a separator, and one separator otherwise. An absolute name needs no directory.
pub proof fn law_join_puts_one_separator(dir: Seq<u8>, name: Seq<u8>)
    ensures
        name.len() > 0 && name[0] == 47 ==> joined(dir, name) == name,
        !(name.len() > 0 && name[0] == 47) && (dir.len() == 0 || dir[dir.len() - 1] == 47)
            ==> joined(dir, name) == dir + name,
        !(name.len() > 0 && name[0] == 47) && dir.len() > 0 && dir[dir.len() - 1] != 47
            ==> joined(dir, name) == dir + seq![47u8] + name,
{
    assert(dir.push(47u8) =~= dir + seq![47u8]);
}

/// Optional paths are the same exactly if both are missing or both have the same bytes.
pub proof fn law_paths_are_their_bytes(first: Option<UnixPath>, second: Option<UnixPath>)
    ensures
        bytes_of(first) == bytes_of(second) <==> match (first, second) {
            (None, None) => true,
            (Some(a), Some(b)) => a.bytes@ == b.bytes@,
            _ => false,
        },
{
}

} // verus!
