//! Storage-facing logic that needs no file system: error values and the
//! path rules of the note store. A note's file name is its title with
//! path separators made harmless, plus a fixed extension, under the
//! store's root directory.

use vstd::prelude::*;
use vstd::string::StringExecFns;

verus! {

/// What can go wrong in the note store.
#[derive(Clone, Debug, PartialEq, Eq)]
pub enum StorageError {
    /// An input/output failure, with its description.
    Io(String),
    /// The note directory could not be created at a path.
    DirectoryCreation(String),
    /// No note with the given title exists.
    NoteNotFound(String),
    /// A note's metadata could not be parsed.
    MetadataParse(String),
}

impl StorageError {
    /// The message of an error, one line of text.
    pub open spec fn spec_message(self) -> Seq<char> {
        match self {
            StorageError::Io(s) => "IO error: "@ + s@,
            StorageError::DirectoryCreation(p) => "Failed to create note directory at "@ + p@,
            StorageError::NoteNotFound(t) => "Note with title "@ + t@ + " not found"@,
            StorageError::MetadataParse(s) => "Failed to parse note metadata: "@ + s@,
        }
    }

    pub fn message(&self) -> (m: String)
        ensures
            m@ == self.spec_message(),
    {
        match self {
            StorageError::Io(s) => "IO error: ".to_owned().concat(s.as_str()),
            StorageError::DirectoryCreation(p) => "Failed to create note directory at "
                .to_owned()
                .concat(p.as_str()),
            StorageError::NoteNotFound(t) => "Note with title ".to_owned().concat(
                t.as_str(),
            ).concat(" not found"),
            StorageError::MetadataParse(s) => "Failed to parse note metadata: ".to_owned().concat(
                s.as_str(),
            ),
        }
    }
}

/// A title made safe for use as a file name: every path separator
/// becomes an underscore.
pub open spec fn spec_sanitized(title: Seq<char>) -> Seq<char> {
    Seq::new(
        title.len(),
        |i: int|
            if title[i] == '/' || title[i] == '\\' {
                '_'
            } else {
                title[i]
            },
    )
}

/// A path joined under a root directory.
pub open spec fn spec_joined(root: Seq<char>, name: Seq<char>) -> Seq<char> {
    if root.len() == 0 {
        name
    } else if root.last() == '/' {
        root + name
    } else {
        root + "/"@ + name
    }
}

fn sanitize_title(title: &str) -> (r: String)
    ensures
        r@ == spec_sanitized(title@),
{
    let n = title.unicode_len();
    let mut out = String::new();
    let mut i: usize = 0;
    while i < n
        invariant
            i <= n,
            n == title@.len(),
            out@ == spec_sanitized(title@).subrange(0, i as int),
        decreases n - i,
    {
        let c = title.get_char(i);
        if c == '/' || c == '\\' {
            out.append("_");
            proof {
                reveal_strlit("_");
            }
        } else {
            out.append(title.substring_char(i, i + 1));
        }
        proof {
            assert(out@ =~= spec_sanitized(title@).subrange(0, i + 1));
        }
        i = i + 1;
    }
    proof {
        assert(spec_sanitized(title@).subrange(0, n as int) =~= spec_sanitized(title@));
    }
    out
}

fn join_under(root: &str, name: String) -> (r: String)
    ensures
        r@ == spec_joined(root@, name@),
{
    let n = root.unicode_len();
    if n == 0 {
        name
    } else if root.get_char(n - 1) == '/' {
        root.to_owned().concat(name.as_str())
    } else {
        root.to_owned().concat("/").concat(name.as_str())
    }
}

/// The note store rooted at a directory of the file system. This type
/// holds the store's pure path rules; the reading and writing around
/// them lives with the caller.
pub struct FSStorage {
    pub root_dir: String,
}

impl FSStorage {
    /// A store with a custom root directory.
    pub fn with_root_dir(root_dir: &str) -> (s: FSStorage)
        ensures
            s.root_dir@ == root_dir@,
    {
        FSStorage { root_dir: root_dir.to_owned() }
    }

    /// The path of a note's content file: the sanitized title with the
    /// note extension, under the root.
    pub fn get_note_path(&self, title: &str) -> (p: String)
        ensures
            p@ == spec_joined(self.root_dir@, spec_sanitized(title@) + ".md"@),
    {
        join_under(self.root_dir.as_str(), sanitize_title(title).concat(".md"))
    }

    /// The path of a note's metadata file.
    pub fn get_metadata_path(&self, title: &str) -> (p: String)
        ensures
            p@ == spec_joined(self.root_dir@, spec_sanitized(title@) + ".meta.json"@),
    {
        join_under(self.root_dir.as_str(), sanitize_title(title).concat(".meta.json"))
    }
}

} // verus!
