//! Files attached to records.
use vstd::prelude::*;
use crate::ids::{new_id, uuid_version};

verus! {

/// The stem of a path as `std::path::Path::file_stem` gives it: the file
/// name without its extension, or nothing when the path has no file name.
pub uninterp spec fn path_file_stem(path: Seq<char>) -> Option<Seq<char>>;

/// Trusted: calls `std::path::Path::file_stem` on the path and turns the
/// stem into a `String`. The path comes from a `&str`, so the stem is valid
/// UTF-8 and the conversion keeps it as it is; the result is a function of
/// the path alone.
#[verifier::external_body]
fn file_stem_of(path: &str) -> (r: Option<String>)
    ensures
        match r {
            Some(s) => path_file_stem(path@) == Some(s@),
            None => path_file_stem(path@) is None,
        },
{
    match std::path::Path::new(path).file_stem() {
        Some(s) => Some(s.to_string_lossy().into_owned()),
        None => None,
    }
}

/// The name of the program or file at `path` without its extension, when
/// the path has a file name; a host registers itself under it.
pub fn path_stem(path: &str) -> (r: Option<String>)
    ensures
        match r {
            Some(s) => path_file_stem(path@) == Some(s@),
            None => path_file_stem(path@) is None,
        },
{
    file_stem_of(path)
}

/// The file that a loaded record gets from its document form.
pub open spec fn file_from_dto(d: FileDto) -> FileView {
    FileView { id: d.id, path: d.full_file_path@ }
}

/// A file that belongs to a record.
pub struct File {
    id: u128,
    path: String,
}

pub struct FileView {
    pub id: u128,
    pub path: Seq<char>,
}

impl View for File {
    type V = FileView;

    closed spec fn view(&self) -> FileView {
        FileView { id: self.id, path: self.path@ }
    }
}

/// The document form of a file.
pub struct FileDto {
    pub id: u128,
    pub full_file_path: String,
}

impl File {
    /// A file at `path` under a fresh id.
    pub fn new(path: String) -> (r: File)
        ensures
            r@.path == path@,
            uuid_version(r@.id) == 4,
    {
        File { id: new_id(), path }
    }

    pub fn id(&self) -> (r: u128)
        ensures
            r == self@.id,
    {
        self.id
    }

    pub fn path(&self) -> (r: &str)
        ensures
            r@ == self@.path,
    {
        self.path.as_str()
    }

    /// The file name without its extension.
    pub fn file_stem(&self) -> (r: String)
        requires
            path_file_stem(self@.path) is Some,
        ensures
            r@ == path_file_stem(self@.path)->0,
    {
        match file_stem_of(self.path.as_str()) {
            Some(s) => s,
            None => String::new(),
        }
    }

    /// The file name without its extension, when the path has a file name.
    pub fn checked_file_stem(&self) -> (r: Option<String>)
        ensures
            match r {
                Some(s) => path_file_stem(self@.path) == Some(s@),
                None => path_file_stem(self@.path) is None,
            },
    {
        if file_stem_of(self.path.as_str()).is_some() {
            Some(self.file_stem())
        } else {
            None
        }
    }

    pub fn to_dto(&self) -> (r: FileDto)
        ensures
            r.id == self@.id,
            r.full_file_path@ == self@.path,
    {
        FileDto { id: self.id, full_file_path: self.path.clone() }
    }

    pub fn from_dto(dto: FileDto) -> (r: File)
        ensures
            r@ == file_from_dto(dto),
    {
        File { id: dto.id, path: dto.full_file_path }
    }
}

} // verus!
