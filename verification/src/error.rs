//! Errors of the library.
use vstd::prelude::*;

verus! {

/// Why an entity could not be loaded, stored or used.
#[derive(Debug, Clone, Copy, PartialEq, Eq, Structural)]
pub enum LoadError {
    NotFound,
    ParentNotExists,
    RootCls,
    Unauthorized,
    ImpersonationFailed,
}

/// The message shown for each load error.
pub open spec fn load_error_text(e: LoadError) -> Seq<char> {
    match e {
        LoadError::NotFound => "File not found"@,
        LoadError::ParentNotExists => "Parent classification doesn't exists"@,
        LoadError::RootCls => "Can't create root classification"@,
        LoadError::Unauthorized => "Unauthorized access to DAM"@,
        LoadError::ImpersonationFailed => "Unable to login as admin"@,
    }
}

impl LoadError {
    /// The human-readable message of the error.
    pub fn message(&self) -> (r: &'static str)
        ensures
            r@ == load_error_text(*self),
    {
        match self {
            LoadError::NotFound => "File not found",
            LoadError::ParentNotExists => "Parent classification doesn't exists",
            LoadError::RootCls => "Can't create root classification",
            LoadError::Unauthorized => "Unauthorized access to DAM",
            LoadError::ImpersonationFailed => "Unable to login as admin",
        }
    }
}

/// Why a file could not be taken into the store.
#[derive(Debug, Clone, Copy, PartialEq, Eq, Structural)]
pub enum FileError {
    NotAFile,
    PathDoesNotExists,
}

/// Why an administrator account could not be created.
#[derive(Debug, Clone, PartialEq, Eq)]
pub enum UserError {
    NotFound,
    UnexpectedError,
    DatabaseError(String),
}

} // verus!
