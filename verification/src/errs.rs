//! The closed set of materialization errors. Each error carries the
//! offending name where there is one, the logical path it happened under,
//! and, for operational failures, what the driver reported of the underlying
//! failure. Two errors compare equal when they are of the same kind,
//! whatever their payloads: the payloads of operational failures are not
//! reproducible across hosts.

use crate::cursor::Cursor;
use vstd::prelude::*;

verus! {

/// What the driver reports of a failed filesystem operation: whether the
/// operation failed because the target already exists, and the failure's
/// rendered text.
#[derive(Debug)]
pub struct OsError {
    pub already_exists: bool,
    pub message: String,
}

/// The mathematical content of an [`OsError`].
pub struct OsErrorV {
    pub already_exists: bool,
    pub message: Seq<char>,
}

impl View for OsError {
    type V = OsErrorV;

    open spec fn view(&self) -> OsErrorV {
        OsErrorV { already_exists: self.already_exists, message: self.message@ }
    }
}

/// The kind of filesystem object whose creation failed.
#[derive(Debug, Clone, Copy, PartialEq, Eq, Structural)]
pub enum CreateKind {
    Directory,
    RegularFile,
    Script,
    Symlink,
}

/// A materialization error. The traversal stops at the first one.
#[derive(Debug)]
pub enum Error {
    /// The key does not decompose into exactly one path component.
    MultiplePathComponents { name: String, context: Cursor },
    /// The key is a single but non-regular component (`.`, `..`, the root).
    NotRegularComponent { name: String, context: Cursor },
    /// Creating a filesystem object of the given kind failed.
    Create { kind: CreateKind, context: Cursor, os: OsError },
    /// Changing the working directory into a freshly made directory failed.
    ChangeDir { context: Cursor, os: OsError },
    /// Changing the working directory back above failed.
    ChangeDirUp { context: Cursor, os: OsError },
    /// Reading or setting a script's permission bits failed.
    CouldNotMakeFileExecutable { context: Cursor, os: OsError },
    /// A value was neither a mapping, a list, nor text.
    InvalidJsonPart { context: Cursor },
    /// A list value was not of the form `[kind, payload]` with both text.
    InvalidJsonArray { context: Cursor },
    /// A list's first element was neither `"link"` nor `"script"`.
    InvalidArrayKind { context: Cursor },
}

/// The mathematical content of an [`Error`].
pub enum ErrorV {
    MultiplePathComponents { name: Seq<char>, context: Seq<Seq<char>> },
    NotRegularComponent { name: Seq<char>, context: Seq<Seq<char>> },
    Create { kind: CreateKind, context: Seq<Seq<char>>, os: OsErrorV },
    ChangeDir { context: Seq<Seq<char>>, os: OsErrorV },
    ChangeDirUp { context: Seq<Seq<char>>, os: OsErrorV },
    CouldNotMakeFileExecutable { context: Seq<Seq<char>>, os: OsErrorV },
    InvalidJsonPart { context: Seq<Seq<char>> },
    InvalidJsonArray { context: Seq<Seq<char>> },
    InvalidArrayKind { context: Seq<Seq<char>> },
}

impl View for Error {
    type V = ErrorV;

    open spec fn view(&self) -> ErrorV {
        match self {
            Error::MultiplePathComponents { name, context } => ErrorV::MultiplePathComponents {
                name: name@,
                context: context@,
            },
            Error::NotRegularComponent { name, context } => ErrorV::NotRegularComponent {
                name: name@,
                context: context@,
            },
            Error::Create { kind, context, os } => ErrorV::Create {
                kind: *kind,
                context: context@,
                os: os@,
            },
            Error::ChangeDir { context, os } => ErrorV::ChangeDir { context: context@, os: os@ },
            Error::ChangeDirUp { context, os } => ErrorV::ChangeDirUp {
                context: context@,
                os: os@,
            },
            Error::CouldNotMakeFileExecutable { context, os } => {
                ErrorV::CouldNotMakeFileExecutable { context: context@, os: os@ }
            },
            Error::InvalidJsonPart { context } => ErrorV::InvalidJsonPart { context: context@ },
            Error::InvalidJsonArray { context } => ErrorV::InvalidJsonArray { context: context@ },
            Error::InvalidArrayKind { context } => ErrorV::InvalidArrayKind { context: context@ },
        }
    }
}

/// The discriminant of an error, without its payloads.
#[derive(Debug, Clone, Copy, PartialEq, Eq, Structural)]
pub enum ErrorKind {
    MultiplePathComponents,
    NotRegularComponent,
    Create,
    ChangeDir,
    ChangeDirUp,
    CouldNotMakeFileExecutable,
    InvalidJsonPart,
    InvalidJsonArray,
    InvalidArrayKind,
}

/// The kind of an error's mathematical content.
pub open spec fn spec_kind_of(e: ErrorV) -> ErrorKind {
    match e {
        ErrorV::MultiplePathComponents { .. } => ErrorKind::MultiplePathComponents,
        ErrorV::NotRegularComponent { .. } => ErrorKind::NotRegularComponent,
        ErrorV::Create { .. } => ErrorKind::Create,
        ErrorV::ChangeDir { .. } => ErrorKind::ChangeDir,
        ErrorV::ChangeDirUp { .. } => ErrorKind::ChangeDirUp,
        ErrorV::CouldNotMakeFileExecutable { .. } => ErrorKind::CouldNotMakeFileExecutable,
        ErrorV::InvalidJsonPart { .. } => ErrorKind::InvalidJsonPart,
        ErrorV::InvalidJsonArray { .. } => ErrorKind::InvalidJsonArray,
        ErrorV::InvalidArrayKind { .. } => ErrorKind::InvalidArrayKind,
    }
}

impl Error {
    /// This error's discriminant.
    pub fn kind(&self) -> (k: ErrorKind)
        ensures
            k == spec_kind_of(self@),
    {
        match self {
            Error::MultiplePathComponents { .. } => ErrorKind::MultiplePathComponents,
            Error::NotRegularComponent { .. } => ErrorKind::NotRegularComponent,
            Error::Create { .. } => ErrorKind::Create,
            Error::ChangeDir { .. } => ErrorKind::ChangeDir,
            Error::ChangeDirUp { .. } => ErrorKind::ChangeDirUp,
            Error::CouldNotMakeFileExecutable { .. } => ErrorKind::CouldNotMakeFileExecutable,
            Error::InvalidJsonPart { .. } => ErrorKind::InvalidJsonPart,
            Error::InvalidJsonArray { .. } => ErrorKind::InvalidJsonArray,
            Error::InvalidArrayKind { .. } => ErrorKind::InvalidArrayKind,
        }
    }
}

impl PartialEq for Error {
    /// Errors compare by kind alone: payloads of operational failures are
    /// not reproducible, so they do not take part.
    fn eq(&self, other: &Error) -> (r: bool) {
        self.kind() == other.kind()
    }
}

impl vstd::std_specs::cmp::PartialEqSpecImpl for Error {
    open spec fn obeys_eq_spec() -> bool {
        true
    }

    open spec fn eq_spec(&self, other: &Error) -> bool {
        spec_kind_of(self@) == spec_kind_of(other@)
    }
}

} // verus!
