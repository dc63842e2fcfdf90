use vstd::prelude::*;

verus! {

/// Failures that belong to the library's own rules.
#[derive(Debug, Clone, Copy, PartialEq, Eq, Structural)]
pub enum Error {
    /// Any failure not otherwise classified.
    Other,
    /// The content sniffer could not classify the file.
    NotAnImage,
    /// A directory was given where a file was expected.
    IsADirectory,
    /// A required name was blank.
    EmptyName,
}

/// The kinds of disk failure that callers tell apart.
#[derive(Debug, Clone, Copy, PartialEq, Eq, Structural)]
pub enum IoKind {
    NotFound,
    PermissionDenied,
    AlreadyExists,
    /// The content sniffer recognised the file as something other than an image.
    Unsupported,
    OutOfMemory,
    Other,
}

/// How decoding or writing a thumbnail failed, as the image decoder reports it.
#[derive(Debug, Clone, Copy, PartialEq, Eq, Structural)]
pub enum ImageFailure {
    /// The format or one of its features is not supported.
    Unsupported,
    /// Reading or writing the file failed.
    Io(IoKind),
    /// The bytes could not be decoded.
    Decoding,
    /// Decoding would pass the decoder's limits.
    Limits,
    Other,
}

/// The error every operation of the library reports.
#[derive(Debug, PartialEq, Eq)]
pub enum OsplError {
    /// The relational store failed; the text is the store's own message.
    DatabaseError(String),
    IoError(IoKind),
    InternalError(Error),
}

pub open spec fn image_failure_error(f: ImageFailure) -> OsplError {
    match f {
        ImageFailure::Unsupported => OsplError::IoError(IoKind::Unsupported),
        ImageFailure::Io(k) => OsplError::IoError(k),
        ImageFailure::Decoding => OsplError::InternalError(Error::NotAnImage),
        ImageFailure::Limits => OsplError::IoError(IoKind::OutOfMemory),
        ImageFailure::Other => OsplError::InternalError(Error::Other),
    }
}

pub open spec fn kind_text(k: IoKind) -> Seq<char> {
    match k {
        IoKind::NotFound => "NotFound"@,
        IoKind::PermissionDenied => "PermissionDenied"@,
        IoKind::AlreadyExists => "AlreadyExists"@,
        IoKind::Unsupported => "Unsupported"@,
        IoKind::OutOfMemory => "OutOfMemory"@,
        IoKind::Other => "Other"@,
    }
}

pub open spec fn error_text(e: Error) -> Seq<char> {
    match e {
        Error::Other => "Other"@,
        Error::NotAnImage => "NotAnImage"@,
        Error::IsADirectory => "IsADirectory"@,
        Error::EmptyName => "EmptyName"@,
    }
}

/// The text that describes an error to a person.
pub open spec fn message_of(e: OsplError) -> Seq<char> {
    match e {
        OsplError::DatabaseError(m) => "Database error: "@ + m@,
        OsplError::IoError(k) => "IO error: "@ + kind_text(k),
        OsplError::InternalError(i) => "Internal error: "@ + error_text(i),
    }
}

impl IoKind {
    pub fn text(&self) -> (r: &'static str)
        ensures
            r@ == kind_text(*self),
    {
        match self {
            IoKind::NotFound => "NotFound",
            IoKind::PermissionDenied => "PermissionDenied",
            IoKind::AlreadyExists => "AlreadyExists",
            IoKind::Unsupported => "Unsupported",
            IoKind::OutOfMemory => "OutOfMemory",
            IoKind::Other => "Other",
        }
    }
}

impl Error {
    pub fn text(&self) -> (r: &'static str)
        ensures
            r@ == error_text(*self),
    {
        match self {
            Error::Other => "Other",
            Error::NotAnImage => "NotAnImage",
            Error::IsADirectory => "IsADirectory",
            Error::EmptyName => "EmptyName",
        }
    }
}

impl OsplError {
    /// The error for a failed thumbnail.
    pub fn from_image_failure(f: ImageFailure) -> (r: OsplError)
        ensures
            r == image_failure_error(f),
    {
        match f {
            ImageFailure::Unsupported => OsplError::IoError(IoKind::Unsupported),
            ImageFailure::Io(k) => OsplError::IoError(k),
            ImageFailure::Decoding => OsplError::InternalError(Error::NotAnImage),
            ImageFailure::Limits => OsplError::IoError(IoKind::OutOfMemory),
            ImageFailure::Other => OsplError::InternalError(Error::Other),
        }
    }

    /// Describes the error to a person.
    pub fn message(&self) -> (r: String)
        ensures
            r@ == message_of(*self),
    {
        match self {
            OsplError::DatabaseError(m) => {
                let out = String::from_str("Database error: ");
                out.concat(m.as_str())
            },
            OsplError::IoError(k) => {
                let out = String::from_str("IO error: ");
                out.concat(k.text())
            },
            OsplError::InternalError(e) => {
                let out = String::from_str("Internal error: ");
                out.concat(e.text())
            },
        }
    }

    /// The error reported when an id has no matching row.
    pub fn not_found() -> (r: OsplError)
        ensures
            r == OsplError::IoError(IoKind::NotFound),
    {
        OsplError::IoError(IoKind::NotFound)
    }
}

} // verus!
