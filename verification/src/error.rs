//! The error taxonomy: a closed set of failure kinds, two conversion paths
//! (from a system error and from an arbitrary third-party failure), accessors
//! that recover the wrapped payloads, and a fixed human-readable message for
//! each kind.

use vstd::prelude::*;
use vstd::std_specs::convert::FromSpec;

verus! {

/// Classification carried by a system-level failure, as the surrounding
/// platform reports it. Only the distinction between `PermissionDenied` and
/// everything else drives the conversion logic; the other variants record
/// common platform classifications unchanged.
#[derive(Clone, Copy, Debug, PartialEq, Eq, Structural)]
pub enum SysErrorClass {
    PermissionDenied,
    NotFound,
    AlreadyExists,
    Unclassified,
}

/// A system-level failure: its classification and its display text.
#[derive(Clone, Debug, PartialEq)]
pub struct SysError {
    pub class: SysErrorClass,
    pub message: String,
}

/// A type-erased third-party failure. Only its display text is visible here;
/// the value itself travels through unchanged. It owns plain data only, so a
/// value can be handed freely across threads.
#[derive(Clone, Debug, PartialEq)]
pub struct OpaqueError {
    pub message: String,
}

/// The closed set of failure kinds this module distinguishes: four bare
/// markers for conditions the tool classifies itself, plus two passthrough
/// kinds that carry an unclassified failure whole.
#[derive(Debug)]
pub enum ErrorKind {
    /// The destination file already exists; the operation refuses to
    /// overwrite it.
    FileExists,
    /// The destination path's parent directory does not exist or is not a
    /// directory.
    DirectoryMissing,
    /// The underlying system denied the operation due to access rights.
    PermissionDenied,
    /// The remote peer returned a response that fails validation.
    InvalidResponse,
    /// Any other system-level failure, carried unchanged.
    IO(SysError),
    /// An arbitrary third-party failure, carried unchanged.
    Other(OpaqueError),
}

impl ErrorKind {
    /// How a system error is classified: a permission denial collapses to
    /// the bare `PermissionDenied` marker, deliberately discarding the
    /// payload; anything else is wrapped whole as `IO`.
    pub open spec fn of_sys(e: SysError) -> ErrorKind {
        if e.class == SysErrorClass::PermissionDenied {
            ErrorKind::PermissionDenied
        } else {
            ErrorKind::IO(e)
        }
    }

    /// How a third-party failure is classified: always wrapped whole as
    /// `Other`, with no inspection and no loss.
    pub open spec fn of_opaque(e: OpaqueError) -> ErrorKind {
        ErrorKind::Other(e)
    }

    /// The system error this kind carries: present exactly for `IO`.
    pub open spec fn as_io(self) -> Option<SysError> {
        match self {
            ErrorKind::IO(e) => Some(e),
            _ => None,
        }
    }

    /// The third-party failure this kind carries: present exactly for
    /// `Other`.
    pub open spec fn as_other(self) -> Option<OpaqueError> {
        match self {
            ErrorKind::Other(e) => Some(e),
            _ => None,
        }
    }

    /// The display text of each kind: a fixed sentence for the four bare
    /// markers, and the wrapped failure's own text verbatim for the two
    /// passthrough kinds.
    pub open spec fn spec_message(self) -> Seq<char> {
        match self {
            ErrorKind::FileExists => "File already exists"@,
            ErrorKind::DirectoryMissing => "Destination path provided is not a valid directory"@,
            ErrorKind::PermissionDenied => "Cannot create file: permission denied"@,
            ErrorKind::InvalidResponse => "Invalid response from the remote host"@,
            ErrorKind::IO(e) => e.message@,
            ErrorKind::Other(e) => e.message@,
        }
    }
}

/// A failure value. It exclusively owns exactly one `ErrorKind`, immutable
/// after construction: read-only access goes through `kind`, and the
/// consuming accessors move the payload out.
#[derive(Debug)]
pub struct Error {
    kind: ErrorKind,
}

impl Error {
    /// The kind this error carries.
    pub closed spec fn spec_kind(self) -> ErrorKind {
        self.kind
    }

    /// The error wrapping a given kind.
    pub closed spec fn spec_new(k: ErrorKind) -> Error {
        Error { kind: k }
    }

    /// Wraps a given kind directly; any kind is acceptable.
    pub fn new(k: ErrorKind) -> (r: Error)
        ensures
            r == Error::spec_new(k),
            r.spec_kind() == k,
    {
        Error { kind: k }
    }

    /// Read-only access to the contained kind; never fails and does not
    /// consume.
    pub fn kind(&self) -> (r: &ErrorKind)
        ensures
            *r == self.spec_kind(),
    {
        &self.kind
    }

    /// Consumes the error; returns the wrapped system error only if the kind
    /// is `IO`. Every other kind yields `None` — including
    /// `PermissionDenied`, whose conversion path discarded the original
    /// payload.
    pub fn into_inner_io(self) -> (r: Option<SysError>)
        ensures
            r == self.spec_kind().as_io(),
    {
        match self.kind {
            ErrorKind::FileExists => None,
            ErrorKind::DirectoryMissing => None,
            ErrorKind::PermissionDenied => None,
            ErrorKind::InvalidResponse => None,
            ErrorKind::IO(err) => Some(err),
            ErrorKind::Other(_) => None,
        }
    }

    /// Consumes the error; returns the wrapped third-party failure only if
    /// the kind is `Other`. Every other kind yields `None`.
    pub fn into_inner_other(self) -> (r: Option<OpaqueError>)
        ensures
            r == self.spec_kind().as_other(),
    {
        match self.kind {
            ErrorKind::FileExists => None,
            ErrorKind::DirectoryMissing => None,
            ErrorKind::PermissionDenied => None,
            ErrorKind::InvalidResponse => None,
            ErrorKind::IO(_) => None,
            ErrorKind::Other(err) => Some(err),
        }
    }

    /// The human-readable message: a deterministic, non-empty sentence for
    /// each bare kind, and the wrapped failure's own text for `IO` and
    /// `Other`.
    pub fn message(&self) -> (r: String)
        ensures
            r@ == self.spec_kind().spec_message(),
    {
        match &self.kind {
            ErrorKind::FileExists => "File already exists".to_string(),
            ErrorKind::DirectoryMissing => {
                "Destination path provided is not a valid directory".to_string()
            },
            ErrorKind::PermissionDenied => "Cannot create file: permission denied".to_string(),
            ErrorKind::InvalidResponse => "Invalid response from the remote host".to_string(),
            ErrorKind::IO(err) => err.message.clone(),
            ErrorKind::Other(err) => err.message.clone(),
        }
    }
}

impl From<SysError> for Error {
    /// Inspects the system error's classification: a permission denial
    /// becomes the bare `PermissionDenied` kind, anything else is wrapped
    /// unchanged as `IO`.
    fn from(e: SysError) -> (r: Error) {
        if e.class == SysErrorClass::PermissionDenied {
            Error { kind: ErrorKind::PermissionDenied }
        } else {
            Error { kind: ErrorKind::IO(e) }
        }
    }
}

impl vstd::std_specs::convert::FromSpecImpl<SysError> for Error {
    open spec fn obeys_from_spec() -> bool {
        true
    }

    open spec fn from_spec(e: SysError) -> Error {
        Error::spec_new(ErrorKind::of_sys(e))
    }
}

impl From<OpaqueError> for Error {
    /// Always wraps the third-party failure unchanged as `Other`.
    fn from(e: OpaqueError) -> (r: Error) {
        Error { kind: ErrorKind::Other(e) }
    }
}

impl vstd::std_specs::convert::FromSpecImpl<OpaqueError> for Error {
    open spec fn obeys_from_spec() -> bool {
        true
    }

    open spec fn from_spec(e: OpaqueError) -> Error {
        Error::spec_new(ErrorKind::of_opaque(e))
    }
}

/// An error carries exactly the kind it was built from, whichever kind that
/// is.
pub proof fn lemma_new_kind(k: ErrorKind)
    ensures
        Error::spec_new(k).spec_kind() == k,
{
}

/// A system error classified as a permission denial converts to the bare
/// `PermissionDenied` kind, and its payload is not recoverable afterwards:
/// `into_inner_io` on the result is absent.
pub proof fn lemma_from_sys_permission_denied(e: SysError)
    requires
        e.class == SysErrorClass::PermissionDenied,
    ensures
        Error::from_spec(e).spec_kind() == ErrorKind::PermissionDenied,
        Error::from_spec(e).spec_kind().as_io() == None::<SysError>,
{
}

/// A system error with any other classification converts to `IO` wrapping
/// the original unchanged: `into_inner_io` recovers it, and the message is
/// the original's own text.
pub proof fn lemma_from_sys_io(e: SysError)
    requires
        e.class != SysErrorClass::PermissionDenied,
    ensures
        Error::from_spec(e).spec_kind() == ErrorKind::IO(e),
        Error::from_spec(e).spec_kind().as_io() == Some(e),
        Error::from_spec(e).spec_kind().spec_message() == e.message@,
{
}

/// A third-party failure always converts to `Other` wrapping the original
/// unchanged: `into_inner_other` recovers it, and the message is the
/// original's own text.
pub proof fn lemma_from_opaque(b: OpaqueError)
    ensures
        Error::from_spec(b).spec_kind() == ErrorKind::Other(b),
        Error::from_spec(b).spec_kind().as_other() == Some(b),
        Error::from_spec(b).spec_kind().spec_message() == b.message@,
{
}

/// `into_inner_io` is absent for every kind but `IO`.
pub proof fn lemma_inner_io_absent(k: ErrorKind)
    requires
        !(k matches ErrorKind::IO(_)),
    ensures
        k.as_io() == None::<SysError>,
{
}

/// `into_inner_other` is absent for every kind but `Other`.
pub proof fn lemma_inner_other_absent(k: ErrorKind)
    requires
        !(k matches ErrorKind::Other(_)),
    ensures
        k.as_other() == None::<OpaqueError>,
{
}

/// Round trip: wrapping then unwrapping with the matching accessor recovers
/// the payload. The one exception is a system error classified as a
/// permission denial, whose payload is deliberately discarded.
pub proof fn lemma_round_trip(e: SysError, b: OpaqueError)
    requires
        e.class != SysErrorClass::PermissionDenied,
    ensures
        Error::from_spec(e).spec_kind().as_io() == Some(e),
        Error::from_spec(b).spec_kind().as_other() == Some(b),
{
}

} // verus!
