use vstd::prelude::*;

verus! {

/// What went wrong, in terms a caller can act on.
#[derive(Clone, Copy, Debug, PartialEq, Eq, Structural)]
pub enum ErrorKind {
    /// The process holds no screen-recording authorization.
    PermissionDenied,
    /// Enumeration returned zero shareable surfaces.
    NoContent,
    /// The requested id is absent from the current snapshot.
    TargetNotFound,
    /// The stream configuration was rejected, or resources ran out.
    StartFailed,
    /// The bounded wait elapsed with no frame.
    CaptureTimedOut,
    /// The platform reported a stream failure mid-capture.
    DeliveryError,
    /// The received frame could not be normalised to RGBA8.
    DecodeFailed,
    /// Any other failure, described by the message alone.
    Other,
}

/// An error of this library: a kind and a human-readable message.
#[derive(Clone, Debug)]
pub struct XCapError {
    pub kind: ErrorKind,
    pub message: String,
}

pub type XCapResult<T> = Result<T, XCapError>;

impl XCapError {
    /// An error of kind `Other` carrying `message`.
    pub fn new(message: &str) -> (r: XCapError)
        ensures
            r.kind == ErrorKind::Other,
            r.message@ == message@,
    {
        XCapError { kind: ErrorKind::Other, message: message.to_string() }
    }

    /// An error of the given kind carrying `message`.
    pub fn with_kind(kind: ErrorKind, message: &str) -> (r: XCapError)
        ensures
            r.kind == kind,
            r.message@ == message@,
    {
        XCapError { kind, message: message.to_string() }
    }

    /// No window could be listed.
    pub fn no_windows() -> (r: XCapError)
        ensures
            r.kind == ErrorKind::NoContent,
    {
        XCapError::with_kind(ErrorKind::NoContent, "No windows found")
    }

    /// No display could be listed.
    pub fn no_monitors() -> (r: XCapError)
        ensures
            r.kind == ErrorKind::NoContent,
    {
        XCapError::with_kind(ErrorKind::NoContent, "No monitors found")
    }

    pub fn kind(&self) -> (r: ErrorKind)
        ensures
            r == self.kind,
    {
        self.kind
    }

    /// The message, for display to a user.
    pub fn message(&self) -> (r: String)
        ensures
            r@ == self.message@,
    {
        self.message.clone()
    }
}

} // verus!
