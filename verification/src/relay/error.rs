//! Errors of the first form of the server: what failed and what the server
//! was doing.
use vstd::prelude::*;

use crate::text::string_from;

verus! {

/// A failure of the QUIC transport. The variants that wrap an error of the
/// transport hold that error's `Debug` rendering.
#[derive(Clone, Debug)]
pub enum QuicError {
    WriteError(String),
    ConnectionError(String),
    ZeroRttRejected,
    ConnectionLost,
    ClosedStream,
}

/// What failed.
#[derive(Clone, Debug)]
pub enum InternalErrorKind {
    /// The transport failed.
    Quic(QuicError),
    /// An I/O operation failed; the `Display` rendering of the I/O error.
    Io(String),
}

/// An error of the server: what failed and what the server was doing.
#[derive(Clone, Debug)]
pub struct InternalError {
    kind: InternalErrorKind,
    context: String,
}

impl InternalError {
    pub closed spec fn spec_kind(self) -> InternalErrorKind {
        self.kind
    }

    pub closed spec fn spec_context(self) -> Seq<char> {
        self.context@
    }

    /// An error of the given kind that happened while doing `context`.
    pub fn new(kind: InternalErrorKind, context: &str) -> (e: InternalError)
        ensures
            e.spec_kind() == kind,
            e.spec_context() == context@,
    {
        InternalError { kind, context: string_from(context) }
    }

    /// The conversion that turns a failure into an error with the given
    /// context.
    pub fn contextual(context: &str) -> (f: impl FnOnce(InternalErrorKind) -> InternalError)
        ensures
            forall|kind: InternalErrorKind| #[trigger] f.requires((kind,)),
            forall|kind: InternalErrorKind, e: InternalError|
                #[trigger] f.ensures((kind,), e) ==> e.spec_kind() == kind && e.spec_context() == context@,
    {
        let context = string_from(context);
        move |kind: InternalErrorKind| -> (e: InternalError)
            ensures
                e.spec_kind() == kind,
                e.spec_context() == context@,
            { InternalError { kind, context } }
    }
}

} // verus!
