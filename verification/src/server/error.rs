//! Errors of the server: what failed (the kind) and what the server was doing
//! (the context).
use vstd::prelude::*;

use crate::text::{push_text, string_from};

verus! {

/// A failure of the QUIC transport. The variants that wrap an error of the
/// transport hold that error's `Debug` rendering.
#[derive(Clone, Debug)]
pub enum QuicError {
    WriteError(String),
    ReadError(String),
    ReadExactError(String),
    ConnectionError(String),
    ZeroRttRejected,
    ConnectionLost,
    ClosedStream,
    Rustls(String),
    NoInitialCipherSuite(String),
}

/// `name(inner)`, the shape in which `Debug` shows a variant with one field.
pub open spec fn wrapped(name: Seq<char>, inner: Seq<char>) -> Seq<char> {
    name + "("@ + inner + ")"@
}

impl QuicError {
    /// The error as `Debug` shows it.
    pub open spec fn rendered(self) -> Seq<char> {
        match self {
            QuicError::WriteError(e) => wrapped("WriteError"@, e@),
            QuicError::ReadError(e) => wrapped("ReadError"@, e@),
            QuicError::ReadExactError(e) => wrapped("ReadExactError"@, e@),
            QuicError::ConnectionError(e) => wrapped("ConnectionError"@, e@),
            QuicError::ZeroRttRejected => "ZeroRttRejected"@,
            QuicError::ConnectionLost => "ConnectionLost"@,
            QuicError::ClosedStream => "ClosedStream"@,
            QuicError::Rustls(e) => wrapped("Rustls"@, e@),
            QuicError::NoInitialCipherSuite(e) => wrapped("NoInitialCipherSuite"@, e@),
        }
    }

    /// The error as `Debug` shows it.
    pub fn debug_string(&self) -> (s: String)
        ensures
            s@ == self.rendered(),
    {
        match self {
            QuicError::WriteError(e) => wrap("WriteError", e),
            QuicError::ReadError(e) => wrap("ReadError", e),
            QuicError::ReadExactError(e) => wrap("ReadExactError", e),
            QuicError::ConnectionError(e) => wrap("ConnectionError", e),
            QuicError::ZeroRttRejected => string_from("ZeroRttRejected"),
            QuicError::ConnectionLost => string_from("ConnectionLost"),
            QuicError::ClosedStream => string_from("ClosedStream"),
            QuicError::Rustls(e) => wrap("Rustls", e),
            QuicError::NoInitialCipherSuite(e) => wrap("NoInitialCipherSuite", e),
        }
    }
}

/// `name(inner)`.
fn wrap(name: &str, inner: &String) -> (s: String)
    ensures
        s@ == wrapped(name@, inner@),
{
    let mut s = string_from(name);
    push_text(&mut s, "(");
    push_text(&mut s, inner.as_str());
    push_text(&mut s, ")");
    s
}

/// What failed.
#[derive(Clone, Debug)]
pub enum InternalErrorKind {
    /// The transport failed.
    Quic(QuicError),
    /// An I/O operation failed; the `Display` rendering of the I/O error.
    Io(String),
    /// The peer broke the protocol.
    Protocol,
}

impl InternalErrorKind {
    /// The kind as `Display` shows it.
    pub open spec fn rendered(self) -> Seq<char> {
        match self {
            InternalErrorKind::Quic(e) => "Quic error: "@ + e.rendered(),
            InternalErrorKind::Io(e) => "Io error: "@ + e@,
            InternalErrorKind::Protocol => "Protocol error"@,
        }
    }

    /// The kind as `Display` shows it.
    pub fn to_string(&self) -> (s: String)
        ensures
            s@ == self.rendered(),
    {
        match self {
            InternalErrorKind::Quic(e) => {
                let mut s = string_from("Quic error: ");
                let inner = e.debug_string();
                push_text(&mut s, inner.as_str());
                s
            },
            InternalErrorKind::Io(e) => {
                let mut s = string_from("Io error: ");
                push_text(&mut s, e.as_str());
                s
            },
            InternalErrorKind::Protocol => string_from("Protocol error"),
        }
    }
}

/// An error of the server: what failed and what the server was doing.
#[derive(Clone, Debug)]
pub struct InternalError {
    kind: InternalErrorKind,
    context: String,
}

impl InternalError {
    pub closed spec fn spec_kind(self) -> InternalErrorKind {
        self.kind
    }

    pub closed spec fn spec_context(self) -> Seq<char> {
        self.context@
    }

    /// The error as `Display` shows it: the kind, `: `, then the context.
    pub open spec fn rendered(self) -> Seq<char> {
        self.spec_kind().rendered() + ": "@ + self.spec_context()
    }

    /// An error of the given kind that happened while doing `context`.
    pub fn new(kind: InternalErrorKind, context: &str) -> (e: InternalError)
        ensures
            e.spec_kind() == kind,
            e.spec_context() == context@,
    {
        InternalError { kind, context: string_from(context) }
    }

    /// A breach of the protocol by the peer, found while doing `context`.
    pub fn protocol(context: &str) -> (e: InternalError)
        ensures
            e.spec_kind() == InternalErrorKind::Protocol,
            e.spec_context() == context@,
    {
        InternalError { kind: InternalErrorKind::Protocol, context: string_from(context) }
    }

    /// The conversion that turns a failure into an error with the given
    /// context.
    pub fn contextual(context: &str) -> (f: impl FnOnce(InternalErrorKind) -> InternalError)
        ensures
            forall|kind: InternalErrorKind| #[trigger] f.requires((kind,)),
            forall|kind: InternalErrorKind, e: InternalError|
                #[trigger] f.ensures((kind,), e) ==> e.spec_kind() == kind && e.spec_context() == context@,
    {
        let context = string_from(context);
        move |kind: InternalErrorKind| -> (e: InternalError)
            ensures
                e.spec_kind() == kind,
                e.spec_context() == context@,
            { InternalError { kind, context } }
    }

    /// The error as `Display` shows it.
    pub fn to_string(&self) -> (s: String)
        ensures
            s@ == self.rendered(),
    {
        let mut s = self.kind.to_string();
        push_text(&mut s, ": ");
        push_text(&mut s, self.context.as_str());
        s
    }
}

} // verus!
