//! The server's side of the handshake: after both ends have sent their
//! greeting, the server accepts the client only if the client greeted with
//! `b"crabmic"` and speaks a compatible version of the protocol.
use vstd::prelude::*;

use crate::model::{
    lemma_compatible_equivalence, lemma_version_bytes_roundtrip, spec_greeting,
    hello_signal, protocol_version, same_bytes, spec_hello_signal, spec_protocol_version,
    ProtocolVersion, HELLO_SIGNAL_SIZE, PROTOCOL_VERSION_SIZE,
};
use crate::server::error::{InternalError, InternalErrorKind};

verus! {

/// What the server decides on the greeting of a client.
pub open spec fn greeting_verdict(hello: Seq<u8>, version: Seq<u8>) -> Result<ProtocolVersion, Seq<char>> {
    if hello != spec_hello_signal() {
        Err("expect hello signal"@)
    } else if !ProtocolVersion::decoded(version).spec_compatible(spec_protocol_version()) {
        Err("incompatible protocol version"@)
    } else {
        Ok(ProtocolVersion::decoded(version))
    }
}

/// Checks the greeting that a client sent: the seven bytes of its hello and
/// the six bytes of its version. A wrong hello, or a version whose major or
/// minor differs from the server's, is a breach of the protocol; otherwise
/// the client's version is returned.
pub fn check_client_greeting(
    hello: &[u8; HELLO_SIGNAL_SIZE],
    version: [u8; PROTOCOL_VERSION_SIZE],
) -> (verdict: Result<ProtocolVersion, InternalError>)
    ensures
        match (verdict, greeting_verdict(hello@, version@)) {
            (Ok(v), Ok(w)) => v == w,
            (Err(e), Err(context)) => e.spec_kind() == InternalErrorKind::Protocol
                && e.spec_context() == context,
            _ => false,
        },
{
    let expected = hello_signal();
    if !same_bytes(hello, &expected) {
        return Err(InternalError::protocol("expect hello signal"));
    }
    let version = ProtocolVersion::from_bytes(version);
    if !version.compatible(&protocol_version()) {
        return Err(InternalError::protocol("incompatible protocol version"));
    }
    Ok(version)
}

/// A client that greets exactly as this library does (the hello, then the
/// version 0.1.0) is accepted, with the version 0.1.0.
pub proof fn lemma_own_greeting_accepted()
    ensures
        greeting_verdict(
            spec_greeting().subrange(0, HELLO_SIGNAL_SIZE as int),
            spec_greeting().subrange(HELLO_SIGNAL_SIZE as int, spec_greeting().len() as int),
        ) == Ok::<ProtocolVersion, Seq<char>>(spec_protocol_version()),
{
    let g = spec_greeting();
    assert(g.subrange(0, HELLO_SIGNAL_SIZE as int) =~= spec_hello_signal());
    assert(g.subrange(HELLO_SIGNAL_SIZE as int, g.len() as int) =~= spec_protocol_version().encoded());
    lemma_version_bytes_roundtrip(spec_protocol_version());
    lemma_compatible_equivalence(spec_protocol_version(), spec_protocol_version(), spec_protocol_version());
}

/// A client is accepted exactly when it says hello and its version agrees
/// with the server's on major and minor; the patch number never matters.
pub proof fn lemma_accepted_iff_compatible(hello: Seq<u8>, version: Seq<u8>)
    requires
        version.len() == PROTOCOL_VERSION_SIZE,
    ensures
        greeting_verdict(hello, version) is Ok <==> (hello == spec_hello_signal()
            && ProtocolVersion::decoded(version).spec_major() == spec_protocol_version().spec_major()
            && ProtocolVersion::decoded(version).spec_minor() == spec_protocol_version().spec_minor()),
{
}

} // verus!
