//! Errors of the client: what the client was doing and, where another error
//! caused it, that error as it is shown.
use vstd::prelude::*;

use crate::text::{push_text, string_from};

verus! {

/// An error of the client: its context and, where another error caused it,
/// the `Display` rendering of that error.
#[derive(Clone, Debug)]
pub struct ClientError {
    context: String,
    source: Option<String>,
}

/// The shape in which the client shows an error: the context, then, where
/// there is a cause, `: ` and the cause.
pub open spec fn client_error_text(context: Seq<char>, source: Option<Seq<char>>) -> Seq<char> {
    match source {
        Some(s) => context + ": "@ + s,
        None => context,
    }
}

impl ClientError {
    pub closed spec fn spec_context(self) -> Seq<char> {
        self.context@
    }

    pub closed spec fn spec_source(self) -> Option<Seq<char>> {
        match self.source {
            Some(s) => Some(s@),
            None => None,
        }
    }

    /// The error as `Display` shows it.
    pub open spec fn rendered(self) -> Seq<char> {
        client_error_text(self.spec_context(), self.spec_source())
    }

    /// An error that the client found itself, with no cause.
    pub fn local(context: &str) -> (e: ClientError)
        ensures
            e.spec_context() == context@,
            e.spec_source() == None::<Seq<char>>,
    {
        ClientError { context: string_from(context), source: None }
    }

    /// The conversion that turns a cause (given by its `Display` rendering)
    /// into an error with the given context.
    pub fn contextual(context: &str) -> (f: impl FnOnce(String) -> ClientError)
        ensures
            forall|source: String| #[trigger] f.requires((source,)),
            forall|source: String, e: ClientError| #[trigger]
                f.ensures((source,), e) ==> e.spec_context() == context@ && e.spec_source() == Some(
                    source@,
                ),
    {
        let context = string_from(context);
        move |source: String| -> (e: ClientError)
            ensures
                e.spec_context() == context@,
                e.spec_source() == Some(source@),
            { ClientError { context, source: Some(source) } }
    }

    /// The error as `Display` shows it.
    pub fn to_string(&self) -> (s: String)
        ensures
            s@ == self.rendered(),
    {
        let mut s = string_from(self.context.as_str());
        match &self.source {
            Some(source) => {
                push_text(&mut s, ": ");
                push_text(&mut s, source.as_str());
            },
            None => {},
        }
        s
    }
}

} // verus!
