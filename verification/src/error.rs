//! The one failure channel of the library.

use vstd::prelude::*;

verus! {

/// Why the headers of a successful answer could not be read.
#[derive(Clone, Copy, Debug, PartialEq, Eq, Structural)]
pub enum ParseFailure {
    /// The answer carries no request id.
    MissingRequestId,
    /// The request id is empty or holds a character that is not visible.
    MalformedRequestId,
    /// The echoed client request id holds a character that is not visible.
    MalformedClientRequestId,
}

/// Every way in which deleting a blob can fail once the request has been
/// described, each naming the stage that failed. A missing parameter is not
/// among them: the type of the builder rules it out.
#[derive(Clone, Debug, PartialEq, Eq)]
pub enum DeleteBlobError {
    /// The transport could not deliver the request or the answer; the
    /// message is the transport's own.
    TransportError(String),
    /// The service answered with a status other than the expected one.
    UnexpectedStatus { code: u16, body: Vec<u8> },
    /// The service accepted the request, but its answer could not be read.
    ResponseParseError(ParseFailure),
}

/// The model of a [`DeleteBlobError`].
pub enum DeleteBlobErrorView {
    TransportError(Seq<char>),
    UnexpectedStatus { code: u16, body: Seq<u8> },
    ResponseParseError(ParseFailure),
}

impl View for DeleteBlobError {
    type V = DeleteBlobErrorView;

    open spec fn view(&self) -> DeleteBlobErrorView {
        match self {
            DeleteBlobError::TransportError(message) => DeleteBlobErrorView::TransportError(
                message@,
            ),
            DeleteBlobError::UnexpectedStatus { code, body } => {
                DeleteBlobErrorView::UnexpectedStatus { code: *code, body: body@ }
            },
            DeleteBlobError::ResponseParseError(failure) => {
                DeleteBlobErrorView::ResponseParseError(*failure)
            },
        }
    }
}

} // verus!
