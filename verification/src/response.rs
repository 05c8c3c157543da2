//! Translation of what the transport brought back into a typed result.

use vstd::prelude::*;
use vstd::string::*;
use crate::error::{DeleteBlobError, DeleteBlobErrorView, ParseFailure};
use crate::protocol::accepted_status;
use crate::headers::{
    find_header,
    header_value,
    header_views,
    Header,
    HeaderView,
    CLIENT_REQUEST_ID,
    REQUEST_ID,
};
use crate::text::{is_visible, is_visible_text};

verus! {

/// What the transport received: status, headers in the order received, and
/// body. Header names are in lower case, as the transport delivers them.
#[derive(Clone, Debug, PartialEq, Eq)]
pub struct TransportResponse {
    pub status: u16,
    pub headers: Vec<Header>,
    pub body: Vec<u8>,
}

/// The model of a [`TransportResponse`].
pub struct TransportResponseView {
    pub status: u16,
    pub headers: Seq<HeaderView>,
    pub body: Seq<u8>,
}

impl View for TransportResponse {
    type V = TransportResponseView;

    open spec fn view(&self) -> TransportResponseView {
        TransportResponseView {
            status: self.status,
            headers: header_views(self.headers@),
            body: self.body@,
        }
    }
}

/// What the service reports of an accepted deletion.
#[derive(Clone, Debug, PartialEq, Eq)]
pub struct DeleteBlobResponse {
    /// The id that the service gave the request.
    pub request_id: String,
    /// The caller's correlation id, where the service echoed it.
    pub client_request_id: Option<String>,
}

/// The model of a [`DeleteBlobResponse`].
pub struct DeleteBlobResponseView {
    pub request_id: Seq<char>,
    pub client_request_id: Option<Seq<char>>,
}

impl View for DeleteBlobResponse {
    type V = DeleteBlobResponseView;

    open spec fn view(&self) -> DeleteBlobResponseView {
        DeleteBlobResponseView {
            request_id: self.request_id@,
            client_request_id: match self.client_request_id {
                Some(id) => Some(id@),
                None => None,
            },
        }
    }
}

/// The model of the outcome of a translation.
pub open spec fn outcome_view(
    outcome: Result<DeleteBlobResponse, DeleteBlobError>,
) -> Result<DeleteBlobResponseView, DeleteBlobErrorView> {
    match outcome {
        Ok(response) => Ok(response@),
        Err(error) => Err(error@),
    }
}

/// The model of what the check of a status hands out.
pub open spec fn extracted_view(
    extracted: Result<(Vec<Header>, Vec<u8>), DeleteBlobError>,
) -> Result<(Seq<HeaderView>, Seq<u8>), DeleteBlobErrorView> {
    match extracted {
        Ok((headers, body)) => Ok((header_views(headers@), body@)),
        Err(error) => Err(error@),
    }
}

/// The model of what the transport hands over.
pub open spec fn transport_view(
    outcome: Result<TransportResponse, String>,
) -> Result<TransportResponseView, Seq<char>> {
    match outcome {
        Ok(response) => Ok(response@),
        Err(message) => Err(message@),
    }
}

/// What the headers of an accepted deletion amount to. The request id is
/// required and must be non-empty visible text; the client request id is
/// optional and must be visible text where it is present.
pub open spec fn parsed_headers(
    headers: Seq<HeaderView>,
) -> Result<DeleteBlobResponseView, DeleteBlobErrorView> {
    match header_value(headers, REQUEST_ID@) {
        None => Err(DeleteBlobErrorView::ResponseParseError(ParseFailure::MissingRequestId)),
        Some(request_id) => if request_id.len() == 0 || !is_visible(request_id) {
            Err(DeleteBlobErrorView::ResponseParseError(ParseFailure::MalformedRequestId))
        } else {
            match header_value(headers, CLIENT_REQUEST_ID@) {
                None => Ok(DeleteBlobResponseView { request_id, client_request_id: None }),
                Some(id) => if !is_visible(id) {
                    Err(
                        DeleteBlobErrorView::ResponseParseError(
                            ParseFailure::MalformedClientRequestId,
                        ),
                    )
                } else {
                    Ok(DeleteBlobResponseView { request_id, client_request_id: Some(id) })
                },
            }
        },
    }
}

/// What the check of the status yields: headers and body where the status is
/// the expected one, else the error that carries the actual status and the
/// body.
pub open spec fn status_checked(
    response: TransportResponseView,
    expected_status: u16,
) -> Result<(Seq<HeaderView>, Seq<u8>), DeleteBlobErrorView> {
    if response.status == expected_status {
        Ok((response.headers, response.body))
    } else {
        Err(DeleteBlobErrorView::UnexpectedStatus { code: response.status, body: response.body })
    }
}

/// What the outcome of the transport amounts to. A failure of the transport
/// is passed on as it is; a status other than 202 is an error whatever the
/// headers hold; the headers are read only under status 202.
pub open spec fn translated(
    outcome: Result<TransportResponseView, Seq<char>>,
) -> Result<DeleteBlobResponseView, DeleteBlobErrorView> {
    match outcome {
        Err(message) => Err(DeleteBlobErrorView::TransportError(message)),
        Ok(response) => match status_checked(response, 202) {
            Err(error) => Err(error),
            Ok((headers, _)) => parsed_headers(headers),
        },
    }
}

/// Checks the status of an answer and hands out its headers and body.
pub fn check_status_and_extract(response: TransportResponse, expected_status: u16) -> (extracted:
    Result<(Vec<Header>, Vec<u8>), DeleteBlobError>)
    ensures
        extracted_view(extracted) == status_checked(response@, expected_status),
{
    if response.status == expected_status {
        Ok((response.headers, response.body))
    } else {
        Err(DeleteBlobError::UnexpectedStatus { code: response.status, body: response.body })
    }
}

impl DeleteBlobResponse {
    /// Reads the answer to an accepted deletion from its headers.
    pub fn from_headers(headers: &Vec<Header>) -> (parsed: Result<
        DeleteBlobResponse,
        DeleteBlobError,
    >)
        ensures
            outcome_view(parsed) == parsed_headers(header_views(headers@)),
    {
        let request_id = match find_header(headers, REQUEST_ID) {
            None => {
                return Err(DeleteBlobError::ResponseParseError(ParseFailure::MissingRequestId));
            },
            Some(value) => value,
        };
        if request_id.is_empty() || !is_visible_text(request_id) {
            return Err(DeleteBlobError::ResponseParseError(ParseFailure::MalformedRequestId));
        }
        let client_request_id = match find_header(headers, CLIENT_REQUEST_ID) {
            None => None,
            Some(value) => {
                if !is_visible_text(value) {
                    return Err(
                        DeleteBlobError::ResponseParseError(
                            ParseFailure::MalformedClientRequestId,
                        ),
                    );
                }
                Some(String::from_str(value))
            },
        };
        Ok(DeleteBlobResponse { request_id: String::from_str(request_id), client_request_id })
    }
}

/// Turns the outcome of the transport into the result of the deletion.
pub fn translate_response(outcome: Result<TransportResponse, String>) -> (result: Result<
    DeleteBlobResponse,
    DeleteBlobError,
>)
    ensures
        outcome_view(result) == translated(transport_view(outcome)),
{
    match outcome {
        Err(message) => Err(DeleteBlobError::TransportError(message)),
        Ok(response) => match check_status_and_extract(response, accepted_status()) {
            Err(error) => Err(error),
            Ok((headers, _)) => DeleteBlobResponse::from_headers(&headers),
        },
    }
}

} // verus!
