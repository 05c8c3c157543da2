//! The wire form of a blob deletion: method, URI and headers.

use vstd::prelude::*;
use vstd::string::*;
use crate::headers::{
    header_views,
    Header,
    HeaderView,
    CLIENT_REQUEST_ID,
    DELETE_SNAPSHOTS,
    LEASE_ID,
};
use crate::params::{DeleteSnapshotsMethod, LeaseId, RequestParameters};
use crate::text::{decimal, push_decimal};

verus! {

/// The request that deletes a blob. It has no body.
#[derive(Clone, Debug, PartialEq, Eq)]
pub struct DeleteBlobRequest {
    pub method: String,
    pub uri: String,
    pub headers: Vec<Header>,
}

/// The model of a [`DeleteBlobRequest`].
pub struct DeleteBlobRequestView {
    pub method: Seq<char>,
    pub uri: Seq<char>,
    pub headers: Seq<HeaderView>,
}

impl View for DeleteBlobRequest {
    type V = DeleteBlobRequestView;

    open spec fn view(&self) -> DeleteBlobRequestView {
        DeleteBlobRequestView {
            method: self.method@,
            uri: self.uri@,
            headers: header_views(self.headers@),
        }
    }
}

/// The address of a blob: the account's blob endpoint, then the container
/// and the blob as path segments.
pub open spec fn blob_uri(
    account: Seq<char>,
    container_name: Seq<char>,
    blob_name: Seq<char>,
) -> Seq<char> {
    "https://"@ + account + ".blob.core.windows.net/"@ + container_name + "/"@ + blob_name
}

/// The query parameter that carries the timeout.
pub open spec fn timeout_parameter(timeout: u64) -> Seq<char> {
    "timeout="@ + decimal(timeout as nat)
}

/// The URI of the request: the blob's address, followed by the timeout as
/// the only query parameter where one is set.
pub open spec fn request_uri(p: RequestParameters) -> Seq<char>
    recommends
        p.is_complete(),
{
    let resource = blob_uri(p.account, p.container_name->0, p.blob_name->0);
    match p.timeout {
        Some(timeout) => resource + "?"@ + timeout_parameter(timeout),
        None => resource,
    }
}

/// The header that carries the snapshot directive.
pub open spec fn delete_snapshots_header_view(method: DeleteSnapshotsMethod) -> HeaderView {
    HeaderView { name: DELETE_SNAPSHOTS@, value: method.wire_value() }
}

/// The headers of the request: the snapshot directive always, then the lease
/// token and the client request id where they are set.
pub open spec fn request_headers(p: RequestParameters) -> Seq<HeaderView> {
    let directive = seq![delete_snapshots_header_view(p.delete_snapshots_method)];
    let lease = match p.lease_id {
        Some(token) => seq![HeaderView { name: LEASE_ID@, value: token }],
        None => Seq::<HeaderView>::empty(),
    };
    let correlation = match p.client_request_id {
        Some(id) => seq![HeaderView { name: CLIENT_REQUEST_ID@, value: id }],
        None => Seq::<HeaderView>::empty(),
    };
    directive + lease + correlation
}

/// The request that complete parameters stand for.
pub open spec fn request_of(p: RequestParameters) -> DeleteBlobRequestView
    recommends
        p.is_complete(),
{
    DeleteBlobRequestView {
        method: "DELETE"@,
        uri: request_uri(p),
        headers: request_headers(p),
    }
}

/// Builds the address of a blob.
pub fn generate_blob_uri(account: &str, container_name: &str, blob_name: &str) -> (uri: String)
    ensures
        uri@ == blob_uri(account@, container_name@, blob_name@),
{
    let mut uri = String::from_str("https://");
    uri.append(account);
    uri.append(".blob.core.windows.net/");
    uri.append(container_name);
    uri.append("/");
    uri.append(blob_name);
    uri
}

/// Renders the timeout as a query parameter.
pub fn timeout_uri_parameter(timeout: u64) -> (parameter: String)
    ensures
        parameter@ == timeout_parameter(timeout),
{
    let mut parameter = String::from_str("timeout=");
    push_decimal(&mut parameter, timeout);
    parameter
}

/// The header that carries the snapshot directive.
pub fn delete_snapshots_header(method: DeleteSnapshotsMethod) -> (header: Header)
    ensures
        header@ == delete_snapshots_header_view(method),
{
    Header::new(DELETE_SNAPSHOTS, method.as_str())
}

/// The header that carries the lease token.
pub fn lease_id_header(lease_id: &LeaseId) -> (header: Header)
    ensures
        header@ == (HeaderView { name: LEASE_ID@, value: lease_id@ }),
{
    Header::new(LEASE_ID, lease_id.as_str())
}

/// The header that carries the caller's correlation id.
pub fn client_request_id_header(id: &str) -> (header: Header)
    ensures
        header@ == (HeaderView { name: CLIENT_REQUEST_ID@, value: id@ }),
{
    Header::new(CLIENT_REQUEST_ID, id)
}

} // verus!
