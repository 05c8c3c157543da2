//! The builder that collects the parameters of a blob deletion.

use std::marker::PhantomData;
use vstd::prelude::*;
use vstd::string::*;
use crate::headers::Header;
use crate::markers::{No, ToAssign, Yes};
use crate::params::{Client, DeleteSnapshotsMethod, LeaseId, RequestParameters};
use crate::protocol::delete_method_name;
use crate::request::{
    client_request_id_header,
    delete_snapshots_header,
    generate_blob_uri,
    lease_id_header,
    request_of,
    timeout_uri_parameter,
    DeleteBlobRequest,
};

verus! {

/// Collects the parameters of one blob deletion. Every `with_` call takes
/// the builder and returns it with one parameter set and all others as they
/// were; `finalize` consumes it.
///
/// The three type parameters record which mandatory parameters have been
/// supplied. A call that supplies one turns its marker to [`Yes`], and
/// `finalize` exists only where all three are [`Yes`]. That the markers tell
/// the truth about the values held is the invariant of the type.
#[derive(Debug, PartialEq, Eq)]
pub struct DeleteBlobBuilder<'a, ContainerNameSet, BlobNameSet, DeleteSnapshotMethodSet>
where
    ContainerNameSet: ToAssign,
    BlobNameSet: ToAssign,
    DeleteSnapshotMethodSet: ToAssign,
{
    client: &'a Client,
    p_container_name: PhantomData<ContainerNameSet>,
    p_blob_name: PhantomData<BlobNameSet>,
    p_delete_snapshots_method: PhantomData<DeleteSnapshotMethodSet>,
    container_name: Option<&'a str>,
    blob_name: Option<&'a str>,
    delete_snapshots_method: DeleteSnapshotsMethod,
    timeout: Option<u64>,
    lease_id: Option<&'a LeaseId>,
    client_request_id: Option<&'a str>,
}

impl<'a, ContainerNameSet, BlobNameSet, DeleteSnapshotMethodSet> View for
    DeleteBlobBuilder<'a, ContainerNameSet, BlobNameSet, DeleteSnapshotMethodSet>
where
    ContainerNameSet: ToAssign,
    BlobNameSet: ToAssign,
    DeleteSnapshotMethodSet: ToAssign,
{
    type V = RequestParameters;

    closed spec fn view(&self) -> RequestParameters {
        RequestParameters {
            account: self.client@,
            container_name: match self.container_name {
                Some(name) => Some(name@),
                None => None,
            },
            blob_name: match self.blob_name {
                Some(name) => Some(name@),
                None => None,
            },
            delete_snapshots_method: self.delete_snapshots_method,
            delete_snapshots_method_set: DeleteSnapshotMethodSet::assigned(),
            timeout: self.timeout,
            lease_id: match self.lease_id {
                Some(id) => Some(id@),
                None => None,
            },
            client_request_id: match self.client_request_id {
                Some(id) => Some(id@),
                None => None,
            },
        }
    }
}

impl<'a, ContainerNameSet, BlobNameSet, DeleteSnapshotMethodSet> Clone for
    DeleteBlobBuilder<'a, ContainerNameSet, BlobNameSet, DeleteSnapshotMethodSet>
where
    ContainerNameSet: ToAssign,
    BlobNameSet: ToAssign,
    DeleteSnapshotMethodSet: ToAssign,
{
    fn clone(&self) -> (copy: Self)
        ensures
            copy@ == self@,
    {
        proof {
            use_type_invariant(self);
        }
        DeleteBlobBuilder {
            client: self.client,
            p_container_name: PhantomData,
            p_blob_name: PhantomData,
            p_delete_snapshots_method: PhantomData,
            container_name: self.container_name,
            blob_name: self.blob_name,
            delete_snapshots_method: self.delete_snapshots_method,
            timeout: self.timeout,
            lease_id: self.lease_id,
            client_request_id: self.client_request_id,
        }
    }
}

impl<'a> DeleteBlobBuilder<'a, No, No, No> {
    /// A builder to which nothing has been supplied yet.
    pub fn new(client: &'a Client) -> (builder: DeleteBlobBuilder<'a, No, No, No>)
        ensures
            builder@ == RequestParameters::new(client@),
    {
        DeleteBlobBuilder {
            client,
            p_container_name: PhantomData,
            p_blob_name: PhantomData,
            p_delete_snapshots_method: PhantomData,
            container_name: None,
            blob_name: None,
            delete_snapshots_method: DeleteSnapshotsMethod::Include,
            timeout: None,
            lease_id: None,
            client_request_id: None,
        }
    }
}

impl<'a, BlobNameSet, DeleteSnapshotMethodSet>
    DeleteBlobBuilder<'a, Yes, BlobNameSet, DeleteSnapshotMethodSet>
where
    BlobNameSet: ToAssign,
    DeleteSnapshotMethodSet: ToAssign,
{
    /// The container name. It is there, since the type says so.
    pub fn container_name(&self) -> (name: &'a str)
        ensures
            self@.container_name == Some(name@),
    {
        proof {
            use_type_invariant(self);
        }
        self.container_name.unwrap()
    }
}

impl<'a, ContainerNameSet, DeleteSnapshotMethodSet>
    DeleteBlobBuilder<'a, ContainerNameSet, Yes, DeleteSnapshotMethodSet>
where
    ContainerNameSet: ToAssign,
    DeleteSnapshotMethodSet: ToAssign,
{
    /// The blob name. It is there, since the type says so.
    pub fn blob_name(&self) -> (name: &'a str)
        ensures
            self@.blob_name == Some(name@),
    {
        proof {
            use_type_invariant(self);
        }
        self.blob_name.unwrap()
    }
}

impl<'a, ContainerNameSet, BlobNameSet> DeleteBlobBuilder<'a, ContainerNameSet, BlobNameSet, Yes>
where
    ContainerNameSet: ToAssign,
    BlobNameSet: ToAssign,
{
    /// The snapshot method that the caller chose.
    pub fn delete_snapshots_method(&self) -> (method: DeleteSnapshotsMethod)
        ensures
            self@.delete_snapshots_method_set,
            method == self@.delete_snapshots_method,
    {
        self.delete_snapshots_method
    }
}

impl<'a, ContainerNameSet, BlobNameSet, DeleteSnapshotMethodSet>
    DeleteBlobBuilder<'a, ContainerNameSet, BlobNameSet, DeleteSnapshotMethodSet>
where
    ContainerNameSet: ToAssign,
    BlobNameSet: ToAssign,
    DeleteSnapshotMethodSet: ToAssign,
{
    /// A name is held exactly where its marker says that it was supplied.
    /// Whether the snapshot method was chosen is recorded by its marker
    /// alone.
    #[verifier::type_invariant]
    spec fn markers_tell_the_truth(self) -> bool {
        &&& ContainerNameSet::assigned() <==> self.container_name is Some
        &&& BlobNameSet::assigned() <==> self.blob_name is Some
    }

    /// The client that the builder was created for.
    pub fn client(&self) -> (client: &'a Client)
        ensures
            client@ == self@.account,
    {
        self.client
    }

    /// The timeout in seconds, where one was set.
    pub fn timeout(&self) -> (timeout: Option<u64>)
        ensures
            timeout == self@.timeout,
    {
        self.timeout
    }

    /// The lease token, where one was set.
    pub fn lease_id(&self) -> (lease_id: Option<&'a LeaseId>)
        ensures
            match lease_id {
                Some(id) => self@.lease_id == Some(id@),
                None => self@.lease_id is None,
            },
    {
        self.lease_id
    }

    /// The correlation id, where one was set.
    pub fn client_request_id(&self) -> (id: Option<&'a str>)
        ensures
            match id {
                Some(i) => self@.client_request_id == Some(i@),
                None => self@.client_request_id is None,
            },
    {
        self.client_request_id
    }

    /// Names the container that holds the blob.
    pub fn with_container_name(self, container_name: &'a str) -> (builder:
        DeleteBlobBuilder<'a, Yes, BlobNameSet, DeleteSnapshotMethodSet>)
        ensures
            builder@ == self@.with_container_name(container_name@),
    {
        proof {
            use_type_invariant(&self);
        }
        DeleteBlobBuilder {
            client: self.client,
            p_container_name: PhantomData,
            p_blob_name: PhantomData,
            p_delete_snapshots_method: PhantomData,
            container_name: Some(container_name),
            blob_name: self.blob_name,
            delete_snapshots_method: self.delete_snapshots_method,
            timeout: self.timeout,
            lease_id: self.lease_id,
            client_request_id: self.client_request_id,
        }
    }

    /// Names the blob to delete.
    pub fn with_blob_name(self, blob_name: &'a str) -> (builder:
        DeleteBlobBuilder<'a, ContainerNameSet, Yes, DeleteSnapshotMethodSet>)
        ensures
            builder@ == self@.with_blob_name(blob_name@),
    {
        proof {
            use_type_invariant(&self);
        }
        DeleteBlobBuilder {
            client: self.client,
            p_container_name: PhantomData,
            p_blob_name: PhantomData,
            p_delete_snapshots_method: PhantomData,
            container_name: self.container_name,
            blob_name: Some(blob_name),
            delete_snapshots_method: self.delete_snapshots_method,
            timeout: self.timeout,
            lease_id: self.lease_id,
            client_request_id: self.client_request_id,
        }
    }

    /// Records the caller's choice. Choosing `Include` counts as a choice,
    /// though a fresh builder already holds that value.
    pub fn with_delete_snapshots_method(
        self,
        delete_snapshots_method: DeleteSnapshotsMethod,
    ) -> (builder: DeleteBlobBuilder<'a, ContainerNameSet, BlobNameSet, Yes>)
        ensures
            builder@ == self@.with_delete_snapshots_method(delete_snapshots_method),
    {
        proof {
            use_type_invariant(&self);
        }
        DeleteBlobBuilder {
            client: self.client,
            p_container_name: PhantomData,
            p_blob_name: PhantomData,
            p_delete_snapshots_method: PhantomData,
            container_name: self.container_name,
            blob_name: self.blob_name,
            delete_snapshots_method,
            timeout: self.timeout,
            lease_id: self.lease_id,
            client_request_id: self.client_request_id,
        }
    }

    /// Sets the server-side timeout, in seconds.
    pub fn with_timeout(self, timeout: u64) -> (builder:
        DeleteBlobBuilder<'a, ContainerNameSet, BlobNameSet, DeleteSnapshotMethodSet>)
        ensures
            builder@ == self@.with_timeout(timeout),
    {
        proof {
            use_type_invariant(&self);
        }
        DeleteBlobBuilder {
            client: self.client,
            p_container_name: PhantomData,
            p_blob_name: PhantomData,
            p_delete_snapshots_method: PhantomData,
            container_name: self.container_name,
            blob_name: self.blob_name,
            delete_snapshots_method: self.delete_snapshots_method,
            timeout: Some(timeout),
            lease_id: self.lease_id,
            client_request_id: self.client_request_id,
        }
    }

    /// Sets the token of the lease that protects the blob.
    pub fn with_lease_id(self, lease_id: &'a LeaseId) -> (builder:
        DeleteBlobBuilder<'a, ContainerNameSet, BlobNameSet, DeleteSnapshotMethodSet>)
        ensures
            builder@ == self@.with_lease_id(lease_id@),
    {
        proof {
            use_type_invariant(&self);
        }
        DeleteBlobBuilder {
            client: self.client,
            p_container_name: PhantomData,
            p_blob_name: PhantomData,
            p_delete_snapshots_method: PhantomData,
            container_name: self.container_name,
            blob_name: self.blob_name,
            delete_snapshots_method: self.delete_snapshots_method,
            timeout: self.timeout,
            lease_id: Some(lease_id),
            client_request_id: self.client_request_id,
        }
    }

    /// Sets the correlation id that the service is to echo.
    pub fn with_client_request_id(self, client_request_id: &'a str) -> (builder:
        DeleteBlobBuilder<'a, ContainerNameSet, BlobNameSet, DeleteSnapshotMethodSet>)
        ensures
            builder@ == self@.with_client_request_id(client_request_id@),
    {
        proof {
            use_type_invariant(&self);
        }
        DeleteBlobBuilder {
            client: self.client,
            p_container_name: PhantomData,
            p_blob_name: PhantomData,
            p_delete_snapshots_method: PhantomData,
            container_name: self.container_name,
            blob_name: self.blob_name,
            delete_snapshots_method: self.delete_snapshots_method,
            timeout: self.timeout,
            lease_id: self.lease_id,
            client_request_id: Some(client_request_id),
        }
    }
}

impl<'a> DeleteBlobBuilder<'a, Yes, Yes, Yes> {
    /// Describes the request to send. Only a builder that has received all
    /// three mandatory parameters has this operation, so the parameters that
    /// it reads are complete.
    pub fn finalize(self) -> (request: DeleteBlobRequest)
        ensures
            self@.is_complete(),
            request@ == request_of(self@),
    {
        proof {
            use_type_invariant(&self);
        }
        let mut uri = generate_blob_uri(
            self.client.account(),
            self.container_name.unwrap(),
            self.blob_name.unwrap(),
        );
        if let Some(timeout) = self.timeout {
            uri.append("?");
            uri.append(timeout_uri_parameter(timeout).as_str());
        }
        let mut headers: Vec<Header> = Vec::new();
        headers.push(delete_snapshots_header(self.delete_snapshots_method));
        if let Some(lease_id) = self.lease_id {
            headers.push(lease_id_header(lease_id));
        }
        if let Some(id) = self.client_request_id {
            headers.push(client_request_id_header(id));
        }
        let request = DeleteBlobRequest { method: delete_method_name(), uri, headers };
        assert(request@.headers =~= request_of(self@).headers);
        request
    }
}

} // verus!
