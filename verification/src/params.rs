//! The parameters of a blob deletion and their mathematical model.

use vstd::prelude::*;
use vstd::string::*;

verus! {

/// How the service is to treat the snapshots of the blob being deleted.
#[derive(Clone, Copy, Debug, PartialEq, Eq, Structural)]
pub enum DeleteSnapshotsMethod {
    /// Delete the blob together with all of its snapshots.
    Include,
    /// Delete the snapshots and keep the blob itself.
    Only,
}

impl DeleteSnapshotsMethod {
    /// The value that stands for this method in the request header.
    pub open spec fn wire_value(self) -> Seq<char> {
        match self {
            DeleteSnapshotsMethod::Include => "include"@,
            DeleteSnapshotsMethod::Only => "only"@,
        }
    }

    /// The value that stands for this method in the request header.
    pub fn as_str(&self) -> (s: &'static str)
        ensures
            s@ == self.wire_value(),
    {
        match self {
            DeleteSnapshotsMethod::Include => "include",
            DeleteSnapshotsMethod::Only => "only",
        }
    }
}

/// A parameter without which no request can be built.
#[derive(Clone, Copy, Debug, PartialEq, Eq, Structural)]
pub enum RequiredField {
    ContainerName,
    BlobName,
    DeleteSnapshotsMethod,
}

/// The token of a lease held on a blob. The library does not interpret it.
#[derive(Clone, Debug, PartialEq, Eq)]
pub struct LeaseId {
    token: String,
}

impl View for LeaseId {
    type V = Seq<char>;

    closed spec fn view(&self) -> Seq<char> {
        self.token@
    }
}

impl LeaseId {
    /// Wraps a token as the service issued it.
    pub fn new(token: &str) -> (id: LeaseId)
        ensures
            id@ == token@,
    {
        LeaseId { token: String::from_str(token) }
    }

    /// The token.
    pub fn as_str(&self) -> (token: &str)
        ensures
            token@ == self@,
    {
        self.token.as_str()
    }
}

/// The storage account on whose behalf requests are built. Its view is the
/// account's name.
#[derive(Clone, Debug, PartialEq, Eq)]
pub struct Client {
    account: String,
}

impl View for Client {
    type V = Seq<char>;

    closed spec fn view(&self) -> Seq<char> {
        self.account@
    }
}

impl Client {
    /// A client for the named storage account.
    pub fn new(account: &str) -> (client: Client)
        ensures
            client@ == account@,
    {
        Client { account: String::from_str(account) }
    }

    /// The name of the storage account.
    pub fn account(&self) -> (account: &str)
        ensures
            account@ == self@,
    {
        self.account.as_str()
    }
}

/// What a builder has been told so far: the model over which every contract
/// of the library is stated.
pub struct RequestParameters {
    /// Name of the storage account.
    pub account: Seq<char>,
    /// The container that holds the blob, once supplied.
    pub container_name: Option<Seq<char>>,
    /// The blob to delete, once supplied.
    pub blob_name: Option<Seq<char>>,
    /// The treatment of snapshots; `Include` until one is chosen.
    pub delete_snapshots_method: DeleteSnapshotsMethod,
    /// Whether the treatment of snapshots was chosen by the caller.
    pub delete_snapshots_method_set: bool,
    /// Server-side timeout in seconds.
    pub timeout: Option<u64>,
    /// Token of the lease that protects the blob.
    pub lease_id: Option<Seq<char>>,
    /// Correlation id that the service echoes.
    pub client_request_id: Option<Seq<char>>,
}

impl RequestParameters {
    /// The parameters of a fresh builder: nothing supplied.
    pub open spec fn new(account: Seq<char>) -> RequestParameters {
        RequestParameters {
            account,
            container_name: None,
            blob_name: None,
            delete_snapshots_method: DeleteSnapshotsMethod::Include,
            delete_snapshots_method_set: false,
            timeout: None,
            lease_id: None,
            client_request_id: None,
        }
    }

    pub open spec fn with_container_name(self, container_name: Seq<char>) -> RequestParameters {
        RequestParameters { container_name: Some(container_name), ..self }
    }

    pub open spec fn with_blob_name(self, blob_name: Seq<char>) -> RequestParameters {
        RequestParameters { blob_name: Some(blob_name), ..self }
    }

    pub open spec fn with_delete_snapshots_method(
        self,
        method: DeleteSnapshotsMethod,
    ) -> RequestParameters {
        RequestParameters {
            delete_snapshots_method: method,
            delete_snapshots_method_set: true,
            ..self
        }
    }

    pub open spec fn with_timeout(self, timeout: u64) -> RequestParameters {
        RequestParameters { timeout: Some(timeout), ..self }
    }

    pub open spec fn with_lease_id(self, lease_id: Seq<char>) -> RequestParameters {
        RequestParameters { lease_id: Some(lease_id), ..self }
    }

    pub open spec fn with_client_request_id(self, id: Seq<char>) -> RequestParameters {
        RequestParameters { client_request_id: Some(id), ..self }
    }

    /// Whether the given mandatory parameter has been supplied.
    pub open spec fn is_set(self, field: RequiredField) -> bool {
        match field {
            RequiredField::ContainerName => self.container_name is Some,
            RequiredField::BlobName => self.blob_name is Some,
            RequiredField::DeleteSnapshotsMethod => self.delete_snapshots_method_set,
        }
    }

    /// All three mandatory parameters have been supplied.
    pub open spec fn is_complete(self) -> bool {
        &&& self.is_set(RequiredField::ContainerName)
        &&& self.is_set(RequiredField::BlobName)
        &&& self.is_set(RequiredField::DeleteSnapshotsMethod)
    }
}

} // verus!
