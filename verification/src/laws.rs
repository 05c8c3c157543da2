//! What holds of every builder, stated over the model of its parameters.

use vstd::prelude::*;
use crate::error::DeleteBlobErrorView;
use crate::params::{DeleteSnapshotsMethod, RequestParameters, RequiredField};
use crate::headers::{header_value, HeaderView, CLIENT_REQUEST_ID, DELETE_SNAPSHOTS, LEASE_ID};
use crate::request::{blob_uri, request_headers, request_uri};
use crate::response::{translated, TransportResponseView};
use crate::text::{decimal, digits};

verus! {

/// One `with_` call on a builder, with the value it was given.
pub enum BuilderCall {
    ContainerName(Seq<char>),
    BlobName(Seq<char>),
    DeleteSnapshotsMethod(DeleteSnapshotsMethod),
    Timeout(u64),
    LeaseId(Seq<char>),
    ClientRequestId(Seq<char>),
}

impl BuilderCall {
    /// Whether this call supplies the given mandatory parameter.
    pub open spec fn supplies(self, field: RequiredField) -> bool {
        match field {
            RequiredField::ContainerName => self is ContainerName,
            RequiredField::BlobName => self is BlobName,
            RequiredField::DeleteSnapshotsMethod => self is DeleteSnapshotsMethod,
        }
    }
}

/// Some call of the sequence supplies the given mandatory parameter.
pub open spec fn supplied(calls: Seq<BuilderCall>, field: RequiredField) -> bool {
    exists|i: int| 0 <= i < calls.len() && (#[trigger] calls[i]).supplies(field)
}

impl RequestParameters {
    /// The parameters after one call.
    pub open spec fn apply(self, call: BuilderCall) -> RequestParameters {
        match call {
            BuilderCall::ContainerName(name) => self.with_container_name(name),
            BuilderCall::BlobName(name) => self.with_blob_name(name),
            BuilderCall::DeleteSnapshotsMethod(method) => self.with_delete_snapshots_method(
                method,
            ),
            BuilderCall::Timeout(timeout) => self.with_timeout(timeout),
            BuilderCall::LeaseId(token) => self.with_lease_id(token),
            BuilderCall::ClientRequestId(id) => self.with_client_request_id(id),
        }
    }

    /// The parameters after a sequence of calls, made in the sequence's
    /// order.
    pub open spec fn apply_all(self, calls: Seq<BuilderCall>) -> RequestParameters
        decreases calls.len(),
    {
        if calls.len() == 0 {
            self
        } else {
            self.apply_all(calls.drop_last()).apply(calls.last())
        }
    }
}

/// The three mandatory calls lead to the same parameters in each of their
/// six orders, and those parameters are complete.
pub proof fn law_mandatory_calls_in_any_order(
    p: RequestParameters,
    container_name: Seq<char>,
    blob_name: Seq<char>,
    method: DeleteSnapshotsMethod,
)
    ensures
        ({
            let q = p.with_container_name(container_name).with_blob_name(
                blob_name,
            ).with_delete_snapshots_method(method);
            &&& q.is_complete()
            &&& q == p.with_container_name(container_name).with_delete_snapshots_method(
                method,
            ).with_blob_name(blob_name)
            &&& q == p.with_blob_name(blob_name).with_container_name(
                container_name,
            ).with_delete_snapshots_method(method)
            &&& q == p.with_blob_name(blob_name).with_delete_snapshots_method(
                method,
            ).with_container_name(container_name)
            &&& q == p.with_delete_snapshots_method(method).with_container_name(
                container_name,
            ).with_blob_name(blob_name)
            &&& q == p.with_delete_snapshots_method(method).with_blob_name(
                blob_name,
            ).with_container_name(container_name)
        }),
{
}

/// A mandatory parameter of a builder is set exactly if one of the calls
/// made on it since it was created supplies it: a default does not count,
/// and no other call sets it.
pub proof fn law_set_exactly_by_its_call(
    account: Seq<char>,
    calls: Seq<BuilderCall>,
    field: RequiredField,
)
    ensures
        RequestParameters::new(account).apply_all(calls).is_set(field) <==> supplied(
            calls,
            field,
        ),
    decreases calls.len(),
{
    if calls.len() > 0 {
        let earlier = calls.drop_last();
        law_set_exactly_by_its_call(account, earlier, field);
        if supplied(earlier, field) {
            let i: int = choose|i: int|
                0 <= i < earlier.len() && (#[trigger] earlier[i]).supplies(field);
            assert(calls[i].supplies(field));
        }
        if supplied(calls, field) && !calls.last().supplies(field) {
            let i: int = choose|i: int|
                0 <= i < calls.len() && (#[trigger] calls[i]).supplies(field);
            assert(earlier[i].supplies(field));
        }
    }
}

/// The parameters of a builder are complete exactly if each of the three
/// mandatory calls was made on it since it was created.
pub proof fn law_complete_exactly_after_every_mandatory_call(
    account: Seq<char>,
    calls: Seq<BuilderCall>,
)
    ensures
        RequestParameters::new(account).apply_all(calls).is_complete() <==> supplied(
            calls,
            RequiredField::ContainerName,
        ) && supplied(calls, RequiredField::BlobName) && supplied(
            calls,
            RequiredField::DeleteSnapshotsMethod,
        ),
{
    law_set_exactly_by_its_call(account, calls, RequiredField::ContainerName);
    law_set_exactly_by_its_call(account, calls, RequiredField::BlobName);
    law_set_exactly_by_its_call(account, calls, RequiredField::DeleteSnapshotsMethod);
}

/// Setting an optional parameter a second time replaces the first value and
/// leaves the completeness of the mandatory parameters as it was.
pub proof fn law_optional_last_write_wins(
    p: RequestParameters,
    first: BuilderCall,
    second: BuilderCall,
)
    requires
        first is Timeout && second is Timeout || first is LeaseId && second is LeaseId
            || first is ClientRequestId && second is ClientRequestId,
    ensures
        p.apply(first).apply(second) == p.apply(second),
        forall|field: RequiredField| p.apply(second).is_set(field) == p.is_set(field),
        p.apply(second).is_complete() == p.is_complete(),
{
}

/// Making the same call twice with the same value leaves a builder as
/// making it once does.
pub proof fn law_repeated_call_is_idempotent(p: RequestParameters, call: BuilderCall)
    ensures
        p.apply(call).apply(call) == p.apply(call),
{
}

/// The number that a sequence of decimal digits denotes.
pub open spec fn decimal_value(s: Seq<char>) -> int
    decreases s.len(),
{
    if s.len() == 0 {
        0
    } else {
        decimal_value(s.drop_last()) * 10 + (s.last() as int - '0' as int)
    }
}

/// The decimal numeral of a number is not empty, consists of digits, has no
/// leading zero unless the number is zero, and denotes that number.
pub proof fn law_decimal_denotes_its_number(n: nat)
    ensures
        decimal(n).len() > 0,
        forall|i: int| 0 <= i < decimal(n).len() ==> '0' <= #[trigger] decimal(n)[i] <= '9',
        n > 0 ==> decimal(n)[0] != '0',
        decimal_value(decimal(n)) == n,
    decreases n,
{
    let last: int = (n % 10) as int;
    assert(digits()[last] as int - '0' as int == last) by {
        assert(digits()[0] == '0' && digits()[1] == '1' && digits()[2] == '2' && digits()[3]
            == '3' && digits()[4] == '4');
        assert(digits()[5] == '5' && digits()[6] == '6' && digits()[7] == '7' && digits()[8]
            == '8' && digits()[9] == '9');
    }
    if n < 10 {
        let numeral = seq![digits()[last]];
        assert(decimal_value(numeral) == decimal_value(numeral.drop_last()) * 10 + last);
    } else {
        let front = decimal(n / 10);
        law_decimal_denotes_its_number(n / 10);
        let numeral = front.push(digits()[last]);
        assert(numeral.drop_last() =~= front);
    }
}

/// Where a timeout is set, the URI is the blob's address followed by
/// `?timeout=` and the decimal numeral of the seconds, and by nothing else;
/// where none is set, the URI is the blob's address alone.
pub proof fn law_timeout_is_the_only_query_parameter(p: RequestParameters)
    requires
        p.is_complete(),
    ensures
        ({
            let resource = blob_uri(p.account, p.container_name->0, p.blob_name->0);
            match p.timeout {
                Some(timeout) => {
                    let numeral = decimal(timeout as nat);
                    &&& request_uri(p) == resource + "?timeout="@ + numeral
                    &&& forall|i: int|
                        0 <= i < numeral.len() ==> '0' <= #[trigger] numeral[i] <= '9'
                },
                None => request_uri(p) == resource,
            }
        }),
{
    reveal_strlit("?");
    reveal_strlit("timeout=");
    reveal_strlit("?timeout=");
    if let Some(timeout) = p.timeout {
        law_decimal_denotes_its_number(timeout as nat);
        let resource = blob_uri(p.account, p.container_name->0, p.blob_name->0);
        assert(resource + "?"@ + ("timeout="@ + decimal(timeout as nat)) =~= resource + ("?"@
            + "timeout="@) + decimal(timeout as nat));
    }
}

/// The header at `i` is the first one called `name`.
pub open spec fn is_first_match(headers: Seq<HeaderView>, name: Seq<char>, i: int) -> bool {
    &&& 0 <= i < headers.len()
    &&& headers[i].name == name
    &&& forall|j: int| 0 <= j < i ==> (#[trigger] headers[j]).name != name
}

/// Looking a name up yields the value of the first header of that name, and
/// nothing exactly if no header has that name.
pub proof fn law_header_value_is_first_match(headers: Seq<HeaderView>, name: Seq<char>)
    ensures
        match header_value(headers, name) {
            Some(value) => exists|i: int| #[trigger]
                is_first_match(headers, name, i) && headers[i].value == value,
            None => forall|i: int|
                0 <= i < headers.len() ==> (#[trigger] headers[i]).name != name,
        },
    decreases headers.len(),
{
    if headers.len() > 0 {
        if headers[0].name == name {
            assert(is_first_match(headers, name, 0));
        } else {
            let rest = headers.drop_first();
            law_header_value_is_first_match(rest, name);
            match header_value(rest, name) {
                Some(value) => {
                    let i: int = choose|i: int| #[trigger]
                        is_first_match(rest, name, i) && rest[i].value == value;
                    assert forall|j: int| 0 <= j < i + 1 implies (#[trigger] headers[j]).name
                        != name by {
                        if j > 0 {
                            assert(rest[j - 1].name != name);
                        }
                    }
                    assert(is_first_match(headers, name, i + 1));
                },
                None => {
                    assert forall|i: int| 0 <= i < headers.len() implies (
                    #[trigger] headers[i]).name != name by {
                        if i > 0 {
                            assert(rest[i - 1].name != name);
                        }
                    }
                },
            }
        }
    }
}

/// The headers of a request carry the snapshot directive, the lease token
/// exactly where one is set, the client request id exactly where one is set,
/// and nothing else.
pub proof fn law_headers_carry_exactly_what_is_set(p: RequestParameters)
    ensures
        header_value(request_headers(p), DELETE_SNAPSHOTS@) == Some(
            p.delete_snapshots_method.wire_value(),
        ),
        header_value(request_headers(p), LEASE_ID@) == p.lease_id,
        header_value(request_headers(p), CLIENT_REQUEST_ID@) == p.client_request_id,
        request_headers(p).len() == 1 + (if p.lease_id is Some {
            1int
        } else {
            0int
        }) + (if p.client_request_id is Some {
            1int
        } else {
            0int
        }),
{
    reveal_strlit("x-ms-delete-snapshots");
    reveal_strlit("x-ms-lease-id");
    reveal_strlit("x-ms-client-request-id");
    reveal_with_fuel(header_value, 4);
    let headers = request_headers(p);
    assert(headers[0].name == DELETE_SNAPSHOTS@);
    let rest = headers.drop_first();
    if p.lease_id is Some {
        assert(rest[0].name == LEASE_ID@);
    } else if p.client_request_id is Some {
        assert(rest[0].name == CLIENT_REQUEST_ID@);
    }
}

/// An answer with a status other than 202 is an error that carries that
/// status and the body, whatever the headers hold.
pub proof fn law_unexpected_status_ignores_headers(response: TransportResponseView)
    requires
        response.status != 202,
    ensures
        translated(Ok(response)) is Err,
        translated(Ok(response))->Err_0 == (DeleteBlobErrorView::UnexpectedStatus {
            code: response.status,
            body: response.body,
        }),
{
}

} // verus!
