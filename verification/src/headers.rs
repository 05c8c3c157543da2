//! HTTP headers as the library sees them: pairs of text.

use vstd::prelude::*;
use vstd::string::*;

verus! {

/// Name of the header that tells the service what to do with snapshots.
pub const DELETE_SNAPSHOTS: &'static str = "x-ms-delete-snapshots";

/// Name of the header that carries the lease token.
pub const LEASE_ID: &'static str = "x-ms-lease-id";

/// Name of the header that carries the caller's correlation id, in requests
/// and in answers.
pub const CLIENT_REQUEST_ID: &'static str = "x-ms-client-request-id";

/// Name of the header in which the service names the request.
pub const REQUEST_ID: &'static str = "x-ms-request-id";

/// One HTTP header.
#[derive(Clone, Debug, PartialEq, Eq)]
pub struct Header {
    pub name: String,
    pub value: String,
}

/// The model of a [`Header`].
pub struct HeaderView {
    pub name: Seq<char>,
    pub value: Seq<char>,
}

impl View for Header {
    type V = HeaderView;

    open spec fn view(&self) -> HeaderView {
        HeaderView { name: self.name@, value: self.value@ }
    }
}

impl Header {
    pub fn new(name: &str, value: &str) -> (header: Header)
        ensures
            header@ == (HeaderView { name: name@, value: value@ }),
    {
        Header { name: String::from_str(name), value: String::from_str(value) }
    }
}

/// The models of a list of headers, in the list's order.
pub open spec fn header_views(headers: Seq<Header>) -> Seq<HeaderView> {
    Seq::new(headers.len(), |i: int| headers[i]@)
}

/// The value of the first header called `name`, if there is one.
pub open spec fn header_value(headers: Seq<HeaderView>, name: Seq<char>) -> Option<Seq<char>>
    decreases headers.len(),
{
    if headers.len() == 0 {
        None
    } else if headers[0].name == name {
        Some(headers[0].value)
    } else {
        header_value(headers.drop_first(), name)
    }
}

/// Looks up the first header called `name`.
pub fn find_header<'a>(headers: &'a Vec<Header>, name: &str) -> (value: Option<&'a str>)
    ensures
        match value {
            Some(v) => header_value(header_views(headers@), name@) == Some(v@),
            None => header_value(header_views(headers@), name@) is None,
        },
{
    let ghost all = header_views(headers@);
    let wanted = String::from_str(name);
    let mut i: usize = 0;
    assert(all.skip(0) =~= all);
    while i < headers.len()
        invariant
            i <= headers.len(),
            wanted@ == name@,
            all == header_views(headers@),
            header_value(all, name@) == header_value(all.skip(i as int), name@),
        decreases headers.len() - i,
    {
        let ghost rest = all.skip(i as int);
        assert(rest.drop_first() =~= all.skip(i + 1));
        if headers[i].name == wanted {
            return Some(headers[i].value.as_str());
        }
        i += 1;
    }
    None
}

} // verus!
