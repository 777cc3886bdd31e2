//! Protocol selection: which handler chain serves an inbound request.

use hyper::header::CONTENT_TYPE;
use hyper::HeaderMap;
use vstd::prelude::*;
use vstd::string::*;

verus! {

/// The two handler chains behind the listening socket.
#[derive(Clone, Copy, Debug, PartialEq, Eq, Structural)]
pub enum Handler {
    /// The JSON/HTTP adapter, also the default.
    Rest,
    /// The binary RPC adapter.
    Rpc,
}

/// The bytes that open every content type of the RPC protocol.
pub open spec fn rpc_marker() -> Seq<u8> {
    "application/grpc".spec_bytes()
}

/// Whether a content-type value begins with the RPC marker.
pub open spec fn has_rpc_marker(value: Seq<u8>) -> bool {
    rpc_marker().is_prefix_of(value)
}

/// The handler chain for a request, given the value of its content-type
/// header, if it has one.
pub open spec fn handler_for(content_type: Option<Seq<u8>>) -> Handler {
    match content_type {
        Some(value) => if has_rpc_marker(value) {
            Handler::Rpc
        } else {
            Handler::Rest
        },
        None => Handler::Rest,
    }
}

/// The RPC chain serves exactly the requests whose content type begins with
/// the RPC marker, whatever else they carry. A request without the header, and
/// one whose content type is plain `application/json`, go to the REST chain.
pub proof fn lemma_protocol_selection(content_type: Option<Seq<u8>>)
    ensures
        handler_for(content_type) == Handler::Rpc <==> (content_type matches Some(value)
            && has_rpc_marker(value)),
        handler_for(content_type) == Handler::Rest <==> !(content_type matches Some(value)
            && has_rpc_marker(value)),
        handler_for(None) == Handler::Rest,
        handler_for(Some("application/json".spec_bytes())) == Handler::Rest,
{
    let marker = "application/grpc";
    let json = "application/json";
    reveal_strlit("application/grpc");
    reveal_strlit("application/json");
    is_ascii_spec_bytes(marker);
    is_ascii_spec_bytes(json);
    assert(is_ascii(marker));
    assert(is_ascii(json));
    assert(marker.spec_bytes()[12] == 0x67);
    assert(json.spec_bytes()[12] == 0x6a);
    assert(json.spec_bytes().subrange(0, 16)[12] == 0x6a);
}

impl Handler {
    /// Position of the chain in the pair `[rest, rpc]` that the listener holds.
    pub open spec fn spec_index(self) -> usize {
        match self {
            Handler::Rest => 0,
            Handler::Rpc => 1,
        }
    }

    /// Position of the chain in the pair `[rest, rpc]` that the listener holds.
    #[verifier::when_used_as_spec(spec_index)]
    pub fn index(self) -> (i: usize)
        ensures
            i == self.spec_index(),
    {
        match self {
            Handler::Rest => 0,
            Handler::Rpc => 1,
        }
    }
}

/// Whether `value` begins with `prefix`.
pub fn starts_with(value: &[u8], prefix: &[u8]) -> (b: bool)
    ensures
        b == prefix@.is_prefix_of(value@),
{
    if value.len() < prefix.len() {
        return false;
    }
    let mut i: usize = 0;
    while i < prefix.len()
        invariant
            i <= prefix.len() <= value.len(),
            forall|j: int| 0 <= j < i ==> value@[j] == prefix@[j],
        decreases prefix.len() - i,
    {
        if value[i] != prefix[i] {
            assert(value@.subrange(0, prefix@.len() as int)[i as int] != prefix@[i as int]);
            return false;
        }
        i += 1;
    }
    assert(prefix@ =~= value@.subrange(0, prefix@.len() as int));
    true
}

/// Chooses the handler chain from the content-type value alone: the RPC
/// chain where the value begins with the RPC marker, the REST chain for any
/// other value (text or not) and where the header is absent.
pub fn select_handler(content_type: Option<&[u8]>) -> (handler: Handler)
    ensures
        handler == handler_for(
            match content_type {
                Some(value) => Some(value@),
                None => None,
            },
        ),
{
    match content_type {
        Some(value) => {
            if starts_with(value, "application/grpc".as_bytes()) {
                Handler::Rpc
            } else {
                Handler::Rest
            }
        },
        None => Handler::Rest,
    }
}

#[verifier::external_type_specification]
#[verifier::external_body]
#[verifier::reject_recursive_types(T)]
pub struct ExHeaderMap<T>(HeaderMap<T>);

#[verifier::external_type_specification]
#[verifier::external_body]
pub struct ExHeaderValue(hyper::header::HeaderValue);

/// What a header map holds, as far as the dispatcher reads it: for each
/// header name that is present (lower-case bytes), the bytes of the first
/// value stored under it.
pub uninterp spec fn first_values(headers: HeaderMap) -> Map<Seq<u8>, Seq<u8>>;

/// The name of the content-type header.
pub open spec fn content_type_name() -> Seq<u8> {
    "content-type".spec_bytes()
}

/// The content-type value of a header map, if the header is present.
pub open spec fn content_type_of(headers: HeaderMap) -> Option<Seq<u8>> {
    if first_values(headers).contains_key(content_type_name()) {
        Some(first_values(headers)[content_type_name()])
    } else {
        None
    }
}

/// `HeaderMap::get` with the key `CONTENT_TYPE`, then `HeaderValue::as_bytes`
/// on what it found. Trusted: `get` returns the first value stored under the
/// name and `None` where the name is absent; `as_bytes` hands out the value's
/// bytes as they are.
#[verifier::external_body]
fn content_type<'a>(headers: &'a HeaderMap) -> (value: Option<&'a [u8]>)
    ensures
        value is Some <==> first_values(*headers).contains_key(content_type_name()),
        value matches Some(bytes) ==> bytes@ == first_values(*headers)[content_type_name()],
{
    match headers.get(CONTENT_TYPE) {
        Some(found) => Some(found.as_bytes()),
        None => None,
    }
}

/// Picks, for a request with these headers, the position of its handler chain
/// in the pair `[rest, rpc]`. Only the content-type header is read.
pub fn steer(headers: &HeaderMap) -> (i: usize)
    ensures
        i == handler_for(content_type_of(*headers)).spec_index(),
{
    select_handler(content_type(headers)).index()
}

} // verus!
