use vstd::prelude::*;
use vstd::string::*;

verus! {

/// The reply when a request names no service.
pub const MISSING_SERVICE: &'static str = "{ \"error\": \"Missing service name\" }";

/// The reply when the service header is not text.
pub const INVALID_SERVICE: &'static str = "{ \"error\": \"Invalid service name\" }";

/// The service header of a request, as the transport found it.
pub enum ServiceHeader {
    Missing,
    NotText,
    Text(String),
}

/// What the endpoint does with a request: reply at once with a status and a
/// body, or hand the call key to the dispatch function and reply 200 with
/// whatever it returns.
pub enum Routing {
    Reply { status: u16, body: String },
    Dispatch { call_key: String },
}

/// The endpoint's decision for a request with the service header `h`: 400
/// where the header is missing or not text, the dispatch function otherwise.
pub fn route_request(h: ServiceHeader) -> (r: Routing)
    ensures
        h is Missing ==> (r matches Routing::Reply { status, body } && status == 400 && body@
            == MISSING_SERVICE@),
        h is NotText ==> (r matches Routing::Reply { status, body } && status == 400 && body@
            == INVALID_SERVICE@),
        h matches ServiceHeader::Text(name) ==> (r matches Routing::Dispatch { call_key } && call_key
            == name),
{
    match h {
        ServiceHeader::Missing => Routing::Reply { status: 400, body: String::from_str(MISSING_SERVICE) },
        ServiceHeader::NotText => Routing::Reply { status: 400, body: String::from_str(INVALID_SERVICE) },
        ServiceHeader::Text(name) => Routing::Dispatch { call_key: name },
    }
}

} // verus!
