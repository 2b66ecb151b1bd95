//! The cross-origin headers every response carries.

use crate::http::response::{HeaderName, HttpResponse, ResponseView};
use vstd::prelude::*;
use vstd::string::StringExecFns;

verus! {

/// `headers` with the four cross-origin headers set to their fixed values.
pub open spec fn with_cors(headers: Map<HeaderName, Seq<char>>) -> Map<HeaderName, Seq<char>> {
    headers.insert(HeaderName::AccessControlAllowOrigin, "*"@).insert(
        HeaderName::AccessControlAllowMethods,
        "POST,OPTIONS"@,
    ).insert(HeaderName::AccessControlAllowHeaders, "Content-Type,x-api-key"@).insert(
        HeaderName::AccessControlMaxAge,
        "86400"@,
    )
}

/// `response` with the four cross-origin headers set.
pub open spec fn cors_reply(response: ResponseView) -> ResponseView {
    ResponseView {
        status: response.status,
        headers: with_cors(response.headers),
        body: response.body,
    }
}

/// The four cross-origin headers are set, each to its fixed value.
pub open spec fn has_cors(response: ResponseView) -> bool {
    &&& response.headers.contains_key(HeaderName::AccessControlAllowOrigin)
    &&& response.headers[HeaderName::AccessControlAllowOrigin] == "*"@
    &&& response.headers.contains_key(HeaderName::AccessControlAllowMethods)
    &&& response.headers[HeaderName::AccessControlAllowMethods] == "POST,OPTIONS"@
    &&& response.headers.contains_key(HeaderName::AccessControlAllowHeaders)
    &&& response.headers[HeaderName::AccessControlAllowHeaders] == "Content-Type,x-api-key"@
    &&& response.headers.contains_key(HeaderName::AccessControlMaxAge)
    &&& response.headers[HeaderName::AccessControlMaxAge] == "86400"@
}

/// Sets the four cross-origin headers and leaves everything else as it is.
pub fn add_cors(response: HttpResponse) -> (reply: HttpResponse)
    ensures
        reply@ == cors_reply(response@),
{
    let mut reply = response;
    reply.set_header(HeaderName::AccessControlAllowOrigin, String::from_str("*"));
    reply.set_header(HeaderName::AccessControlAllowMethods, String::from_str("POST,OPTIONS"));
    reply.set_header(
        HeaderName::AccessControlAllowHeaders,
        String::from_str("Content-Type,x-api-key"),
    );
    reply.set_header(HeaderName::AccessControlMaxAge, String::from_str("86400"));
    reply
}

/// Whatever a response held, it carries the cross-origin headers once they
/// are added, and adding them again changes nothing.
pub proof fn lemma_cors_added_once(response: ResponseView)
    ensures
        has_cors(cors_reply(response)),
        cors_reply(cors_reply(response)) == cors_reply(response),
        cors_reply(response).status == response.status,
        cors_reply(response).body == response.body,
{
    assert(with_cors(with_cors(response.headers)) =~= with_cors(response.headers));
}

} // verus!
