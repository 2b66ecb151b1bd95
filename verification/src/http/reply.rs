//! The replies shared by every endpoint: JSON with the cross-origin headers.

use crate::error::{AppError, ErrorView};
use crate::http::cors::{add_cors, cors_reply};
use crate::http::response::{
    error_fields, error_response, error_status, field_views, json_reply, json_response,
    HttpResponse, JsonField, ResponseView, Status,
};
use vstd::prelude::*;

verus! {

/// The JSON reply with the given status and fields, with the cross-origin
/// headers set.
pub fn reply_json(status: Status, fields: Vec<JsonField>) -> (reply: HttpResponse)
    ensures
        reply@ == cors_reply(json_reply(status, field_views(fields@))),
{
    add_cors(json_response(status, fields))
}

/// The reply an error is answered with: its status, its tag and detail as
/// JSON, and the cross-origin headers.
pub open spec fn error_reply(error: ErrorView) -> ResponseView {
    cors_reply(json_reply(error_status(error), error_fields(error)))
}

/// Builds the reply an error is answered with.
pub fn reply_error(error: &AppError) -> (reply: HttpResponse)
    ensures
        reply@ == error_reply(error@),
{
    let (status, fields) = error_response(error);
    reply_json(status, fields)
}

} // verus!
