//! Responses as plain values: a status, a set of headers and a body of JSON
//! text.

use crate::error::{AppError, ErrorView};
use vstd::prelude::*;
use vstd::string::StringExecFns;

verus! {

/// The status codes this service answers with.
#[derive(Debug, Clone, Copy, PartialEq, Eq, Structural)]
pub enum Status {
    Success,
    NoContent,
    BadRequest,
    Unauthorized,
    MethodNotAllowed,
    InternalServerError,
    BadGateway,
}

impl Status {
    /// The number sent on the wire.
    pub open spec fn spec_code(self) -> u16 {
        match self {
            Status::Success => 200,
            Status::NoContent => 204,
            Status::BadRequest => 400,
            Status::Unauthorized => 401,
            Status::MethodNotAllowed => 405,
            Status::InternalServerError => 500,
            Status::BadGateway => 502,
        }
    }

    /// The number sent on the wire.
    #[verifier::when_used_as_spec(spec_code)]
    pub fn code(self) -> (code: u16)
        ensures
            code == self.spec_code(),
    {
        match self {
            Status::Success => 200,
            Status::NoContent => 204,
            Status::BadRequest => 400,
            Status::Unauthorized => 401,
            Status::MethodNotAllowed => 405,
            Status::InternalServerError => 500,
            Status::BadGateway => 502,
        }
    }
}

/// The response headers this service sets.
#[derive(Debug, Clone, Copy, PartialEq, Eq, Structural)]
pub enum HeaderName {
    Allow,
    ContentType,
    AccessControlAllowOrigin,
    AccessControlAllowMethods,
    AccessControlAllowHeaders,
    AccessControlMaxAge,
}

impl HeaderName {
    /// The name as it is written in a response.
    pub open spec fn text(self) -> Seq<char> {
        match self {
            HeaderName::Allow => "Allow"@,
            HeaderName::ContentType => "Content-Type"@,
            HeaderName::AccessControlAllowOrigin => "Access-Control-Allow-Origin"@,
            HeaderName::AccessControlAllowMethods => "Access-Control-Allow-Methods"@,
            HeaderName::AccessControlAllowHeaders => "Access-Control-Allow-Headers"@,
            HeaderName::AccessControlMaxAge => "Access-Control-Max-Age"@,
        }
    }

    /// The name as it is written in a response.
    pub fn as_str(self) -> (name: &'static str)
        ensures
            name@ == self.text(),
    {
        match self {
            HeaderName::Allow => "Allow",
            HeaderName::ContentType => "Content-Type",
            HeaderName::AccessControlAllowOrigin => "Access-Control-Allow-Origin",
            HeaderName::AccessControlAllowMethods => "Access-Control-Allow-Methods",
            HeaderName::AccessControlAllowHeaders => "Access-Control-Allow-Headers",
            HeaderName::AccessControlMaxAge => "Access-Control-Max-Age",
        }
    }
}

/// One header of a response.
#[derive(Debug, Clone, PartialEq, Eq)]
pub struct Header {
    pub name: HeaderName,
    pub value: String,
}

/// What a list of headers amounts to: for each name the value of the last
/// entry that carries it.
pub open spec fn header_map(headers: Seq<Header>) -> Map<HeaderName, Seq<char>>
    decreases headers.len(),
{
    if headers.len() == 0 {
        Map::empty()
    } else {
        header_map(headers.drop_last()).insert(headers.last().name, headers.last().value@)
    }
}

/// The entries of `headers` that carry another name than `name`, in order.
pub open spec fn without_name(headers: Seq<Header>, name: HeaderName) -> Seq<Header> {
    headers.filter(|header: Header| header.name != name)
}

/// The value of a JSON field: a text or a list of texts.
#[derive(Debug, Clone, PartialEq, Eq)]
pub enum JsonValue {
    Text(String),
    List(Vec<String>),
}

/// A `JsonValue` over character sequences.
pub enum ValueView {
    Text(Seq<char>),
    List(Seq<Seq<char>>),
}

impl View for JsonValue {
    type V = ValueView;

    open spec fn view(&self) -> ValueView {
        match self {
            JsonValue::Text(text) => ValueView::Text(text@),
            JsonValue::List(items) => ValueView::List(items.deep_view()),
        }
    }
}

/// One field of a JSON object.
#[derive(Debug, Clone, PartialEq, Eq)]
pub struct JsonField {
    pub key: String,
    pub value: JsonValue,
}

/// A `JsonField` over character sequences.
pub struct FieldView {
    pub key: Seq<char>,
    pub value: ValueView,
}

impl View for JsonField {
    type V = FieldView;

    open spec fn view(&self) -> FieldView {
        FieldView { key: self.key@, value: self.value@ }
    }
}

/// The fields of a JSON object in order, each by its view.
pub open spec fn field_views(fields: Seq<JsonField>) -> Seq<FieldView> {
    Seq::new(fields.len(), |i: int| fields[i]@)
}

/// A field whose value is a text.
pub open spec fn text_field(key: Seq<char>, value: Seq<char>) -> FieldView {
    FieldView { key, value: ValueView::Text(value) }
}

/// A field whose value is a list of texts.
pub open spec fn list_field(key: Seq<char>, items: Seq<Seq<char>>) -> FieldView {
    FieldView { key, value: ValueView::List(items) }
}

/// The compact JSON text that `serde_json` writes for the object built by
/// setting these fields in order.
pub uninterp spec fn json_text(fields: Seq<FieldView>) -> Seq<char>;

/// The body of a response.
#[derive(Debug, Clone, PartialEq, Eq)]
pub enum Body {
    /// Nothing is sent.
    Empty,
    /// This text is sent.
    Text(String),
}

/// A `Body` over character sequences.
pub enum BodyView {
    Empty,
    Text(Seq<char>),
}

impl View for Body {
    type V = BodyView;

    open spec fn view(&self) -> BodyView {
        match self {
            Body::Empty => BodyView::Empty,
            Body::Text(text) => BodyView::Text(text@),
        }
    }
}

/// A response ready to be handed to the runtime. The headers are set in list
/// order, so that a later entry of a name overrides an earlier one.
#[derive(Debug, Clone, PartialEq, Eq)]
pub struct HttpResponse {
    pub status: Status,
    pub headers: Vec<Header>,
    pub body: Body,
}

/// A response by what it says: its status, the value of each header it sets
/// and its body.
pub struct ResponseView {
    pub status: Status,
    pub headers: Map<HeaderName, Seq<char>>,
    pub body: BodyView,
}

impl View for HttpResponse {
    type V = ResponseView;

    open spec fn view(&self) -> ResponseView {
        ResponseView {
            status: self.status,
            headers: header_map(self.headers@),
            body: self.body@,
        }
    }
}

/// Adding a header at the end sets its name to its value.
pub proof fn lemma_header_map_push(headers: Seq<Header>, header: Header)
    ensures
        header_map(headers.push(header)) == header_map(headers).insert(
            header.name,
            header.value@,
        ),
{
    assert(headers.push(header).drop_last() =~= headers);
}

impl HttpResponse {
    /// Sets `name` to `value`, in place of whatever it was set to before:
    /// every entry of that name is dropped and one entry is added at the end.
    /// Every other header, the status and the body stay as they are.
    pub fn set_header(&mut self, name: HeaderName, value: String)
        ensures
            final(self).status == old(self).status,
            final(self).body == old(self).body,
            final(self).headers@ == without_name(old(self).headers@, name).push(
                Header { name, value },
            ),
            final(self)@.headers == old(self)@.headers.insert(name, value@),
    {
        let mut kept: Vec<Header> = Vec::new();
        let mut i: usize = 0;
        proof {
            reveal(Seq::filter);
            assert(self.headers@.take(0) =~= Seq::<Header>::empty());
        }
        while i < self.headers.len()
            invariant
                i <= self.headers.len(),
                *self == *old(self),
                kept@ == without_name(self.headers@.take(i as int), name),
                header_map(kept@) == header_map(self.headers@.take(i as int)).remove(name),
            decreases self.headers.len() - i,
        {
            let ghost seen = self.headers@.take(i as int);
            let ghost current = self.headers@[i as int];
            proof {
                assert(self.headers@.take(i + 1) =~= seen.push(current));
                lemma_header_map_push(seen, current);
                seen.lemma_filter_push(current, |header: Header| header.name != name);
            }
            if self.headers[i].name != name {
                let copy = Header {
                    name: self.headers[i].name,
                    value: self.headers[i].value.clone(),
                };
                proof {
                    assert(copy == current);
                    lemma_header_map_push(kept@, copy);
                    assert(header_map(seen).remove(name).insert(current.name, current.value@)
                        =~= header_map(seen).insert(current.name, current.value@).remove(name));
                }
                kept.push(copy);
            } else {
                proof {
                    assert(header_map(seen).insert(current.name, current.value@).remove(name)
                        =~= header_map(seen).remove(name));
                }
            }
            i = i + 1;
        }
        proof {
            assert(self.headers@.take(self.headers.len() as int) =~= self.headers@);
            lemma_header_map_push(kept@, Header { name, value });
            assert(header_map(self.headers@).remove(name).insert(name, value@) =~= header_map(
                self.headers@,
            ).insert(name, value@));
        }
        kept.push(Header { name, value });
        self.headers = kept;
    }

    /// The value `name` is set to, if it is set.
    pub fn header(&self, name: HeaderName) -> (value: Option<&String>)
        ensures
            match value {
                Some(text) => self@.headers.contains_key(name) && self@.headers[name] == text@,
                None => !self@.headers.contains_key(name),
            },
    {
        let mut i: usize = self.headers.len();
        proof {
            assert(self.headers@.take(i as int) =~= self.headers@);
        }
        while i > 0
            invariant
                i <= self.headers.len(),
                self@.headers.contains_key(name) <==> header_map(
                    self.headers@.take(i as int),
                ).contains_key(name),
                self@.headers.contains_key(name) ==> self@.headers[name] == header_map(
                    self.headers@.take(i as int),
                )[name],
            decreases i,
        {
            let ghost seen = self.headers@.take(i - 1);
            proof {
                assert(self.headers@.take(i as int) =~= seen.push(self.headers@[i - 1]));
                lemma_header_map_push(seen, self.headers@[i - 1]);
            }
            i = i - 1;
            if self.headers[i].name == name {
                return Some(&self.headers[i].value);
            }
        }
        None
    }
}

/// The reply with the given status and body text: nothing is set but the
/// content type, which says JSON.
pub open spec fn text_reply(status: Status, body: Seq<char>) -> ResponseView {
    ResponseView {
        status,
        headers: Map::<HeaderName, Seq<char>>::empty().insert(
            HeaderName::ContentType,
            "application/json"@,
        ),
        body: BodyView::Text(body),
    }
}

/// The JSON reply with the given status and fields.
pub open spec fn json_reply(status: Status, fields: Seq<FieldView>) -> ResponseView {
    text_reply(status, json_text(fields))
}

/// Writes the object with these fields as JSON text. The object is filled
/// through `serde_json::Map::insert`, one field after the other, and written
/// by `to_string` on the `serde_json::Value` that holds it. The text depends
/// on the fields alone, and writing texts and lists of texts cannot fail;
/// what the text is, is left to `json_text`.
#[verifier::external_body]
fn render(fields: &Vec<JsonField>) -> (text: String)
    ensures
        text@ == json_text(field_views(fields@)),
{
    let mut object = serde_json::Map::new();
    for field in fields {
        let value = match &field.value {
            JsonValue::Text(text) => serde_json::Value::from(text.as_str()),
            JsonValue::List(items) => serde_json::Value::from(items.clone()),
        };
        object.insert(field.key.clone(), value);
    }
    serde_json::Value::Object(object).to_string()
}

/// Builds the reply with the given status and body, marked as JSON.
pub fn text_response(status: Status, body: String) -> (response: HttpResponse)
    ensures
        response@ == text_reply(status, body@),
{
    let mut headers: Vec<Header> = Vec::new();
    let content_type = Header {
        name: HeaderName::ContentType,
        value: String::from_str("application/json"),
    };
    proof {
        lemma_header_map_push(headers@, content_type);
    }
    headers.push(content_type);
    HttpResponse { status, headers, body: Body::Text(body) }
}

/// Builds the JSON reply with the given status and fields.
pub fn json_response(status: Status, fields: Vec<JsonField>) -> (response: HttpResponse)
    ensures
        response@ == json_reply(status, field_views(fields@)),
{
    text_response(status, render(&fields))
}

/// The status an error is answered with.
pub open spec fn error_status(error: ErrorView) -> Status {
    match error {
        ErrorView::Validation(_) => Status::BadRequest,
        ErrorView::Unauthorized => Status::Unauthorized,
        ErrorView::External(_) => Status::BadGateway,
        ErrorView::Other(_) => Status::InternalServerError,
    }
}

/// The JSON fields an error is answered with: a short tag and, where the
/// error has one, its detail.
pub open spec fn error_fields(error: ErrorView) -> Seq<FieldView> {
    match error {
        ErrorView::Validation(detail) => seq![
            text_field("error"@, "Validation"@),
            text_field("detail"@, detail),
        ],
        ErrorView::Unauthorized => seq![text_field("error"@, "Unauthorized"@)],
        ErrorView::External(detail) => seq![
            text_field("error"@, "Upstream"@),
            text_field("detail"@, detail),
        ],
        ErrorView::Other(detail) => seq![
            text_field("error"@, "Internal"@),
            text_field("detail"@, detail),
        ],
    }
}

impl JsonField {
    /// A field whose value is the text `value`.
    pub fn text(key: &str, value: String) -> (field: JsonField)
        ensures
            field@ == text_field(key@, value@),
    {
        JsonField { key: String::from_str(key), value: JsonValue::Text(value) }
    }

    /// A field whose value is the list `items`.
    pub fn list(key: &str, items: Vec<String>) -> (field: JsonField)
        ensures
            field@ == list_field(key@, items.deep_view()),
    {
        JsonField { key: String::from_str(key), value: JsonValue::List(items) }
    }
}

/// The object with the one field `error`, set to `tag`.
pub fn tagged(tag: &str) -> (fields: Vec<JsonField>)
    ensures
        field_views(fields@) == seq![text_field("error"@, tag@)],
{
    let mut fields: Vec<JsonField> = Vec::new();
    fields.push(JsonField::text("error", String::from_str(tag)));
    assert(field_views(fields@) =~= seq![text_field("error"@, tag@)]);
    fields
}

/// The object with the field `error`, set to `tag`, and the field `detail`.
pub fn tagged_with_detail(tag: &str, detail: String) -> (fields: Vec<JsonField>)
    ensures
        field_views(fields@) == seq![text_field("error"@, tag@), text_field("detail"@, detail@)],
{
    let mut fields: Vec<JsonField> = Vec::new();
    fields.push(JsonField::text("error", String::from_str(tag)));
    fields.push(JsonField::text("detail", detail));
    assert(field_views(fields@) =~= seq![
        text_field("error"@, tag@),
        text_field("detail"@, detail@),
    ]);
    fields
}

/// The object with the field `error`, set to `tag`, and the field `issues`.
pub fn tagged_with_issues(tag: &str, issues: Vec<String>) -> (fields: Vec<JsonField>)
    ensures
        field_views(fields@) == seq![
            text_field("error"@, tag@),
            list_field("issues"@, issues.deep_view()),
        ],
{
    let mut fields: Vec<JsonField> = Vec::new();
    fields.push(JsonField::text("error", String::from_str(tag)));
    fields.push(JsonField::list("issues", issues));
    assert(field_views(fields@) =~= seq![
        text_field("error"@, tag@),
        list_field("issues"@, issues.deep_view()),
    ]);
    fields
}

/// The object with the one field `answer`.
pub fn answered(answer: String) -> (fields: Vec<JsonField>)
    ensures
        field_views(fields@) == seq![text_field("answer"@, answer@)],
{
    let mut fields: Vec<JsonField> = Vec::new();
    fields.push(JsonField::text("answer", answer));
    assert(field_views(fields@) =~= seq![text_field("answer"@, answer@)]);
    fields
}

/// Maps an error to the status and the JSON fields it is answered with.
pub fn error_response(error: &AppError) -> (reply: (Status, Vec<JsonField>))
    ensures
        reply.0 == error_status(error@),
        field_views(reply.1@) == error_fields(error@),
{
    match error {
        AppError::Validation(detail) => (
            Status::BadRequest,
            tagged_with_detail("Validation", detail.clone()),
        ),
        AppError::Unauthorized => (Status::Unauthorized, tagged("Unauthorized")),
        AppError::External(detail) => (
            Status::BadGateway,
            tagged_with_detail("Upstream", detail.clone()),
        ),
        AppError::Other(detail) => (
            Status::InternalServerError,
            tagged_with_detail("Internal", detail.clone()),
        ),
    }
}

} // verus!
