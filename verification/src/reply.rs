use vstd::prelude::*;
use crate::types::{BackendConfig, BackendConfigView, JSONResponse, JSONResponseView};

verus! {

pub const STATUS_OK: u16 = 200;
pub const STATUS_CREATED: u16 = 201;
pub const STATUS_TEMPORARY_REDIRECT: u16 = 307;
pub const STATUS_PERMANENT_REDIRECT: u16 = 308;
pub const STATUS_BAD_REQUEST: u16 = 400;
pub const STATUS_UNAUTHORIZED: u16 = 401;
pub const STATUS_NOT_FOUND: u16 = 404;
pub const STATUS_INTERNAL_SERVER_ERROR: u16 = 500;

/// What a reply carries.
pub enum Body {
    /// Plain text.
    Text(String),
    /// A `JSONResponse`, serialised.
    Json(JSONResponse),
    /// The backend configuration, serialised.
    Config(BackendConfig),
    /// Text that already is JSON, sent with a JSON content type.
    JsonText(String),
    /// A redirect to the given location.
    Redirect(String),
    /// The site's not-found page.
    NotFoundPage,
}

/// An HTTP reply: a status code and a body.
pub struct Reply {
    pub status: u16,
    pub body: Body,
}

/// What a reply carries, as plain values.
pub enum BodyView {
    Text(Seq<char>),
    Json(JSONResponseView),
    Config(BackendConfigView),
    JsonText(Seq<char>),
    Redirect(Seq<char>),
    NotFoundPage,
}

/// A reply as plain values.
pub struct ReplyView {
    pub status: u16,
    pub body: BodyView,
}

impl View for Body {
    type V = BodyView;

    open spec fn view(&self) -> BodyView {
        match self {
            Body::Text(s) => BodyView::Text(s@),
            Body::Json(j) => BodyView::Json(j@),
            Body::Config(c) => BodyView::Config(c@),
            Body::JsonText(s) => BodyView::JsonText(s@),
            Body::Redirect(s) => BodyView::Redirect(s@),
            Body::NotFoundPage => BodyView::NotFoundPage,
        }
    }
}

impl View for Reply {
    type V = ReplyView;

    open spec fn view(&self) -> ReplyView {
        ReplyView { status: self.status, body: self.body@ }
    }
}

/// A plain-text reply.
pub open spec fn text_reply(status: u16, text: Seq<char>) -> ReplyView {
    ReplyView { status, body: BodyView::Text(text) }
}

/// A JSON reply with the given flags and reason.
pub open spec fn json_reply(status: u16, success: bool, reason: Seq<char>) -> ReplyView {
    ReplyView {
        status,
        body: BodyView::Json(JSONResponseView { success, error: !success, reason }),
    }
}

/// A JSON reply that carries the given body.
pub open spec fn json_body_reply(status: u16, body: JSONResponseView) -> ReplyView {
    ReplyView { status, body: BodyView::Json(body) }
}

/// Builds a plain-text reply.
pub fn text(status: u16, s: String) -> (r: Reply)
    ensures
        r@ == text_reply(status, s@),
{
    Reply { status, body: Body::Text(s) }
}

/// Builds a JSON reply whose error flag is the opposite of its success flag.
pub fn json(status: u16, success: bool, reason: String) -> (r: Reply)
    ensures
        r@ == json_reply(status, success, reason@),
{
    Reply { status, body: Body::Json(JSONResponse { success, error: !success, reason }) }
}

} // verus!
