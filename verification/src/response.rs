//! What a handler of the control protocol answers.

use vstd::prelude::*;

verus! {

/// How long a client may keep an image it fetched, in seconds: one day.
pub const IMAGE_MAX_AGE_SECS: u32 = 86400;

/// The outcome class of a request.
#[derive(Clone, Copy, Debug, PartialEq, Eq, Structural)]
pub enum Status {
    /// The request was served.
    Served,
    /// The request is malformed or names nothing selectable.
    BadRequest,
    /// The requested path leaves the resource directory.
    Forbidden,
    /// The requested file is absent.
    NotFound,
    /// The request body is over the size limit.
    PayloadTooLarge,
    /// The resource directory, or a file in it, could not be read.
    InternalError,
    /// The service is not serving yet: the handoff has not happened.
    Unavailable,
}

impl Status {
    /// The HTTP status code that stands for this status.
    pub open spec fn spec_code(self) -> u16 {
        match self {
            Status::Served => 200,
            Status::BadRequest => 400,
            Status::Forbidden => 403,
            Status::NotFound => 404,
            Status::PayloadTooLarge => 413,
            Status::InternalError => 500,
            Status::Unavailable => 503,
        }
    }

    /// The client is at fault: the code is in the 4xx class.
    pub open spec fn spec_is_client_error(self) -> bool {
        400 <= self.spec_code() < 500
    }

    /// The HTTP status code that stands for this status.
    pub fn code(self) -> (code: u16)
        ensures
            code == self.spec_code(),
    {
        match self {
            Status::Served => 200,
            Status::BadRequest => 400,
            Status::Forbidden => 403,
            Status::NotFound => 404,
            Status::PayloadTooLarge => 413,
            Status::InternalError => 500,
            Status::Unavailable => 503,
        }
    }

    /// Whether the client is at fault.
    pub fn is_client_error(self) -> (b: bool)
        ensures
            b == self.spec_is_client_error(),
    {
        let code: u16 = self.code();
        400 <= code && code < 500
    }
}

/// The payload of a response.
#[derive(Debug, PartialEq, Eq)]
pub enum Body {
    /// No payload.
    Empty,
    /// Plain text.
    Text(String),
    /// An HTML document.
    Html(String),
    /// The raw bytes of a PNG image.
    Png(Vec<u8>),
}

/// A payload as mathematics.
pub enum BodyView {
    Empty,
    Text(Seq<char>),
    Html(Seq<char>),
    Png(Seq<u8>),
}

impl View for Body {
    type V = BodyView;

    open spec fn view(&self) -> BodyView {
        match self {
            Body::Empty => BodyView::Empty,
            Body::Text(text) => BodyView::Text(text@),
            Body::Html(page) => BodyView::Html(page@),
            Body::Png(bytes) => BodyView::Png(bytes@),
        }
    }
}

/// A response of the control protocol.
#[derive(Debug, PartialEq, Eq)]
pub struct Response {
    /// The outcome class.
    pub status: Status,
    /// The payload.
    pub body: Body,
    /// For how many seconds the client may cache the payload, if at all.
    pub max_age: Option<u32>,
}

/// A response as mathematics.
pub struct ResponseView {
    pub status: Status,
    pub body: BodyView,
    pub max_age: Option<u32>,
}

impl View for Response {
    type V = ResponseView;

    open spec fn view(&self) -> ResponseView {
        ResponseView { status: self.status, body: self.body@, max_age: self.max_age }
    }
}

/// A refusal or failure: the status alone, nothing to cache.
pub open spec fn spec_failure(status: Status) -> ResponseView {
    ResponseView { status, body: BodyView::Empty, max_age: None }
}

/// The acknowledgement of an accepted command: the text `OK`.
pub open spec fn spec_acknowledged() -> ResponseView {
    ResponseView { status: Status::Served, body: BodyView::Text(seq!['O', 'K']), max_age: None }
}

/// A served page.
pub open spec fn spec_page_served(page: Seq<char>) -> ResponseView {
    ResponseView { status: Status::Served, body: BodyView::Html(page), max_age: None }
}

/// A served image, which the client may cache for a day.
pub open spec fn spec_image_served(bytes: Seq<u8>) -> ResponseView {
    ResponseView {
        status: Status::Served,
        body: BodyView::Png(bytes),
        max_age: Some(IMAGE_MAX_AGE_SECS),
    }
}

impl Response {
    /// A refusal or failure with the given status.
    pub fn failure(status: Status) -> (response: Response)
        ensures
            response@ == spec_failure(status),
    {
        Response { status, body: Body::Empty, max_age: None }
    }

    /// The acknowledgement of an accepted command.
    pub fn acknowledged() -> (response: Response)
        ensures
            response@ == spec_acknowledged(),
    {
        proof {
            reveal_strlit("OK");
        }
        let text = "OK".to_owned();
        assert(text@ =~= seq!['O', 'K']);
        Response { status: Status::Served, body: Body::Text(text), max_age: None }
    }

    /// A served page.
    pub fn page(page: String) -> (response: Response)
        ensures
            response@ == spec_page_served(page@),
    {
        Response { status: Status::Served, body: Body::Html(page), max_age: None }
    }

    /// A served image.
    pub fn image(bytes: Vec<u8>) -> (response: Response)
        ensures
            response@ == spec_image_served(bytes@),
    {
        Response { status: Status::Served, body: Body::Png(bytes), max_age: Some(IMAGE_MAX_AGE_SECS) }
    }

    /// The value of the `content-type` header, where the response has a
    /// payload.
    pub fn content_type(&self) -> (value: Option<&'static str>)
        ensures
            value == match self.body {
                Body::Empty => None,
                Body::Text(_) => Some("text/plain; charset=utf-8"),
                Body::Html(_) => Some("text/html; charset=utf-8"),
                Body::Png(_) => Some("image/png"),
            },
    {
        match &self.body {
            Body::Empty => None,
            Body::Text(_) => Some("text/plain; charset=utf-8"),
            Body::Html(_) => Some("text/html; charset=utf-8"),
            Body::Png(_) => Some("image/png"),
        }
    }
}

} // verus!
