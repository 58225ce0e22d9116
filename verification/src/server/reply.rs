use vstd::prelude::*;
use vstd::string::StringExecFns;

verus! {

/// The body of a reply.
#[derive(Debug)]
pub enum ReplyBody {
    Text(String),
    Binary(Vec<u8>),
}

/// One HTTP reply, whole: nothing of it is sent before all of it is known.
#[derive(Debug)]
pub struct HttpReply {
    pub status: u16,
    pub content_type: String,
    pub body: ReplyBody,
}

/// A body in specifications.
pub enum BodyView {
    Text(Seq<char>),
    Binary(Seq<u8>),
}

/// A reply in specifications.
pub struct ReplyView {
    pub status: u16,
    pub content_type: Seq<char>,
    pub body: BodyView,
}

impl View for ReplyBody {
    type V = BodyView;

    open spec fn view(&self) -> BodyView {
        match self {
            ReplyBody::Text(text) => BodyView::Text(text@),
            ReplyBody::Binary(bytes) => BodyView::Binary(bytes@),
        }
    }
}

impl View for HttpReply {
    type V = ReplyView;

    open spec fn view(&self) -> ReplyView {
        ReplyView { status: self.status, content_type: self.content_type@, body: self.body@ }
    }
}

/// The content type of a columnar stream.
pub open spec fn arrow_stream_type() -> Seq<char> {
    "application/vnd.apache.arrow.stream"@
}

/// The content type of a JSON body.
pub open spec fn json_type() -> Seq<char> {
    "application/json"@
}

/// The content type of a plain-text body.
pub open spec fn plain_text_type() -> Seq<char> {
    "text/plain; charset=utf-8"@
}

/// `200` with a columnar stream as its body.
pub open spec fn ok_stream(bytes: Seq<u8>) -> ReplyView {
    ReplyView { status: 200, content_type: arrow_stream_type(), body: BodyView::Binary(bytes) }
}

/// `200` with a JSON text as its body.
pub open spec fn ok_json(text: Seq<char>) -> ReplyView {
    ReplyView { status: 200, content_type: json_type(), body: BodyView::Text(text) }
}

/// `200` with a file's bytes under the given content type.
pub open spec fn ok_asset(content_type: Seq<char>, bytes: Seq<u8>) -> ReplyView {
    ReplyView { status: 200, content_type, body: BodyView::Binary(bytes) }
}

/// `500` with a plain-text message.
pub open spec fn server_error(message: Seq<char>) -> ReplyView {
    ReplyView { status: 500, content_type: plain_text_type(), body: BodyView::Text(message) }
}

/// `404` with its plain-text message.
pub open spec fn not_found() -> ReplyView {
    ReplyView {
        status: 404,
        content_type: plain_text_type(),
        body: BodyView::Text("404 Not Found"@),
    }
}

impl HttpReply {
    /// `200` with a columnar stream as its body.
    pub fn stream(bytes: Vec<u8>) -> (reply: HttpReply)
        ensures
            reply@ == ok_stream(bytes@),
    {
        HttpReply {
            status: 200,
            content_type: String::from_str("application/vnd.apache.arrow.stream"),
            body: ReplyBody::Binary(bytes),
        }
    }

    /// `200` with a JSON text as its body.
    pub fn json(text: String) -> (reply: HttpReply)
        ensures
            reply@ == ok_json(text@),
    {
        HttpReply {
            status: 200,
            content_type: String::from_str("application/json"),
            body: ReplyBody::Text(text),
        }
    }

    /// `200` with a file's bytes under the given content type.
    pub fn asset(content_type: String, bytes: Vec<u8>) -> (reply: HttpReply)
        ensures
            reply@ == ok_asset(content_type@, bytes@),
    {
        HttpReply { status: 200, content_type, body: ReplyBody::Binary(bytes) }
    }

    /// `500` with a plain-text message.
    pub fn failure(message: &str) -> (reply: HttpReply)
        ensures
            reply@ == server_error(message@),
    {
        HttpReply {
            status: 500,
            content_type: String::from_str("text/plain; charset=utf-8"),
            body: ReplyBody::Text(String::from_str(message)),
        }
    }

    /// `404` with its plain-text message.
    pub fn missing() -> (reply: HttpReply)
        ensures
            reply@ == not_found(),
    {
        HttpReply {
            status: 404,
            content_type: String::from_str("text/plain; charset=utf-8"),
            body: ReplyBody::Text(String::from_str("404 Not Found")),
        }
    }
}

} // verus!
