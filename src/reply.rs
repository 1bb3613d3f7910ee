use vstd::prelude::*;

verus! {

/// One header line of an HTTP reply.
pub struct Header {
    pub name: String,
    pub value: String,
}

/// An HTTP reply as plain values: status code, header lines in order, body bytes.
pub struct Reply {
    pub status: u16,
    pub headers: Vec<Header>,
    pub body: Vec<u8>,
}

/// The mathematical model of a `Reply`.
pub struct ReplyView {
    pub status: u16,
    pub headers: Seq<(Seq<char>, Seq<char>)>,
    pub body: Seq<u8>,
}

impl View for Header {
    type V = (Seq<char>, Seq<char>);

    open spec fn view(&self) -> (Seq<char>, Seq<char>) {
        (self.name@, self.value@)
    }
}

impl View for Reply {
    type V = ReplyView;

    open spec fn view(&self) -> ReplyView {
        ReplyView {
            status: self.status,
            headers: self.headers@.map_values(|h: Header| h@),
            body: self.body@,
        }
    }
}

pub open spec fn content_type_name() -> Seq<char> {
    "content-type"@
}

/// A plain-text error reply carrying `message` as its body.
pub open spec fn text_reply(status: u16, message: Seq<u8>) -> ReplyView {
    ReplyView {
        status,
        headers: seq![(content_type_name(), "text/plain; charset=utf-8"@)],
        body: message,
    }
}

pub(crate) fn header_line(name: &str, value: &str) -> (h: Header)
    ensures
        h@ == (name@, value@),
{
    Header { name: name.to_owned(), value: value.to_owned() }
}

/// Builds a plain-text reply with the given status and body.
pub fn text(status: u16, message: Vec<u8>) -> (r: Reply)
    ensures
        r@ == text_reply(status, message@),
{
    let mut headers: Vec<Header> = Vec::new();
    headers.push(header_line("content-type", "text/plain; charset=utf-8"));
    let r = Reply { status, headers, body: message };
    assert(r@.headers =~= seq![(content_type_name(), "text/plain; charset=utf-8"@)]);
    r
}

} // verus!
