use vstd::prelude::*;
use vstd::utf8::encode_utf8;
use crate::reply::{content_type_name, header_line, Header, Reply, ReplyView};

verus! {

/// The upload form served at `GET /`; it posts the chosen file to `/dl`.
pub const UPLOAD_FORM: &'static str = "<!DOCTYPE html><html><body>
                <!-- form to submit a file -->
                <h1>Upload een URLLink.acsm bestand</h1>
                <form action=\"/dl\" method=\"post\" enctype=\"multipart/form-data\">
                    <input type=\"file\" name=\"file_upload\">
                    <button type=\"submit\">Submit</button>
                </form>
            </body></html>";

pub open spec fn form_reply() -> ReplyView {
    ReplyView {
        status: 200,
        headers: seq![(content_type_name(), "text/html"@)],
        body: encode_utf8(UPLOAD_FORM@),
    }
}

/// `part` occurs in `text` as one contiguous run.
pub open spec fn contains(text: Seq<char>, part: Seq<char>) -> bool {
    exists|i: int|
        0 <= i && i + part.len() <= text.len() && #[trigger] text.subrange(i, i + part.len()) == part
}

/// The upload form is sent with `POST` to `/dl`.
pub proof fn lemma_form_posts_to_dl()
    ensures
        contains(UPLOAD_FORM@, "action=\"/dl\" method=\"post\""@),
{
    let part = "action=\"/dl\" method=\"post\""@;
    // Verus opens a literal's characters only when handed the literal itself.
    reveal_strlit("action=\"/dl\" method=\"post\"");
    reveal_strlit("<!DOCTYPE html><html><body>
                <!-- form to submit a file -->
                <h1>Upload een URLLink.acsm bestand</h1>
                <form action=\"/dl\" method=\"post\" enctype=\"multipart/form-data\">
                    <input type=\"file\" name=\"file_upload\">
                    <button type=\"submit\">Submit</button>
                </form>
            </body></html>");
    assert(UPLOAD_FORM@.subrange(154, 154 + part.len() as int) =~= part);
}

/// The reply to `GET /`: the upload form, always with status 200.
pub fn root() -> (r: Reply)
    ensures
        r@ == form_reply(),
{
    let mut headers: Vec<Header> = Vec::new();
    headers.push(header_line("content-type", "text/html"));
    let r = Reply { status: 200, headers, body: UPLOAD_FORM.as_bytes_vec() };
    assert(r@.headers =~= form_reply().headers);
    r
}

} // verus!
