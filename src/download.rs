use vstd::prelude::*;
use vstd::utf8::{encode_utf8, valid_utf8};
use crate::command::{download_spec, removal_spec, ExitOutcome, Invocation, InvocationView, Layout, LayoutView};
use crate::reply::{content_type_name, header_line, text, text_reply, Header, Reply, ReplyView};

verus! {

/// The point a `POST /dl` request has reached. The steps come strictly one after
/// the other; any failure ends the request with an error reply.
#[derive(PartialEq, Eq, Structural, Clone, Copy, Debug)]
pub enum Stage {
    AwaitingField,
    AwaitingContent,
    AwaitingSave,
    AwaitingDownload,
    AwaitingRemoval,
    AwaitingBook,
    Finished,
}

/// What reading the first field of the multipart body gave.
#[derive(PartialEq, Eq, Structural, Clone, Copy, Debug)]
pub enum FieldOutcome {
    /// The multipart stream could not be read.
    Malformed,
    /// The body holds no field.
    Missing,
    /// A field is there; its content comes next.
    Present,
}

/// How the run of the download tool ended.
pub enum DownloadOutcome {
    /// The program could not be started.
    LaunchFailed,
    /// The program exited; `stdout` is what it wrote to standard output.
    Exited { success: bool, stdout: Vec<u8> },
}

/// What the outside world reports back after performing an `Action`.
pub enum Event {
    FieldRead(FieldOutcome),
    /// The bytes of the field, or `None` when the stream broke off.
    ContentRead(Option<Vec<u8>>),
    /// Whether the license file was written.
    Saved(bool),
    DownloaderRan(DownloadOutcome),
    RemoverRan(ExitOutcome),
    /// The bytes of the book file, or `None` when it could not be read.
    BookRead(Option<Vec<u8>>),
}

/// What the outside world is asked to do next.
pub enum Action {
    ReadField,
    ReadContent,
    WriteFile { path: String, bytes: Vec<u8> },
    Run(Invocation),
    ReadFile { path: String },
    Respond(Reply),
}

pub enum ActionView {
    ReadField,
    ReadContent,
    WriteFile { path: Seq<char>, bytes: Seq<u8> },
    Run(InvocationView),
    ReadFile { path: Seq<char> },
    Respond(ReplyView),
}

impl View for Action {
    type V = ActionView;

    open spec fn view(&self) -> ActionView {
        match self {
            Action::ReadField => ActionView::ReadField,
            Action::ReadContent => ActionView::ReadContent,
            Action::WriteFile { path, bytes } => ActionView::WriteFile { path: path@, bytes: bytes@ },
            Action::Run(inv) => ActionView::Run(inv@),
            Action::ReadFile { path } => ActionView::ReadFile { path: path@ },
            Action::Respond(reply) => ActionView::Respond(reply@),
        }
    }
}

/// The text that the download tool's standard output becomes, as UTF-8 bytes,
/// with each invalid sequence replaced.
pub uninterp spec fn lossy_utf8(bytes: Seq<u8>) -> Seq<u8>;

/// Relies on `String::from_utf8_lossy`: it replaces each invalid UTF-8 sequence
/// with U+FFFD, and hands valid UTF-8 back unchanged.
#[verifier::external_body]
fn utf8_lossy(bytes: &Vec<u8>) -> (r: Vec<u8>)
    ensures
        r@ == lossy_utf8(bytes@),
        valid_utf8(bytes@) ==> r@ == bytes@,
{
    String::from_utf8_lossy(bytes).into_owned().into_bytes()
}

pub open spec fn bad_request(message: &str) -> ReplyView {
    text_reply(400, encode_utf8(message@))
}

pub open spec fn internal_error(message: &str) -> ReplyView {
    text_reply(500, encode_utf8(message@))
}

pub const DOWNLOAD_FAILED_PREFIX: &'static str = "Failed to download book: ";

/// The error reply after the download tool failed and printed `output`.
pub open spec fn download_failed_reply(output: Seq<u8>) -> ReplyView {
    text_reply(500, encode_utf8(DOWNLOAD_FAILED_PREFIX@) + output)
}

pub open spec fn content_disposition_name() -> Seq<char> {
    "content-disposition"@
}

/// The reply that hands out the finished book.
pub open spec fn book_reply(book: Seq<u8>) -> ReplyView {
    ReplyView {
        status: 200,
        headers: seq![
            (content_type_name(), "application/epub+zip"@),
            (content_disposition_name(), "attachment; filename=\"book.epub\""@),
        ],
        body: book,
    }
}

/// Which event each stage waits for.
pub open spec fn accepts(stage: Stage, event: Event) -> bool {
    match event {
        Event::FieldRead(_) => stage == Stage::AwaitingField,
        Event::ContentRead(_) => stage == Stage::AwaitingContent,
        Event::Saved(_) => stage == Stage::AwaitingSave,
        Event::DownloaderRan(_) => stage == Stage::AwaitingDownload,
        Event::RemoverRan(_) => stage == Stage::AwaitingRemoval,
        Event::BookRead(_) => stage == Stage::AwaitingBook,
    }
}

/// The next stage and action after `event`, at a stage that accepts it. The
/// outcome of the removal tool is not looked at: its step is best effort, and a
/// failure there shows only when the book file cannot be read afterwards.
pub open spec fn transition(layout: LayoutView, event: Event) -> (Stage, ActionView) {
    match event {
        Event::FieldRead(FieldOutcome::Malformed) => (
            Stage::Finished,
            ActionView::Respond(bad_request("Failed to read multipart upload")),
        ),
        Event::FieldRead(FieldOutcome::Missing) => (
            Stage::Finished,
            ActionView::Respond(bad_request("No file uploaded")),
        ),
        Event::FieldRead(FieldOutcome::Present) => (Stage::AwaitingContent, ActionView::ReadContent),
        Event::ContentRead(None) => (
            Stage::Finished,
            ActionView::Respond(internal_error("Failed to read file content")),
        ),
        Event::ContentRead(Some(bytes)) => (
            Stage::AwaitingSave,
            ActionView::WriteFile { path: layout.license_path, bytes: bytes@ },
        ),
        Event::Saved(false) => (
            Stage::Finished,
            ActionView::Respond(internal_error("Failed to save uploaded file")),
        ),
        Event::Saved(true) => (Stage::AwaitingDownload, ActionView::Run(download_spec(layout))),
        Event::DownloaderRan(DownloadOutcome::LaunchFailed) => (
            Stage::Finished,
            ActionView::Respond(internal_error("Failed to run epub downloader")),
        ),
        Event::DownloaderRan(DownloadOutcome::Exited { success, stdout }) => if success {
            (Stage::AwaitingRemoval, ActionView::Run(removal_spec(layout)))
        } else {
            (Stage::Finished, ActionView::Respond(download_failed_reply(lossy_utf8(stdout@))))
        },
        Event::RemoverRan(_) => (
            Stage::AwaitingBook,
            ActionView::ReadFile { path: layout.book_path },
        ),
        Event::BookRead(None) => (
            Stage::Finished,
            ActionView::Respond(internal_error("Failed to read the generated book file")),
        ),
        Event::BookRead(Some(book)) => (Stage::Finished, ActionView::Respond(book_reply(book@))),
    }
}

/// The stage reached and the actions asked for, from the start of a request on,
/// after `events` were taken in one by one.
pub open spec fn replay(layout: LayoutView, events: Seq<Event>) -> (Stage, Seq<ActionView>)
    decreases events.len(),
{
    if events.len() == 0 {
        (Stage::AwaitingField, seq![ActionView::ReadField])
    } else {
        let before = replay(layout, events.drop_last());
        let next = transition(layout, events.last());
        (next.0, before.1.push(next.1))
    }
}

/// Each of `events` came at a stage that waited for it.
pub open spec fn in_order(layout: LayoutView, events: Seq<Event>) -> bool
    decreases events.len(),
{
    events.len() == 0 || (in_order(layout, events.drop_last()) && accepts(
        replay(layout, events.drop_last()).0,
        events.last(),
    ))
}

/// The last thing a request asked for.
pub open spec fn last_action(layout: LayoutView, events: Seq<Event>) -> ActionView {
    replay(layout, events).1.last()
}

/// A request whose book file was read ends by handing out exactly those bytes,
/// so two requests whose tools left the same book file get identical replies,
/// whatever upload, paths or tool output came before.
pub proof fn lemma_same_book_same_reply(
    layout1: LayoutView,
    events1: Seq<Event>,
    layout2: LayoutView,
    events2: Seq<Event>,
    book: Seq<u8>,
)
    requires
        in_order(layout1, events1),
        in_order(layout2, events2),
        events1.len() > 0,
        events2.len() > 0,
        events1.last() matches Event::BookRead(Some(b1)) && b1@ == book,
        events2.last() matches Event::BookRead(Some(b2)) && b2@ == book,
    ensures
        last_action(layout1, events1) == ActionView::Respond(book_reply(book)),
        last_action(layout1, events1) == last_action(layout2, events2),
{
}

fn error_reply(status: u16, message: &str) -> (r: Reply)
    ensures
        r@ == text_reply(status, encode_utf8(message@)),
{
    text(status, message.as_bytes_vec())
}

/// The error reply after the download tool failed; `output` is its standard
/// output already turned into UTF-8 text.
pub fn download_failed(output: Vec<u8>) -> (r: Reply)
    ensures
        r@ == download_failed_reply(output@),
{
    let mut body = DOWNLOAD_FAILED_PREFIX.as_bytes_vec();
    let mut rest = output;
    body.append(&mut rest);
    text(500, body)
}

/// The reply that hands out the finished book.
pub fn book(bytes: Vec<u8>) -> (r: Reply)
    ensures
        r@ == book_reply(bytes@),
{
    let mut headers: Vec<Header> = Vec::new();
    headers.push(header_line("content-type", "application/epub+zip"));
    headers.push(header_line("content-disposition", "attachment; filename=\"book.epub\""));
    let r = Reply { status: 200, headers, body: bytes };
    assert(r@.headers =~= book_reply(bytes@).headers);
    r
}

/// One `POST /dl` request in progress.
pub struct Download {
    pub layout: Layout,
    pub stage: Stage,
}

impl Download {
    /// Starts a request over the given paths; the first thing to do is to read
    /// the first multipart field.
    pub fn start(layout: Layout) -> (r: (Download, Action))
        ensures
            r.0.layout@ == layout@,
            r.0.stage == Stage::AwaitingField,
            r.1@ == ActionView::ReadField,
    {
        (Download { layout, stage: Stage::AwaitingField }, Action::ReadField)
    }

    /// Whether `event` is the one the current stage waits for.
    pub fn accepts(&self, event: &Event) -> (r: bool)
        ensures
            r == accepts(self.stage, *event),
    {
        match event {
            Event::FieldRead(_) => self.stage == Stage::AwaitingField,
            Event::ContentRead(_) => self.stage == Stage::AwaitingContent,
            Event::Saved(_) => self.stage == Stage::AwaitingSave,
            Event::DownloaderRan(_) => self.stage == Stage::AwaitingDownload,
            Event::RemoverRan(_) => self.stage == Stage::AwaitingRemoval,
            Event::BookRead(_) => self.stage == Stage::AwaitingBook,
        }
    }

    /// Takes in what the last action gave and says what to do next.
    pub fn step(&mut self, event: Event) -> (a: Action)
        requires
            accepts(old(self).stage, event),
        ensures
            (final(self).stage, a@) == transition(old(self).layout@, event),
            final(self).layout@ == old(self).layout@,
    {
        match event {
            Event::FieldRead(FieldOutcome::Malformed) => {
                self.stage = Stage::Finished;
                Action::Respond(error_reply(400, "Failed to read multipart upload"))
            },
            Event::FieldRead(FieldOutcome::Missing) => {
                self.stage = Stage::Finished;
                Action::Respond(error_reply(400, "No file uploaded"))
            },
            Event::FieldRead(FieldOutcome::Present) => {
                self.stage = Stage::AwaitingContent;
                Action::ReadContent
            },
            Event::ContentRead(None) => {
                self.stage = Stage::Finished;
                Action::Respond(error_reply(500, "Failed to read file content"))
            },
            Event::ContentRead(Some(bytes)) => {
                self.stage = Stage::AwaitingSave;
                Action::WriteFile { path: self.layout.license_path.clone(), bytes }
            },
            Event::Saved(saved) => {
                if saved {
                    self.stage = Stage::AwaitingDownload;
                    Action::Run(self.layout.download_command())
                } else {
                    self.stage = Stage::Finished;
                    Action::Respond(error_reply(500, "Failed to save uploaded file"))
                }
            },
            Event::DownloaderRan(DownloadOutcome::LaunchFailed) => {
                self.stage = Stage::Finished;
                Action::Respond(error_reply(500, "Failed to run epub downloader"))
            },
            Event::DownloaderRan(DownloadOutcome::Exited { success, stdout }) => {
                if success {
                    self.stage = Stage::AwaitingRemoval;
                    Action::Run(self.layout.removal_command())
                } else {
                    self.stage = Stage::Finished;
                    Action::Respond(download_failed(utf8_lossy(&stdout)))
                }
            },
            Event::RemoverRan(_) => {
                self.stage = Stage::AwaitingBook;
                Action::ReadFile { path: self.layout.book_path.clone() }
            },
            Event::BookRead(None) => {
                self.stage = Stage::Finished;
                Action::Respond(error_reply(500, "Failed to read the generated book file"))
            },
            Event::BookRead(Some(bytes)) => {
                self.stage = Stage::Finished;
                Action::Respond(book(bytes))
            },
        }
    }
}

} // verus!
