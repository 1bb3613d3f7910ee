use acsm_dl::command::{ExitOutcome, Layout};
use acsm_dl::download::{
    book, download_failed, Action, Download, DownloadOutcome, Event, FieldOutcome, Stage,
};
use acsm_dl::reply::Reply;

fn header<'a>(r: &'a Reply, name: &str) -> Option<&'a str> {
    r.headers.iter().find(|h| h.name == name).map(|h| h.value.as_str())
}

fn reply(a: Action) -> Reply {
    match a {
        Action::Respond(r) => r,
        _ => panic!("expected a reply"),
    }
}

fn strings(v: &[&str]) -> Vec<String> {
    v.iter().map(|s| s.to_string()).collect()
}

/// Runs a request up to the download tool's exit.
fn up_to_download(upload: &[u8]) -> Download {
    let (mut d, a) = Download::start(Layout::standard());
    assert!(matches!(a, Action::ReadField));
    assert!(matches!(d.step(Event::FieldRead(FieldOutcome::Present)), Action::ReadContent));
    match d.step(Event::ContentRead(Some(upload.to_vec()))) {
        Action::WriteFile { path, bytes } => {
            assert_eq!(path, "/tmp/URLLink.acsm");
            assert_eq!(bytes, upload.to_vec());
        }
        _ => panic!("expected a write"),
    }
    match d.step(Event::Saved(true)) {
        Action::Run(inv) => {
            assert_eq!(inv.program, "acsmdownloader");
            assert_eq!(
                inv.args,
                strings(&["-D", "/tmp/adept", "-o", "/tmp/book.epub", "/tmp/URLLink.acsm"])
            );
        }
        _ => panic!("expected the downloader"),
    }
    d
}

/// Runs a whole request whose tools succeed and leave `book_bytes` behind.
fn successful_request(upload: &[u8], book_bytes: &[u8]) -> Reply {
    let mut d = up_to_download(upload);
    let ok = DownloadOutcome::Exited { success: true, stdout: b"done".to_vec() };
    match d.step(Event::DownloaderRan(ok)) {
        Action::Run(inv) => {
            assert_eq!(inv.program, "adept_remove");
            assert_eq!(
                inv.args,
                strings(&["-o", "/tmp/book.epub", "-D", "/tmp/adept", "/tmp/book.epub"])
            );
        }
        _ => panic!("expected the remover"),
    }
    match d.step(Event::RemoverRan(ExitOutcome::Exited { success: true })) {
        Action::ReadFile { path } => assert_eq!(path, "/tmp/book.epub"),
        _ => panic!("expected a read"),
    }
    let r = reply(d.step(Event::BookRead(Some(book_bytes.to_vec()))));
    assert_eq!(d.stage, Stage::Finished);
    r
}

#[test]
fn missing_field_is_bad_request() {
    let (mut d, _) = Download::start(Layout::standard());
    let r = reply(d.step(Event::FieldRead(FieldOutcome::Missing)));
    assert_eq!(r.status, 400);
    assert_eq!(r.body, b"No file uploaded".to_vec());
    assert_eq!(header(&r, "content-type"), Some("text/plain; charset=utf-8"));
}

#[test]
fn malformed_multipart_is_bad_request() {
    let (mut d, _) = Download::start(Layout::standard());
    let r = reply(d.step(Event::FieldRead(FieldOutcome::Malformed)));
    assert_eq!(r.status, 400);
    assert_eq!(r.body, b"Failed to read multipart upload".to_vec());
}

#[test]
fn broken_content_is_internal_error() {
    let (mut d, _) = Download::start(Layout::standard());
    d.step(Event::FieldRead(FieldOutcome::Present));
    let r = reply(d.step(Event::ContentRead(None)));
    assert_eq!(r.status, 500);
    assert_eq!(r.body, b"Failed to read file content".to_vec());
}

#[test]
fn unsaved_license_is_internal_error() {
    let (mut d, _) = Download::start(Layout::standard());
    d.step(Event::FieldRead(FieldOutcome::Present));
    d.step(Event::ContentRead(Some(b"x".to_vec())));
    let r = reply(d.step(Event::Saved(false)));
    assert_eq!(r.status, 500);
    assert_eq!(r.body, b"Failed to save uploaded file".to_vec());
}

#[test]
fn unlaunchable_downloader_is_internal_error() {
    let mut d = up_to_download(b"<fulfillmentToken/>");
    let r = reply(d.step(Event::DownloaderRan(DownloadOutcome::LaunchFailed)));
    assert_eq!(r.status, 500);
    assert_eq!(r.body, b"Failed to run epub downloader".to_vec());
}

#[test]
fn successful_download_returns_book() {
    let bytes = b"PK\x03\x04mock epub".to_vec();
    let r = successful_request(b"<fulfillmentToken/>", &bytes);
    assert_eq!(r.status, 200);
    assert_eq!(header(&r, "content-type"), Some("application/epub+zip"));
    assert_eq!(
        header(&r, "content-disposition"),
        Some("attachment; filename=\"book.epub\"")
    );
    assert_eq!(r.body, bytes);
}

#[test]
fn quota_exceeded_is_reported() {
    let mut d = up_to_download(b"<fulfillmentToken/>");
    let failed = DownloadOutcome::Exited { success: false, stdout: b"quota exceeded".to_vec() };
    let r = reply(d.step(Event::DownloaderRan(failed)));
    assert_eq!(r.status, 500);
    let body = String::from_utf8(r.body).unwrap();
    assert!(body.contains("Failed to download book: quota exceeded"));
    assert_eq!(body, "Failed to download book: quota exceeded");
}

#[test]
fn invalid_tool_output_is_replaced() {
    let mut d = up_to_download(b"<fulfillmentToken/>");
    let failed = DownloadOutcome::Exited { success: false, stdout: vec![b'a', 0xff, b'b'] };
    let r = reply(d.step(Event::DownloaderRan(failed)));
    assert_eq!(String::from_utf8(r.body).unwrap(), "Failed to download book: a\u{FFFD}b");
}

#[test]
fn missing_book_is_internal_error() {
    let mut d = up_to_download(b"<fulfillmentToken/>");
    d.step(Event::DownloaderRan(DownloadOutcome::Exited { success: true, stdout: vec![] }));
    d.step(Event::RemoverRan(ExitOutcome::Exited { success: true }));
    let r = reply(d.step(Event::BookRead(None)));
    assert_eq!(r.status, 500);
    let body = String::from_utf8(r.body).unwrap();
    assert!(body.contains("Failed to read the generated book file"));
}

#[test]
fn failing_remover_is_not_an_error() {
    let mut d = up_to_download(b"<fulfillmentToken/>");
    d.step(Event::DownloaderRan(DownloadOutcome::Exited { success: true, stdout: vec![] }));
    let a = d.step(Event::RemoverRan(ExitOutcome::Exited { success: false }));
    assert!(matches!(a, Action::ReadFile { .. }));
    let r = reply(d.step(Event::BookRead(Some(b"still protected".to_vec()))));
    assert_eq!(r.status, 200);
}

#[test]
fn same_request_twice_gives_same_body() {
    let first = successful_request(b"<fulfillmentToken/>", b"book bytes");
    let second = successful_request(b"<fulfillmentToken/>", b"book bytes");
    assert_eq!(first.body, second.body);
    assert_eq!(first.status, second.status);
}

#[test]
fn empty_book_is_returned_as_is() {
    let r = successful_request(b"", b"");
    assert_eq!(r.status, 200);
    assert!(r.body.is_empty());
}

#[test]
fn stage_accepts_only_its_event() {
    let (d, _) = Download::start(Layout::standard());
    assert!(d.accepts(&Event::FieldRead(FieldOutcome::Present)));
    assert!(!d.accepts(&Event::Saved(true)));
    assert!(!d.accepts(&Event::BookRead(None)));
}

#[test]
fn helpers_build_exact_replies() {
    let r = download_failed(b"x".to_vec());
    assert_eq!(r.body, b"Failed to download book: x".to_vec());
    let b = book(vec![1, 2, 3]);
    assert_eq!(b.body, vec![1, 2, 3]);
    assert_eq!(b.headers.len(), 2);
}
