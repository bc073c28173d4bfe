//! The web server: which request is answered how, and how a file is taken in and given out.
use vstd::prelude::*;
use vstd::string::StringExecFns;
use crate::bounded;
use crate::bounded::LengthText;
use crate::text;
use crate::ticks;

verus! {

/// The method of a request, as far as the server tells methods apart.
#[derive(Clone, Copy, PartialEq, Eq, Structural, Debug)]
pub enum Method {
    Get,
    Post,
    Other,
}

/// What a request asks for.
#[derive(Clone, Copy, PartialEq, Eq, Structural, Debug)]
pub enum Route {
    /// The index page.
    Root,
    /// The greeting.
    Hello,
    /// The page for uploads.
    UploadPage,
    /// An upload.
    Upload,
    /// The uploaded file.
    File,
    /// The style sheet.
    BaseCss,
    /// Nothing that the server has.
    NotFound,
}

/// What a request with this method and path asks for. Paths are compared as they are.
pub open spec fn route_of(method: Method, path: Seq<char>) -> Route {
    if method == Method::Get && path == "/"@ {
        Route::Root
    } else if method == Method::Get && path == "/hello"@ {
        Route::Hello
    } else if method == Method::Get && path == "/upload"@ {
        Route::UploadPage
    } else if method == Method::Post && path == "/upload"@ {
        Route::Upload
    } else if method == Method::Get && path == "/file"@ {
        Route::File
    } else if method == Method::Get && path == "/assets/base_style.css"@ {
        Route::BaseCss
    } else {
        Route::NotFound
    }
}

/// What a request with this method and path asks for.
pub fn route(method: Method, path: &str) -> (route: Route)
    ensures
        route == route_of(method, path@),
{
    match method {
        Method::Get => {
            if text::same_text(path, "/") {
                Route::Root
            } else if text::same_text(path, "/hello") {
                Route::Hello
            } else if text::same_text(path, "/upload") {
                Route::UploadPage
            } else if text::same_text(path, "/file") {
                Route::File
            } else if text::same_text(path, "/assets/base_style.css") {
                Route::BaseCss
            } else {
                Route::NotFound
            }
        },
        Method::Post => {
            if text::same_text(path, "/upload") {
                Route::Upload
            } else {
                Route::NotFound
            }
        },
        Method::Other => Route::NotFound,
    }
}

/// Only a `POST` can change what is stored: no other request leads to an upload.
pub proof fn law_only_post_uploads(method: Method, path: Seq<char>)
    ensures
        route_of(method, path) == Route::Upload <==> method == Method::Post && path == "/upload"@,
{
    if method == Method::Post && path == "/upload"@ {
        assert(route_of(method, path) == Route::Upload);
    }
}

/// A request that asks for `page`.
pub open spec fn request_for(page: Route) -> (Method, Seq<char>) {
    match page {
        Route::Root => (Method::Get, "/"@),
        Route::Hello => (Method::Get, "/hello"@),
        Route::UploadPage => (Method::Get, "/upload"@),
        Route::Upload => (Method::Post, "/upload"@),
        Route::File => (Method::Get, "/file"@),
        Route::BaseCss => (Method::Get, "/assets/base_style.css"@),
        Route::NotFound => (Method::Other, "/"@),
    }
}

/// Everything that the server has can be asked for: no page hides another.
pub proof fn law_every_page_reachable(page: Route)
    ensures
        route_of(request_for(page).0, request_for(page).1) == page,
{
    reveal_strlit("/");
    reveal_strlit("/hello");
    reveal_strlit("/upload");
    reveal_strlit("/file");
    reveal_strlit("/assets/base_style.css");
    assert("/"@.len() == 1);
    assert("/hello"@.len() == 6);
    assert("/upload"@.len() == 7);
    assert("/file"@.len() == 5);
    assert("/assets/base_style.css"@.len() == 22);
}

/// The contents of the pages.
#[derive(Clone, Copy)]
pub struct WebAssets<'a> {
    pub index_html: &'a str,
    pub upload_html: &'a str,
    pub base_style_css: &'a str,
}

/// A header of an answer.
pub struct Header {
    pub name: &'static str,
    pub value: String,
}

/// An answer: its head, and the text that follows it.
pub struct Response<'a> {
    pub status: u16,
    pub reason: &'static str,
    pub headers: Vec<Header>,
    pub body: &'a str,
}

/// What an answer says.
pub struct ResponseView {
    pub status: u16,
    pub reason: Seq<char>,
    pub headers: Seq<(Seq<char>, Seq<char>)>,
    pub body: Seq<char>,
}

/// The names and values of headers.
pub open spec fn header_views(headers: Seq<Header>) -> Seq<(Seq<char>, Seq<char>)> {
    Seq::new(headers.len(), |i: int| (headers[i].name@, headers[i].value@))
}

impl<'a> View for Response<'a> {
    type V = ResponseView;

    open spec fn view(&self) -> ResponseView {
        ResponseView {
            status: self.status,
            reason: self.reason@,
            headers: header_views(self.headers@),
            body: self.body@,
        }
    }
}

/// An answer with a content type and a body.
pub open spec fn answer(
    status: u16,
    reason: Seq<char>,
    content_type: Seq<char>,
    body: Seq<char>,
) -> ResponseView {
    ResponseView { status, reason, headers: seq![("Content-Type"@, content_type)], body }
}

fn simple<'a>(
    status: u16,
    reason: &'static str,
    content_type: &'static str,
    body: &'a str,
) -> (response: Response<'a>)
    ensures
        response@ == answer(status, reason@, content_type@, body@),
{
    let mut headers: Vec<Header> = Vec::new();
    headers.push(Header { name: "Content-Type", value: content_type.to_owned() });
    let response = Response { status, reason, headers, body };
    assert(response@.headers =~= seq![("Content-Type"@, content_type@)]);
    response
}

/// The answer with the index page.
pub fn handle_get_root<'a>(assets: &WebAssets<'a>) -> (response: Response<'a>)
    ensures
        response@ == answer(200, "OK"@, "text/html; charset=utf-8"@, assets.index_html@),
{
    simple(200, "OK", "text/html; charset=utf-8", assets.index_html)
}

/// The answer with the greeting.
pub fn handle_get_hello() -> (response: Response<'static>)
    ensures
        response@ == answer(200, "OK"@, "text/plain"@, "Hello from the ESP32-C6!\n"@),
{
    simple(200, "OK", "text/plain", "Hello from the ESP32-C6!\n")
}

/// The answer with the page for uploads.
pub fn handle_get_upload<'a>(assets: &WebAssets<'a>) -> (response: Response<'a>)
    ensures
        response@ == answer(200, "OK"@, "text/html; charset=utf-8"@, assets.upload_html@),
{
    simple(200, "OK", "text/html; charset=utf-8", assets.upload_html)
}

/// The answer with the style sheet.
pub fn handle_get_base_css<'a>(assets: &WebAssets<'a>) -> (response: Response<'a>)
    ensures
        response@ == answer(200, "OK"@, "text/css"@, assets.base_style_css@),
{
    simple(200, "OK", "text/css", assets.base_style_css)
}

/// The answer to a request for what the server does not have.
pub fn handle_not_found() -> (response: Response<'static>)
    ensures
        response@ == answer(404, "Not Found"@, "text/plain"@, "404 Not Found\n"@),
{
    simple(404, "Not Found", "text/plain", "404 Not Found\n")
}

/// What the server does for a request.
pub enum Reply<'a> {
    /// Send this answer.
    Send(Response<'a>),
    /// Take a file in.
    TakeUpload,
    /// Give the file out.
    GiveFile,
}

/// The answer to a request that needs no file, if it is one.
pub open spec fn fixed_answer(route: Route, assets: WebAssets) -> Option<ResponseView> {
    match route {
        Route::Root => Some(
            answer(200, "OK"@, "text/html; charset=utf-8"@, assets.index_html@),
        ),
        Route::Hello => Some(
            answer(200, "OK"@, "text/plain"@, "Hello from the ESP32-C6!\n"@),
        ),
        Route::UploadPage => Some(
            answer(200, "OK"@, "text/html; charset=utf-8"@, assets.upload_html@),
        ),
        Route::BaseCss => Some(answer(200, "OK"@, "text/css"@, assets.base_style_css@)),
        Route::NotFound => Some(answer(404, "Not Found"@, "text/plain"@, "404 Not Found\n"@)),
        Route::Upload => None,
        Route::File => None,
    }
}

/// What the server does for a request with this method and path.
pub fn handle<'a>(method: Method, path: &str, assets: &WebAssets<'a>) -> (reply: Reply<'a>)
    ensures
        reply is TakeUpload <==> route_of(method, path@) == Route::Upload,
        reply is GiveFile <==> route_of(method, path@) == Route::File,
        reply matches Reply::Send(response) ==> Some(response@) == fixed_answer(
            route_of(method, path@),
            *assets,
        ),
{
    match route(method, path) {
        Route::Root => Reply::Send(handle_get_root(assets)),
        Route::Hello => Reply::Send(handle_get_hello()),
        Route::UploadPage => Reply::Send(handle_get_upload(assets)),
        Route::Upload => Reply::TakeUpload,
        Route::File => Reply::GiveFile,
        Route::BaseCss => Reply::Send(handle_get_base_css(assets)),
        Route::NotFound => Reply::Send(handle_not_found()),
    }
}

/// A request for what the server does not have, or with a method that it does not know, is
/// answered with status 404, and no other request is, unless it asks for the file.
pub proof fn law_unknown_is_404(method: Method, path: Seq<char>, assets: WebAssets)
    ensures
        route_of(method, path) == Route::NotFound <==> (fixed_answer(
            route_of(method, path),
            assets,
        ) matches Some(a) && a.status == 404),
        method == Method::Other ==> route_of(method, path) == Route::NotFound,
{
}

/// The length of a file as a header states it.
pub fn content_length(size: u32) -> (value: LengthText)
    ensures
        bounded::length_text(value) == text::decimal(size as nat),
{
    let mut digits = String::new();
    text::append_decimal(&mut digits, size);
    assert(digits@ =~= text::decimal(size as nat));
    proof {
        text::lemma_decimal_len(size as nat);
        text::lemma_decimal_digits(size as nat);
        bounded::lemma_ascii_len(digits@);
        bounded::lemma_ascii_len(Seq::empty());
        assert(Seq::<char>::empty() + digits@ =~= digits@);
    }
    let mut value = LengthText::new();
    value.push_str(digits.as_str());
    value
}

/// The length of every file can be stated in a header.
pub proof fn law_every_length_fits(size: u32)
    ensures
        vstd::utf8::encode_utf8(text::decimal(size as nat)).len() <= bounded::LENGTH_CAPACITY,
{
    text::lemma_decimal_len(size as nat);
    text::lemma_decimal_digits(size as nat);
    bounded::lemma_ascii_len(text::decimal(size as nat));
}

/// The head of the answer that gives a file of `size` bytes out.
pub open spec fn file_head(size: nat) -> ResponseView {
    ResponseView {
        status: 200,
        reason: "OK"@,
        headers: seq![
            ("Content-Type"@, "application/octet-stream"@),
            ("Content-Length"@, text::decimal(size)),
            ("Content-Disposition"@, "attachment; filename=\"Test.bin\""@),
        ],
        body: ""@,
    }
}

/// The head of the answer that gives a file of `size` bytes out; its bytes follow.
pub fn handle_get_file_head(size: u32) -> (response: Response<'static>)
    ensures
        response@ == file_head(size as nat),
{
    let length = content_length(size);
    let mut headers: Vec<Header> = Vec::new();
    headers.push(Header { name: "Content-Type", value: "application/octet-stream".to_owned() });
    headers.push(Header { name: "Content-Length", value: length.as_str().to_owned() });
    headers.push(
        Header {
            name: "Content-Disposition",
            value: "attachment; filename=\"Test.bin\"".to_owned(),
        },
    );
    let response = Response { status: 200, reason: "OK", headers, body: "" };
    assert(response@.headers =~= file_head(size as nat).headers);
    response
}

/// The answer when there is no file to give out.
pub fn handle_get_file_missing() -> (response: Response<'static>)
    ensures
        response@ == answer(404, "Not Found"@, "text/plain"@, "File not found\n"@),
{
    simple(404, "Not Found", "text/plain", "File not found\n")
}

/// How a file is opened.
#[derive(Clone, Copy, PartialEq, Eq, Structural, Debug)]
pub struct OpenMode {
    pub read: bool,
    pub write: bool,
    /// Make the file if there is none.
    pub create: bool,
    /// Drop what the file holds.
    pub truncate: bool,
}

/// The file that uploads go to and downloads come from.
pub const FILE_NAME: &'static str = "Test.bin";

/// How many bytes of an upload are taken in at once.
pub const UPLOAD_BUFFER: usize = 8192;

/// How many bytes of the file are given out at once.
pub const DOWNLOAD_BUFFER: usize = 1024;

/// How the file is opened for an upload, which replaces what it held.
pub fn upload_mode() -> (mode: OpenMode)
    ensures
        mode == (OpenMode { read: false, write: true, create: true, truncate: true }),
{
    OpenMode { read: false, write: true, create: true, truncate: true }
}

/// How the file is opened to give it out.
pub fn download_mode() -> (mode: OpenMode)
    ensures
        mode == (OpenMode { read: true, write: false, create: false, truncate: false }),
{
    OpenMode { read: true, write: false, create: false, truncate: false }
}

/// What an upload does next.
#[derive(Clone, Copy, PartialEq, Eq, Structural, Debug)]
pub enum UploadCall {
    /// Open the file.
    Open,
    /// Receive bytes.
    Receive,
    /// Store so many bytes, which were received.
    Store(usize),
    /// Nothing more: answer that all is stored.
    AnswerStored,
    /// Nothing more: answer that it failed.
    AnswerFailed,
    /// Nothing more: the client is gone.
    Abandoned,
}

/// What a step of an upload came back with.
#[derive(Clone, Copy, PartialEq, Eq, Structural, Debug)]
pub enum UploadEvent {
    Opened,
    OpenFailed,
    /// So many bytes were received; none if there are no more.
    Received(usize),
    ReceiveFailed,
    Stored,
    StoreFailed,
}

/// An upload in progress.
#[derive(Clone, Copy, PartialEq, Eq, Structural, Debug)]
pub struct Upload {
    /// What it does next.
    pub call: UploadCall,
    /// How many bytes are stored.
    pub total: usize,
}

impl Upload {
    /// The bytes that are stored when the current step succeeds.
    pub open spec fn total_then(self) -> int {
        match self.call {
            UploadCall::Store(len) => self.total + len,
            _ => self.total as int,
        }
    }

    /// What follows from `event`. An event that does not answer the current step changes nothing.
    pub open spec fn after(self, event: UploadEvent) -> Upload {
        let call = match (self.call, event) {
            (UploadCall::Open, UploadEvent::Opened) => UploadCall::Receive,
            (UploadCall::Open, UploadEvent::OpenFailed) => UploadCall::AnswerFailed,
            (UploadCall::Receive, UploadEvent::Received(len)) => if len == 0 {
                UploadCall::AnswerStored
            } else {
                UploadCall::Store(len)
            },
            (UploadCall::Receive, UploadEvent::ReceiveFailed) => UploadCall::Abandoned,
            (UploadCall::Store(_), UploadEvent::Stored) => UploadCall::Receive,
            (UploadCall::Store(_), UploadEvent::StoreFailed) => UploadCall::AnswerFailed,
            _ => self.call,
        };
        let total = if self.call is Store && event is Stored {
            self.total_then() as usize
        } else {
            self.total
        };
        Upload { call, total }
    }

    /// An upload that has just begun.
    pub fn begin() -> (upload: Upload)
        ensures
            upload == (Upload { call: UploadCall::Open, total: 0 }),
    {
        Upload { call: UploadCall::Open, total: 0 }
    }

    /// The upload after `event`, which its current step came back with.
    pub fn handle_post_upload(self, event: UploadEvent) -> (next: Upload)
        requires
            self.total_then() <= usize::MAX,
        ensures
            next == self.after(event),
    {
        match (self.call, event) {
            (UploadCall::Open, UploadEvent::Opened) => Upload {
                call: UploadCall::Receive,
                total: self.total,
            },
            (UploadCall::Open, UploadEvent::OpenFailed) => Upload {
                call: UploadCall::AnswerFailed,
                total: self.total,
            },
            (UploadCall::Receive, UploadEvent::Received(len)) => {
                if len == 0 {
                    Upload { call: UploadCall::AnswerStored, total: self.total }
                } else {
                    Upload { call: UploadCall::Store(len), total: self.total }
                }
            },
            (UploadCall::Receive, UploadEvent::ReceiveFailed) => Upload {
                call: UploadCall::Abandoned,
                total: self.total,
            },
            (UploadCall::Store(len), UploadEvent::Stored) => Upload {
                call: UploadCall::Receive,
                total: self.total + len,
            },
            (UploadCall::Store(_), UploadEvent::StoreFailed) => Upload {
                call: UploadCall::AnswerFailed,
                total: self.total,
            },
            _ => self,
        }
    }

    /// The upload after all of `events`.
    pub open spec fn after_all(self, events: Seq<UploadEvent>) -> Upload
        decreases events.len(),
    {
        if events.len() == 0 {
            self
        } else {
            self.after(events[0]).after_all(events.skip(1))
        }
    }
}

/// The answer that ends an upload, if it ends in one.
pub fn upload_answer(upload: Upload) -> (response: Option<Response<'static>>)
    ensures
        response is Some <==> upload.call is AnswerStored || upload.call is AnswerFailed,
        response matches Some(r) ==> r@ == if upload.call is AnswerStored {
            answer(200, "OK"@, "text/plain"@, "Upload successful\n"@)
        } else {
            answer(500, "Internal Server Error"@, "text/plain"@, "Upload failed\n"@)
        },
{
    match upload.call {
        UploadCall::AnswerStored => Some(simple(200, "OK", "text/plain", "Upload successful\n")),
        UploadCall::AnswerFailed => Some(
            simple(500, "Internal Server Error", "text/plain", "Upload failed\n"),
        ),
        _ => None,
    }
}

/// The sum of sizes.
pub open spec fn sum(sizes: Seq<usize>) -> int
    decreases sizes.len(),
{
    if sizes.len() == 0 {
        0
    } else {
        sizes[0] + sum(sizes.skip(1))
    }
}

/// The events of an upload of pieces of these sizes that are all received and stored.
pub open spec fn stored_pieces(sizes: Seq<usize>) -> Seq<UploadEvent>
    decreases sizes.len(),
{
    if sizes.len() == 0 {
        Seq::empty()
    } else {
        seq![UploadEvent::Received(sizes[0]), UploadEvent::Stored] + stored_pieces(sizes.skip(1))
    }
}

/// An upload goes on, piece by piece, and counts every byte that it stores.
pub proof fn law_upload_counts_bytes(total: usize, sizes: Seq<usize>)
    requires
        forall|i: int| 0 <= i < sizes.len() ==> #[trigger] sizes[i] > 0,
        total + sum(sizes) <= usize::MAX,
    ensures
        0 <= sum(sizes),
        (Upload { call: UploadCall::Receive, total }).after_all(stored_pieces(sizes)) == (Upload {
            call: UploadCall::Receive,
            total: (total + sum(sizes)) as usize,
        }),
    decreases sizes.len(),
{
    let upload = Upload { call: UploadCall::Receive, total };
    let events = stored_pieces(sizes);
    if sizes.len() > 0 {
        lemma_sum_positive(sizes);
        lemma_sum_positive(sizes.skip(1));
        let rest = stored_pieces(sizes.skip(1));
        let received = upload.after(UploadEvent::Received(sizes[0]));
        let stored = received.after(UploadEvent::Stored);
        assert(events.skip(1).skip(1) =~= rest);
        assert(events[0] == UploadEvent::Received(sizes[0]));
        assert(events.skip(1)[0] == UploadEvent::Stored);
        assert(upload.after_all(events) == received.after_all(events.skip(1)));
        assert(received.after_all(events.skip(1)) == stored.after_all(rest));
        assert(stored == (Upload {
            call: UploadCall::Receive,
            total: (total + sizes[0]) as usize,
        }));
        law_upload_counts_bytes((total + sizes[0]) as usize, sizes.skip(1));
    }
}

/// Events that come in one after the other can be cut in two anywhere.
proof fn lemma_after_all_cut(upload: Upload, first: Seq<UploadEvent>, second: Seq<UploadEvent>)
    ensures
        upload.after_all(first + second) == upload.after_all(first).after_all(second),
    decreases first.len(),
{
    let all = first + second;
    if first.len() == 0 {
        assert(all =~= second);
    } else {
        assert(all.skip(1) =~= first.skip(1) + second);
        assert(all[0] == first[0]);
        lemma_after_all_cut(upload.after(first[0]), first.skip(1), second);
    }
}

/// An upload whose file can be opened and whose pieces are all received and stored ends in the
/// answer that it is stored, with the number of all its bytes.
pub proof fn law_whole_upload_is_stored(sizes: Seq<usize>)
    requires
        forall|i: int| 0 <= i < sizes.len() ==> #[trigger] sizes[i] > 0,
        sum(sizes) <= usize::MAX,
    ensures
        (Upload { call: UploadCall::Open, total: 0 }).after_all(
            seq![UploadEvent::Opened] + stored_pieces(sizes) + seq![UploadEvent::Received(0)],
        ) == (Upload { call: UploadCall::AnswerStored, total: sum(sizes) as usize }),
{
    let begun = Upload { call: UploadCall::Open, total: 0 };
    let opened = seq![UploadEvent::Opened];
    let last = seq![UploadEvent::Received(0)];
    lemma_after_all_cut(begun, opened + stored_pieces(sizes), last);
    lemma_after_all_cut(begun, opened, stored_pieces(sizes));
    law_upload_counts_bytes(0, sizes);
    assert(opened.skip(1) =~= Seq::empty());
    assert(last.skip(1) =~= Seq::empty());
    reveal_with_fuel(Upload::after_all, 2);
}

proof fn lemma_sum_positive(sizes: Seq<usize>)
    ensures
        0 <= sum(sizes),
        sizes.len() > 0 ==> sizes[0] <= sum(sizes),
    decreases sizes.len(),
{
    if sizes.len() > 0 {
        lemma_sum_positive(sizes.skip(1));
    }
}

/// Success is answered only when there was nothing more to receive and no piece had failed: the
/// upload was waiting for more bytes, and none came.
pub proof fn law_success_after_last_piece(upload: Upload, event: UploadEvent)
    requires
        upload.call != UploadCall::AnswerStored,
    ensures
        upload.after(event).call == UploadCall::AnswerStored <==> upload.call
            == UploadCall::Receive && event == UploadEvent::Received(0),
{
}

/// A file that cannot be opened and a piece that cannot be stored both end the upload with the
/// answer that it failed, and no other event does.
pub proof fn law_failure_is_answered(upload: Upload, event: UploadEvent)
    requires
        upload.call != UploadCall::AnswerFailed,
    ensures
        upload.after(event).call == UploadCall::AnswerFailed <==> {
            ||| upload.call == UploadCall::Open && event == UploadEvent::OpenFailed
            ||| upload.call is Store && event == UploadEvent::StoreFailed
        },
{
}

/// What giving the file out does next.
#[derive(Clone, Copy, PartialEq, Eq, Structural, Debug)]
pub enum DownloadCall {
    /// Open the file.
    Open,
    /// Send the head of the answer, for a file of this size.
    SendHead(u32),
    /// Fetch bytes of the file.
    Fetch,
    /// Send so many bytes, which were fetched.
    Send(u32),
    /// Nothing more: answer that there is no file.
    AnswerMissing,
    /// Nothing more: there is nothing left to fetch.
    Finished,
    /// Nothing more: the client is gone.
    Abandoned,
}

/// What a step of giving the file out came back with.
#[derive(Clone, Copy, PartialEq, Eq, Structural, Debug)]
pub enum DownloadEvent {
    /// The file is open, and has this size.
    Opened(u32),
    OpenFailed,
    Sent,
    SendFailed,
    /// So many bytes were fetched; none at the end of the file.
    Fetched(u32),
    FetchFailed,
}

/// What follows from `event` after `call`. An event that does not answer the call changes nothing.
pub open spec fn download_after(call: DownloadCall, event: DownloadEvent) -> DownloadCall {
    match (call, event) {
        (DownloadCall::Open, DownloadEvent::Opened(size)) => DownloadCall::SendHead(size),
        (DownloadCall::Open, DownloadEvent::OpenFailed) => DownloadCall::AnswerMissing,
        (DownloadCall::SendHead(_), DownloadEvent::Sent) => DownloadCall::Fetch,
        (DownloadCall::SendHead(_), DownloadEvent::SendFailed) => DownloadCall::Abandoned,
        (DownloadCall::Fetch, DownloadEvent::Fetched(len)) => if len == 0 {
            DownloadCall::Finished
        } else {
            DownloadCall::Send(len)
        },
        (DownloadCall::Fetch, DownloadEvent::FetchFailed) => DownloadCall::Finished,
        (DownloadCall::Send(_), DownloadEvent::Sent) => DownloadCall::Fetch,
        (DownloadCall::Send(_), DownloadEvent::SendFailed) => DownloadCall::Abandoned,
        _ => call,
    }
}

/// The step with which giving the file out begins.
pub fn download_begin() -> (call: DownloadCall)
    ensures
        call == DownloadCall::Open,
{
    DownloadCall::Open
}

/// What giving the file out does after `event`, which `call` came back with.
pub fn handle_get_file(call: DownloadCall, event: DownloadEvent) -> (next: DownloadCall)
    ensures
        next == download_after(call, event),
{
    match (call, event) {
        (DownloadCall::Open, DownloadEvent::Opened(size)) => DownloadCall::SendHead(size),
        (DownloadCall::Open, DownloadEvent::OpenFailed) => DownloadCall::AnswerMissing,
        (DownloadCall::SendHead(_), DownloadEvent::Sent) => DownloadCall::Fetch,
        (DownloadCall::SendHead(_), DownloadEvent::SendFailed) => DownloadCall::Abandoned,
        (DownloadCall::Fetch, DownloadEvent::Fetched(len)) => {
            if len == 0 {
                DownloadCall::Finished
            } else {
                DownloadCall::Send(len)
            }
        },
        (DownloadCall::Fetch, DownloadEvent::FetchFailed) => DownloadCall::Finished,
        (DownloadCall::Send(_), DownloadEvent::Sent) => DownloadCall::Fetch,
        (DownloadCall::Send(_), DownloadEvent::SendFailed) => DownloadCall::Abandoned,
        _ => call,
    }
}

/// The answer that a step of giving the file out sends, if it sends one.
pub fn download_answer(call: DownloadCall) -> (response: Option<Response<'static>>)
    ensures
        response is Some <==> call is SendHead || call is AnswerMissing,
        response matches Some(r) ==> r@ == match call {
            DownloadCall::SendHead(size) => file_head(size as nat),
            _ => answer(404, "Not Found"@, "text/plain"@, "File not found\n"@),
        },
{
    match call {
        DownloadCall::SendHead(size) => Some(handle_get_file_head(size)),
        DownloadCall::AnswerMissing => Some(handle_get_file_missing()),
        _ => None,
    }
}

/// Every piece that is fetched is sent, whole, before the next one is fetched, and an empty one
/// ends it.
pub proof fn law_fetched_is_sent(len: u32)
    ensures
        len > 0 ==> {
            let send = download_after(DownloadCall::Fetch, DownloadEvent::Fetched(len));
            send == DownloadCall::Send(len) && download_after(send, DownloadEvent::Sent)
                == DownloadCall::Fetch
        },
        download_after(DownloadCall::Fetch, DownloadEvent::Fetched(0)) == DownloadCall::Finished,
{
}

/// The sizes of the pieces of the file that are sent while `events` come in, from `call` on.
pub open spec fn sent_sizes(call: DownloadCall, events: Seq<DownloadEvent>) -> Seq<u32>
    decreases events.len(),
{
    if events.len() == 0 {
        Seq::empty()
    } else {
        let rest = sent_sizes(download_after(call, events[0]), events.skip(1));
        match (call, events[0]) {
            (DownloadCall::Send(len), DownloadEvent::Sent) => seq![len] + rest,
            _ => rest,
        }
    }
}

/// The step that stands after all of `events`.
pub open spec fn download_after_all(call: DownloadCall, events: Seq<DownloadEvent>) -> DownloadCall
    decreases events.len(),
{
    if events.len() == 0 {
        call
    } else {
        download_after_all(download_after(call, events[0]), events.skip(1))
    }
}

/// The events of giving a file out whose pieces have these sizes, up to its end.
pub open spec fn fetched_pieces(sizes: Seq<u32>) -> Seq<DownloadEvent>
    decreases sizes.len(),
{
    if sizes.len() == 0 {
        seq![DownloadEvent::Fetched(0)]
    } else {
        seq![DownloadEvent::Fetched(sizes[0]), DownloadEvent::Sent] + fetched_pieces(sizes.skip(1))
    }
}

/// The whole file is given out: every piece that it is fetched in is sent, in the same order, and
/// then it ends.
pub proof fn law_whole_file_is_sent(sizes: Seq<u32>)
    requires
        forall|i: int| 0 <= i < sizes.len() ==> #[trigger] sizes[i] > 0,
    ensures
        sent_sizes(DownloadCall::Fetch, fetched_pieces(sizes)) == sizes,
        download_after_all(DownloadCall::Fetch, fetched_pieces(sizes)) == DownloadCall::Finished,
    decreases sizes.len(),
{
    let events = fetched_pieces(sizes);
    if sizes.len() == 0 {
        assert(events.skip(1) =~= Seq::empty());
        assert(sent_sizes(DownloadCall::Finished, events.skip(1)) =~= Seq::empty());
        assert(download_after_all(DownloadCall::Finished, events.skip(1))
            == DownloadCall::Finished);
    } else {
        law_whole_file_is_sent(sizes.skip(1));
        let rest = fetched_pieces(sizes.skip(1));
        let send = DownloadCall::Send(sizes[0]);
        assert(events.skip(1).skip(1) =~= rest);
        assert(events.skip(1)[0] == DownloadEvent::Sent);
        assert(sent_sizes(send, events.skip(1)) == seq![sizes[0]] + sizes.skip(1));
        assert(download_after_all(send, events.skip(1)) == DownloadCall::Finished);
        assert(seq![sizes[0]] + sizes.skip(1) =~= sizes);
    }
}

/// Nothing of the file is sent before the head of the answer: the first piece is fetched after the
/// head was sent.
pub proof fn law_head_comes_first(call: DownloadCall, event: DownloadEvent)
    requires
        download_after(call, event) == DownloadCall::Fetch,
        call != DownloadCall::Fetch,
    ensures
        event == DownloadEvent::Sent,
        call is SendHead || call is Send,
{
}

/// The length that the head of the answer states is the size of the file.
pub proof fn law_head_states_size(size: u32)
    ensures
        file_head(size as nat).headers[1].0 == "Content-Length"@,
        text::decimal_value(file_head(size as nat).headers[1].1) == size,
{
    text::law_decimal_reads_back(size as nat);
}

/// How long to wait before the server is started again after an error, in milliseconds.
pub const SERVER_PAUSE_MILLIS: u64 = 100;

/// How long to wait before the server is started again, in ticks: not at all after it stopped by
/// itself, and a moment after an error.
pub fn server_pause(failed: bool) -> (pause: u64)
    ensures
        pause == if failed {
            SERVER_PAUSE_MILLIS * ticks::TICKS_PER_MILLISECOND
        } else {
            0
        },
{
    if failed {
        ticks::from_millis(SERVER_PAUSE_MILLIS)
    } else {
        0
    }
}

/// Whether an answer has this status, this reason, a content type as its only header, and this
/// body.
pub open spec fn says(
    response: Response,
    status: int,
    reason: Seq<char>,
    content_type: Seq<char>,
    body: Seq<char>,
) -> bool {
    &&& response.status == status
    &&& response.reason@ == reason
    &&& response.headers@.len() == 1
    &&& response.headers@[0].name@ == "Content-Type"@
    &&& response.headers@[0].value@ == content_type
    &&& response.body@ == body
}

proof fn lemma_says(
    response: Response,
    status: u16,
    reason: Seq<char>,
    content_type: Seq<char>,
    body: Seq<char>,
)
    requires
        response@ == answer(status, reason, content_type, body),
    ensures
        says(response, status as int, reason, content_type, body),
{
    assert(response@.headers.len() == response.headers@.len());
    assert(response@.headers[0] == (
        response.headers@[0].name@,
        response.headers@[0].value@,
    ));
}

/// The pages are sent as they are, whole, each with the type that it has.
pub proof fn law_pages_are_sent_whole(
    assets: WebAssets<'static>,
    root: Response<'static>,
    hello: Response<'static>,
    upload: Response<'static>,
    css: Response<'static>,
    missing: Response<'static>,
)
    requires
        call_ensures(handle_get_root, (&assets,), root),
        call_ensures(handle_get_hello, (), hello),
        call_ensures(handle_get_upload, (&assets,), upload),
        call_ensures(handle_get_base_css, (&assets,), css),
        call_ensures(handle_not_found, (), missing),
    ensures
        says(root, 200, "OK"@, "text/html; charset=utf-8"@, assets.index_html@),
        says(hello, 200, "OK"@, "text/plain"@, "Hello from the ESP32-C6!\n"@),
        says(upload, 200, "OK"@, "text/html; charset=utf-8"@, assets.upload_html@),
        says(css, 200, "OK"@, "text/css"@, assets.base_style_css@),
        says(missing, 404, "Not Found"@, "text/plain"@, "404 Not Found\n"@),
{
    lemma_says(root, 200, "OK"@, "text/html; charset=utf-8"@, assets.index_html@);
    lemma_says(hello, 200, "OK"@, "text/plain"@, "Hello from the ESP32-C6!\n"@);
    lemma_says(upload, 200, "OK"@, "text/html; charset=utf-8"@, assets.upload_html@);
    lemma_says(css, 200, "OK"@, "text/css"@, assets.base_style_css@);
    lemma_says(missing, 404, "Not Found"@, "text/plain"@, "404 Not Found\n"@);
}

/// The paths that the server knows differ from one another.
proof fn lemma_paths_differ()
    ensures
        "/"@.len() == 1,
        "/hello"@.len() == 6,
        "/upload"@.len() == 7,
        "/file"@.len() == 5,
        "/assets/base_style.css"@.len() == 22,
{
    reveal_strlit("/");
    reveal_strlit("/hello");
    reveal_strlit("/upload");
    reveal_strlit("/file");
    reveal_strlit("/assets/base_style.css");
}

/// Which requests ask for what: six methods and paths lead somewhere, and every other request is
/// for something that the server does not have.
pub proof fn law_requests_lead_to_routes(method: Method, path: &str, found: Route)
    requires
        call_ensures(route, (method, path), found),
    ensures
        found is Root <==> method is Get && path@ == "/"@,
        found is Hello <==> method is Get && path@ == "/hello"@,
        found is UploadPage <==> method is Get && path@ == "/upload"@,
        found is Upload <==> method is Post && path@ == "/upload"@,
        found is File <==> method is Get && path@ == "/file"@,
        found is BaseCss <==> method is Get && path@ == "/assets/base_style.css"@,
{
    lemma_paths_differ();
}

/// What the server does for a request: it sends the page that the path names, takes a file in, or
/// gives the file out, and answers every other request with status 404.
pub proof fn law_requests_are_answered(
    method: Method,
    path: &str,
    assets: WebAssets<'static>,
    reply: Reply<'static>,
)
    requires
        call_ensures(handle, (method, path, &assets), reply),
    ensures
        reply is TakeUpload <==> method is Post && path@ == "/upload"@,
        reply is GiveFile <==> method is Get && path@ == "/file"@,
        reply matches Reply::Send(r) ==> {
            &&& method is Get && path@ == "/"@ ==> says(
                r,
                200,
                "OK"@,
                "text/html; charset=utf-8"@,
                assets.index_html@,
            )
            &&& method is Get && path@ == "/hello"@ ==> says(
                r,
                200,
                "OK"@,
                "text/plain"@,
                "Hello from the ESP32-C6!\n"@,
            )
            &&& method is Get && path@ == "/upload"@ ==> says(
                r,
                200,
                "OK"@,
                "text/html; charset=utf-8"@,
                assets.upload_html@,
            )
            &&& method is Get && path@ == "/assets/base_style.css"@ ==> says(
                r,
                200,
                "OK"@,
                "text/css"@,
                assets.base_style_css@,
            )
            &&& !(method is Get && (path@ == "/"@ || path@ == "/hello"@ || path@ == "/upload"@
                || path@ == "/assets/base_style.css"@)) ==> says(
                r,
                404,
                "Not Found"@,
                "text/plain"@,
                "404 Not Found\n"@,
            )
        },
{
    lemma_paths_differ();
    if let Reply::Send(r) = reply {
        let view = fixed_answer(route_of(method, path@), assets)->0;
        lemma_says(r, view.status, view.reason, view.headers[0].1, view.body);
    }
}

/// The length in the header is the size, in decimal notation.
pub proof fn law_content_length_reads_back(size: u32, value: LengthText)
    requires
        call_ensures(content_length, (size,), value),
    ensures
        text::decimal_value(bounded::length_text(value)) == size,
        bounded::length_text(value) == text::decimal(size as nat),
{
    text::law_decimal_reads_back(size as nat);
}

/// Whether an answer announces a file of `size` bytes, to be stored under the name of the file, and
/// has no text of its own.
pub open spec fn announces_file(response: Response, size: int) -> bool {
    &&& response.status == 200
    &&& response.reason@ == "OK"@
    &&& response.headers@.len() == 3
    &&& response.headers@[0].name@ == "Content-Type"@
    &&& response.headers@[0].value@ == "application/octet-stream"@
    &&& response.headers@[1].name@ == "Content-Length"@
    &&& text::decimal_value(response.headers@[1].value@) == size
    &&& response.headers@[1].value@ == text::decimal(size as nat)
    &&& response.headers@[2].name@ == "Content-Disposition"@
    &&& response.headers@[2].value@ == "attachment; filename=\""@ + FILE_NAME@ + "\""@
    &&& response.body@.len() == 0
}

proof fn lemma_announces_file(response: Response, size: nat)
    requires
        response@ == file_head(size),
    ensures
        announces_file(response, size as int),
{
    text::law_decimal_reads_back(size);
    reveal_strlit("attachment; filename=\"Test.bin\"");
    reveal_strlit("attachment; filename=\"");
    reveal_strlit("Test.bin");
    reveal_strlit("\"");
    reveal_strlit("");
    assert("attachment; filename=\"Test.bin\""@ =~= "attachment; filename=\""@ + FILE_NAME@ + "\""@);
    let headers = response@.headers;
    assert(headers.len() == response.headers@.len());
    assert(headers[0] == (response.headers@[0].name@, response.headers@[0].value@));
    assert(headers[1] == (response.headers@[1].name@, response.headers@[1].value@));
    assert(headers[2] == (response.headers@[2].name@, response.headers@[2].value@));
}

/// A file is announced with the size that it was opened with: once it is open, the head of the
/// answer is sent, and the length in it reads back as exactly this size.
pub proof fn law_opened_size_is_announced(
    size: u32,
    next: DownloadCall,
    head: Option<Response<'static>>,
)
    requires
        call_ensures(handle_get_file, (DownloadCall::Open, DownloadEvent::Opened(size)), next),
        call_ensures(download_answer, (next,), head),
    ensures
        next == DownloadCall::SendHead(size),
        head matches Some(response) && announces_file(response, size as int),
{
    lemma_announces_file(head->0, size as nat);
}

/// A file that cannot be opened is answered with status 404.
pub proof fn law_missing_file_is_404(next: DownloadCall, answer: Option<Response<'static>>)
    requires
        call_ensures(handle_get_file, (DownloadCall::Open, DownloadEvent::OpenFailed), next),
        call_ensures(download_answer, (next,), answer),
    ensures
        next is AnswerMissing,
        answer matches Some(response) && says(
            response,
            404,
            "Not Found"@,
            "text/plain"@,
            "File not found\n"@,
        ),
{
    lemma_says(answer->0, 404, "Not Found"@, "text/plain"@, "File not found\n"@);
}

/// The two answers of giving the file out, each by itself, and that no other step has one.
pub proof fn law_download_answers(
    size: u32,
    call: DownloadCall,
    head: Response<'static>,
    missing: Response<'static>,
    answer: Option<Response<'static>>,
)
    requires
        call_ensures(handle_get_file_head, (size,), head),
        call_ensures(handle_get_file_missing, (), missing),
        call_ensures(download_answer, (call,), answer),
    ensures
        announces_file(head, size as int),
        says(missing, 404, "Not Found"@, "text/plain"@, "File not found\n"@),
        answer is Some <==> call is SendHead || call is AnswerMissing,
        call matches DownloadCall::SendHead(n) ==> announces_file(answer->0, n as int),
        call is AnswerMissing ==> says(
            answer->0,
            404,
            "Not Found"@,
            "text/plain"@,
            "File not found\n"@,
        ),
{
    lemma_announces_file(head, size as nat);
    lemma_says(missing, 404, "Not Found"@, "text/plain"@, "File not found\n"@);
    if let DownloadCall::SendHead(n) = call {
        lemma_announces_file(answer->0, n as nat);
    }
    if call is AnswerMissing {
        lemma_says(answer->0, 404, "Not Found"@, "text/plain"@, "File not found\n"@);
    }
}

/// Every step of giving the file out: behind the head, pieces are fetched and sent in turn, each as
/// long as it was fetched, until nothing is left, fetching fails, or the client is gone.
pub proof fn law_download_steps(call: DownloadCall, event: DownloadEvent, next: DownloadCall)
    requires
        call_ensures(handle_get_file, (call, event), next),
    ensures
        (call is SendHead || call is Send) && event is Sent ==> next is Fetch,
        (call is SendHead || call is Send) && event is SendFailed ==> next is Abandoned,
        call is Fetch ==> (event matches DownloadEvent::Fetched(len) ==> next == if len > 0 {
            DownloadCall::Send(len)
        } else {
            DownloadCall::Finished
        }),
        call is Fetch && event is FetchFailed ==> next is Finished,
        (call is SendHead || call is Send) && !(event is Sent || event is SendFailed) ==> next
            == call,
        call is Fetch && !(event is Fetched || event is FetchFailed) ==> next == call,
        call is Open && !(event is Opened || event is OpenFailed) ==> next == call,
        call is AnswerMissing || call is Finished || call is Abandoned ==> next == call,
{
}

/// Every step of an upload: what is received is stored, whole, before more is received, and only
/// what was stored is counted. Nothing more to receive ends it with success, a file that cannot be
/// opened or written with failure, and a client that is gone without an answer.
pub proof fn law_upload_steps(upload: Upload, event: UploadEvent, next: Upload)
    requires
        call_ensures(Upload::handle_post_upload, (upload, event), next),
        upload.call matches UploadCall::Store(len) ==> upload.total + len <= usize::MAX,
    ensures
        upload.call is Open && event is Opened ==> next.call is Receive,
        upload.call is Open && event is OpenFailed ==> next.call is AnswerFailed,
        upload.call is Receive ==> (event matches UploadEvent::Received(len) ==> next.call == if len
            > 0 {
            UploadCall::Store(len)
        } else {
            UploadCall::AnswerStored
        }),
        upload.call is Receive && event is ReceiveFailed ==> next.call is Abandoned,
        upload.call is Store && event is Stored ==> next.call is Receive,
        upload.call is Store && event is StoreFailed ==> next.call is AnswerFailed,
        upload.call is Open && !(event is Opened || event is OpenFailed) ==> next == upload,
        upload.call is Receive && !(event is Received || event is ReceiveFailed) ==> next == upload,
        upload.call is Store && !(event is Stored || event is StoreFailed) ==> next == upload,
        upload.call is AnswerStored || upload.call is AnswerFailed || upload.call is Abandoned
            ==> next == upload,
        upload.call matches UploadCall::Store(len) ==> (event is Stored ==> next.total
            == upload.total + len),
        !(upload.call is Store && event is Stored) ==> next.total == upload.total,
{
}

/// An upload begins with opening the file, and nothing is counted yet; a download begins with
/// opening the file too.
pub proof fn law_transfers_begin_with_opening(upload: Upload, download: DownloadCall)
    requires
        call_ensures(Upload::begin, (), upload),
        call_ensures(download_begin, (), download),
    ensures
        upload.call is Open,
        upload.total == 0,
        download is Open,
{
}

/// An upload that is stored is answered with status 200, one that failed with status 500, and
/// nothing else ends in an answer.
pub proof fn law_uploads_are_answered(upload: Upload, answer: Option<Response<'static>>)
    requires
        call_ensures(upload_answer, (upload,), answer),
    ensures
        answer is Some <==> upload.call is AnswerStored || upload.call is AnswerFailed,
        upload.call is AnswerStored ==> says(
            answer->0,
            200,
            "OK"@,
            "text/plain"@,
            "Upload successful\n"@,
        ),
        upload.call is AnswerFailed ==> says(
            answer->0,
            500,
            "Internal Server Error"@,
            "text/plain"@,
            "Upload failed\n"@,
        ),
{
    if upload.call is AnswerStored {
        lemma_says(answer->0, 200, "OK"@, "text/plain"@, "Upload successful\n"@);
    }
    if upload.call is AnswerFailed {
        lemma_says(
            answer->0,
            500,
            "Internal Server Error"@,
            "text/plain"@,
            "Upload failed\n"@,
        );
    }
}

/// An upload makes the file anew, whether there was one or not, and a download only reads it.
pub proof fn law_upload_replaces_file(up: OpenMode, down: OpenMode)
    requires
        call_ensures(upload_mode, (), up),
        call_ensures(download_mode, (), down),
    ensures
        up.write && up.create && up.truncate && !up.read,
        down.read && !down.write && !down.create && !down.truncate,
{
}

/// The server is started again at once, or after an error a tenth of a second later.
pub proof fn law_server_pauses_after_errors(failed: bool, pause: u64)
    requires
        call_ensures(server_pause, (failed,), pause),
    ensures
        failed ==> pause == 100_000,
        !failed ==> pause == 0,
{
}

} // verus!
