use lidar_fill_state::http::{
    content_length, download_answer, download_begin, download_mode, handle, handle_get_file,
    route, server_pause, upload_answer, upload_mode, DownloadCall, DownloadEvent, Method, Reply,
    Response, Route, Upload, UploadCall, UploadEvent, WebAssets, DOWNLOAD_BUFFER, FILE_NAME,
    UPLOAD_BUFFER,
};

fn assets() -> WebAssets<'static> {
    WebAssets { index_html: "<p>index", upload_html: "<p>upload", base_style_css: "p {}" }
}

fn check(response: &Response, status: u16, reason: &str, content_type: &str, body: &str) {
    assert_eq!(response.status, status);
    assert_eq!(response.reason, reason);
    assert_eq!(response.headers.len(), 1);
    assert_eq!(response.headers[0].name, "Content-Type");
    assert_eq!(response.headers[0].value, content_type);
    assert_eq!(response.body, body);
}

fn answered(method: Method, path: &str) -> Response<'static> {
    match handle(method, path, &assets()) {
        Reply::Send(response) => response,
        _ => panic!("no answer for {}", path),
    }
}

#[test]
fn pages_are_found() {
    assert_eq!(route(Method::Get, "/"), Route::Root);
    assert_eq!(route(Method::Get, "/hello"), Route::Hello);
    assert_eq!(route(Method::Get, "/upload"), Route::UploadPage);
    assert_eq!(route(Method::Post, "/upload"), Route::Upload);
    assert_eq!(route(Method::Get, "/file"), Route::File);
    assert_eq!(route(Method::Get, "/assets/base_style.css"), Route::BaseCss);
}

#[test]
fn other_requests_find_nothing() {
    assert_eq!(route(Method::Get, ""), Route::NotFound);
    assert_eq!(route(Method::Get, "/hello/"), Route::NotFound);
    assert_eq!(route(Method::Get, "/Hello"), Route::NotFound);
    assert_eq!(route(Method::Get, "/?a=b"), Route::NotFound);
    assert_eq!(route(Method::Post, "/"), Route::NotFound);
    assert_eq!(route(Method::Post, "/file"), Route::NotFound);
    assert_eq!(route(Method::Other, "/upload"), Route::NotFound);
}

#[test]
fn fixed_answers() {
    check(&answered(Method::Get, "/"), 200, "OK", "text/html; charset=utf-8", "<p>index");
    check(&answered(Method::Get, "/hello"), 200, "OK", "text/plain", "Hello from the ESP32-C6!\n");
    check(&answered(Method::Get, "/upload"), 200, "OK", "text/html; charset=utf-8", "<p>upload");
    check(&answered(Method::Get, "/assets/base_style.css"), 200, "OK", "text/css", "p {}");
    check(&answered(Method::Get, "/nothing"), 404, "Not Found", "text/plain", "404 Not Found\n");
    assert!(matches!(handle(Method::Post, "/upload", &assets()), Reply::TakeUpload));
    assert!(matches!(handle(Method::Get, "/file", &assets()), Reply::GiveFile));
}

#[test]
fn lengths_are_decimal() {
    assert_eq!(content_length(0).as_str(), "0");
    assert_eq!(content_length(7).as_str(), "7");
    assert_eq!(content_length(2_162_688).as_str(), "2162688");
    assert_eq!(content_length(u32::MAX).as_str(), "4294967295");
}

#[test]
fn upload_of_three_pieces() {
    let mut upload = Upload::begin();
    assert_eq!(upload.call, UploadCall::Open);
    upload = upload.handle_post_upload(UploadEvent::Opened);
    for len in [8192, 8192, 100] {
        assert_eq!(upload.call, UploadCall::Receive);
        upload = upload.handle_post_upload(UploadEvent::Received(len));
        assert_eq!(upload.call, UploadCall::Store(len));
        assert!(upload_answer(upload).is_none());
        upload = upload.handle_post_upload(UploadEvent::Stored);
    }
    upload = upload.handle_post_upload(UploadEvent::Received(0));
    assert_eq!(upload.call, UploadCall::AnswerStored);
    assert_eq!(upload.total, 16_484);
    check(&upload_answer(upload).unwrap(), 200, "OK", "text/plain", "Upload successful\n");
}

#[test]
fn upload_failures() {
    let opening = Upload::begin().handle_post_upload(UploadEvent::OpenFailed);
    assert_eq!(opening.call, UploadCall::AnswerFailed);
    check(
        &upload_answer(opening).unwrap(),
        500,
        "Internal Server Error",
        "text/plain",
        "Upload failed\n",
    );
    let storing = Upload { call: UploadCall::Store(5), total: 10 };
    let failed = storing.handle_post_upload(UploadEvent::StoreFailed);
    assert_eq!(failed.call, UploadCall::AnswerFailed);
    assert_eq!(failed.total, 10);
    let receiving = Upload { call: UploadCall::Receive, total: 10 };
    let gone = receiving.handle_post_upload(UploadEvent::ReceiveFailed);
    assert_eq!(gone.call, UploadCall::Abandoned);
    assert!(upload_answer(gone).is_none());
}

#[test]
fn file_is_given_out_in_pieces() {
    let call = handle_get_file(download_begin(), DownloadEvent::Opened(1500));
    assert_eq!(call, DownloadCall::SendHead(1500));
    let head = download_answer(call).unwrap();
    assert_eq!(head.status, 200);
    assert_eq!(head.reason, "OK");
    assert_eq!(head.headers.len(), 3);
    assert_eq!(head.headers[0].name, "Content-Type");
    assert_eq!(head.headers[0].value, "application/octet-stream");
    assert_eq!(head.headers[1].name, "Content-Length");
    assert_eq!(head.headers[1].value, "1500");
    assert_eq!(head.headers[2].name, "Content-Disposition");
    assert_eq!(head.headers[2].value, "attachment; filename=\"Test.bin\"");
    assert_eq!(head.body, "");
    let mut call = handle_get_file(call, DownloadEvent::Sent);
    for len in [1024, 476] {
        assert_eq!(call, DownloadCall::Fetch);
        call = handle_get_file(call, DownloadEvent::Fetched(len));
        assert_eq!(call, DownloadCall::Send(len));
        call = handle_get_file(call, DownloadEvent::Sent);
    }
    assert_eq!(handle_get_file(call, DownloadEvent::Fetched(0)), DownloadCall::Finished);
}

#[test]
fn download_failures() {
    let missing = handle_get_file(download_begin(), DownloadEvent::OpenFailed);
    assert_eq!(missing, DownloadCall::AnswerMissing);
    check(
        &download_answer(missing).unwrap(),
        404,
        "Not Found",
        "text/plain",
        "File not found\n",
    );
    assert_eq!(
        handle_get_file(DownloadCall::Fetch, DownloadEvent::FetchFailed),
        DownloadCall::Finished
    );
    assert_eq!(
        handle_get_file(DownloadCall::Send(9), DownloadEvent::SendFailed),
        DownloadCall::Abandoned
    );
    assert_eq!(
        handle_get_file(DownloadCall::SendHead(9), DownloadEvent::SendFailed),
        DownloadCall::Abandoned
    );
    assert!(download_answer(DownloadCall::Fetch).is_none());
}

#[test]
fn file_is_opened_as_needed() {
    let up = upload_mode();
    assert!(!up.read && up.write && up.create && up.truncate);
    let down = download_mode();
    assert!(down.read && !down.write && !down.create && !down.truncate);
    assert_eq!(FILE_NAME, "Test.bin");
    assert_eq!(UPLOAD_BUFFER, 8192);
    assert_eq!(DOWNLOAD_BUFFER, 1024);
}

#[test]
fn server_rests_after_an_error() {
    assert_eq!(server_pause(false), 0);
    assert_eq!(server_pause(true), 100_000);
}
