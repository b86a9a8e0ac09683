use print_bot::event::{classify, file_name_for, get_user, path_in, Body, Document, Event, Sender};
use print_bot::media::is_pdf_type;
use print_bot::outcome::{pages_text, PBError, PBSuccess};
use print_bot::pipeline::{Action, Config, Feedback, Outbound, Recipient, Session, Stage};
use print_bot::stamp::Timestamp;

fn time() -> Timestamp {
    Timestamp::new(2024, 1, 2, 3, 4, 5).unwrap()
}

fn config() -> Config {
    Config { upload_dir: "uploads".to_string(), admin_group: "-100".to_string() }
}

fn sender(name: &str) -> Option<Sender> {
    Some(Sender { id: 7, username: Some(name.to_string()) })
}

fn document(mime: Option<&str>, name: Option<&str>) -> Document {
    Document {
        file_id: "file-1".to_string(),
        mime_type: mime.map(|m| m.to_string()),
        file_name: name.map(|n| n.to_string()),
    }
}

fn event(from: Option<Sender>, doc: Option<Document>) -> Event {
    Event { body: Body::Common { from, document: doc }, date: time() }
}

fn texts(messages: &[Outbound]) -> Vec<(Recipient, String)> {
    messages.iter().map(|m| (m.to, m.text.clone())).collect()
}

fn report(action: Action) -> Vec<(Recipient, String)> {
    match action {
        Action::Report { messages } => texts(&messages),
        _ => panic!("expected a report"),
    }
}

fn started(from: Option<Sender>, doc: Document) -> Session {
    let (session, action) = Session::start(&config(), &event(from, Some(doc)));
    assert!(matches!(action, Action::Fetch { .. }));
    session
}

#[test]
fn pages_one_is_singular() {
    assert_eq!(pages_text(1), "1 page");
}

#[test]
fn pages_zero_and_many_are_plural() {
    assert_eq!(pages_text(0), "0 pages");
    assert_eq!(pages_text(2), "2 pages");
    assert_eq!(pages_text(10), "10 pages");
    assert_eq!(pages_text(u32::MAX), "4294967295 pages");
}

#[test]
fn user_from_handle() {
    assert_eq!(get_user(&sender("alice")), "alice");
}

#[test]
fn user_from_numeric_id() {
    assert_eq!(get_user(&Some(Sender { id: 42, username: None })), "42");
    assert_eq!(get_user(&Some(Sender { id: 0, username: None })), "0");
    assert_eq!(get_user(&Some(Sender { id: u64::MAX, username: None })), "18446744073709551615");
}

#[test]
fn user_unknown_without_sender() {
    assert_eq!(get_user(&None), "unknown user");
}

#[test]
fn media_type_must_be_exactly_pdf() {
    assert!(is_pdf_type(&"application/pdf".to_string()));
    assert!(!is_pdf_type(&"application/x-pdf".to_string()));
    assert!(!is_pdf_type(&"APPLICATION/PDF".to_string()));
    assert!(!is_pdf_type(&"".to_string()));
}

#[test]
fn message_without_document_is_refused() {
    let intake = classify(&event(sender("carol"), None));
    assert_eq!(intake.user, "carol");
    let error = intake.verdict.err().unwrap();
    assert!(matches!(error, PBError::NoDocumentError));
    assert_eq!(error.to_user_string(), "Please send a PDF document 😐");
    let (_, action) = Session::start(&config(), &event(None, None));
    assert_eq!(
        report(action),
        vec![
            (Recipient::Admin, "unknown user: Please send a PDF document 😐".to_string()),
            (Recipient::Sender, "Please send a PDF document 😐".to_string()),
        ]
    );
}

#[test]
fn document_of_other_type_is_refused_with_its_type() {
    let intake = classify(&event(sender("dave"), Some(document(Some("image/png"), Some("cat.png")))));
    match intake.verdict {
        Err(PBError::WrongFileError(m)) => assert_eq!(m, "image/png"),
        _ => panic!("expected a wrong file type"),
    }
    let (session, action) =
        Session::start(&config(), &event(sender("dave"), Some(document(Some("text/plain"), None))));
    assert_eq!(session.stage, Stage::Done);
    assert_eq!(
        report(action),
        vec![
            (Recipient::Admin, "dave: Please send a PDF document, not a text/plain 😐".to_string()),
            (Recipient::Sender, "Please send a PDF document, not a text/plain 😐".to_string()),
        ]
    );
}

#[test]
fn document_without_type_is_refused_as_unknown() {
    let intake = classify(&event(sender("erin"), Some(document(None, Some("a.pdf")))));
    match intake.verdict {
        Err(PBError::WrongFileError(m)) => assert_eq!(m, "unknown"),
        _ => panic!("expected a wrong file type"),
    }
}

#[test]
fn other_message_kind_is_refused() {
    let (_, action) = Session::start(&config(), &Event { body: Body::Other, date: time() });
    assert_eq!(
        report(action),
        vec![
            (Recipient::Admin, "unknown user: Unknown message kind".to_string()),
            (Recipient::Sender, "Please send a PDF document 😐".to_string()),
        ]
    );
}

#[test]
fn classifying_twice_gives_the_same_verdict() {
    let e = event(sender("bob"), Some(document(Some("application/pdf"), Some("report.pdf"))));
    let first = classify(&e);
    let second = classify(&e);
    assert_eq!(first.user, second.user);
    let (a, b) = (first.verdict.ok().unwrap(), second.verdict.ok().unwrap());
    assert_eq!(a.file_id, b.file_id);
    assert_eq!(a.file_name, b.file_name);
    let w = event(sender("bob"), Some(document(Some("image/gif"), None)));
    assert!(matches!(
        (classify(&w).verdict, classify(&w).verdict),
        (Err(PBError::WrongFileError(_)), Err(PBError::WrongFileError(_)))
    ));
}

#[test]
fn accepted_document_without_name_is_no_name() {
    let upload = classify(&event(sender("bob"), Some(document(Some("application/pdf"), None))))
        .verdict
        .ok()
        .unwrap();
    assert_eq!(upload.file_name, "no_name");
    assert_eq!(upload.file_id, "file-1");
}

#[test]
fn timestamp_parts_are_checked() {
    assert!(Timestamp::new(2024, 2, 29, 0, 0, 0).is_some());
    assert!(Timestamp::new(2023, 2, 29, 0, 0, 0).is_none());
    assert!(Timestamp::new(1900, 2, 29, 0, 0, 0).is_none());
    assert!(Timestamp::new(2000, 2, 29, 0, 0, 0).is_some());
    assert!(Timestamp::new(2024, 4, 31, 0, 0, 0).is_none());
    assert!(Timestamp::new(2024, 13, 1, 0, 0, 0).is_none());
    assert!(Timestamp::new(2024, 0, 1, 0, 0, 0).is_none());
    assert!(Timestamp::new(2024, 1, 0, 0, 0, 0).is_none());
    assert!(Timestamp::new(2024, 1, 1, 24, 0, 0).is_none());
    assert!(Timestamp::new(2024, 1, 1, 0, 60, 0).is_none());
    assert!(Timestamp::new(2024, 1, 1, 0, 0, 60).is_none());
    assert!(Timestamp::new(10000, 1, 1, 0, 0, 0).is_none());
}

#[test]
fn timestamp_is_zero_padded() {
    assert_eq!(time().format(), "2024-01-02_03-04-05");
    assert_eq!(Timestamp::new(7, 12, 31, 23, 59, 59).unwrap().format(), "0007-12-31_23-59-59");
}

#[test]
fn file_name_gets_pdf_extension() {
    let t = time();
    assert_eq!(
        file_name_for(&t, &"bob".to_string(), &"report.pdf".to_string()),
        "2024-01-02_03-04-05_bob_report.pdf"
    );
    assert_eq!(
        file_name_for(&t, &"bob".to_string(), &"notes.txt".to_string()),
        "2024-01-02_03-04-05_bob_notes.pdf"
    );
    assert_eq!(
        file_name_for(&t, &"bob".to_string(), &"archive".to_string()),
        "2024-01-02_03-04-05_bob_archive.pdf"
    );
    assert_eq!(
        file_name_for(&t, &"bob".to_string(), &"a.tar.gz".to_string()),
        "2024-01-02_03-04-05_bob_a.tar.pdf"
    );
    assert_eq!(
        file_name_for(&t, &"b.o".to_string(), &"x".to_string()),
        "2024-01-02_03-04-05_b.pdf"
    );
}

#[test]
fn path_joins_directory_and_name() {
    assert_eq!(path_in(&"uploads".to_string(), &"a.pdf".to_string()), "uploads/a.pdf");
    assert_eq!(path_in(&"uploads/".to_string(), &"a.pdf".to_string()), "uploads/a.pdf");
    assert_eq!(path_in(&"".to_string(), &"a.pdf".to_string()), "a.pdf");
}

#[test]
fn error_texts_for_sender() {
    let cause = "boom".to_string();
    assert_eq!(PBError::LpError(cause.clone()).to_user_string(), "Printer is not responding. Sorry");
    assert_eq!(
        PBError::PdfInfoError(cause.clone()).to_user_string(),
        "Error getting the number of pages: boom"
    );
    assert_eq!(
        PBError::WrongFileError("image/png".to_string()).to_user_string(),
        "Please send a PDF document, not a image/png 😐"
    );
    assert_eq!(PBError::UnknownMessageKindError.to_user_string(), "Please send a PDF document 😐");
    assert_eq!(PBError::NoDocumentError.to_user_string(), "Please send a PDF document 😐");
    assert_eq!(
        PBError::RequestError(cause.clone()).to_user_string(),
        "Failed to process your file. Try again or with another file"
    );
    assert_eq!(
        PBError::DownloadError(cause).to_user_string(),
        "Failed to download your file. Try again or with another file"
    );
}

#[test]
fn error_texts_for_admin() {
    let cause = "boom".to_string();
    assert_eq!(PBError::LpError(cause.clone()).to_admin_string(), "Error printing the document: boom");
    assert_eq!(
        PBError::PdfInfoError(cause.clone()).to_admin_string(),
        "Error getting the number of pages: boom"
    );
    assert_eq!(
        PBError::WrongFileError("image/png".to_string()).to_admin_string(),
        "Please send a PDF document, not a image/png 😐"
    );
    assert_eq!(PBError::UnknownMessageKindError.to_admin_string(), "Unknown message kind");
    assert_eq!(PBError::NoDocumentError.to_admin_string(), "Please send a PDF document 😐");
    assert_eq!(PBError::RequestError(cause.clone()).to_admin_string(), "Request error: boom");
    assert_eq!(PBError::DownloadError(cause).to_admin_string(), "Download error: boom");
}

#[test]
fn success_report_text() {
    let s = PBSuccess { pages: 1, file_name: "cv.pdf".to_string() };
    assert_eq!(s.to_report_string(), "1 page of file cv.pdf sent to the printer");
}

#[test]
fn scenario_printed_document() {
    let (mut session, action) = Session::start(
        &config(),
        &event(sender("bob"), Some(document(Some("application/pdf"), Some("report.pdf")))),
    );
    match action {
        Action::Fetch { file_id, path } => {
            assert_eq!(file_id, "file-1");
            assert_eq!(path, "uploads/2024-01-02_03-04-05_bob_report.pdf");
        }
        _ => panic!("expected a fetch"),
    }
    match session.step(Feedback::Located(Ok("documents/file_3.pdf".to_string()))) {
        Action::Download { remote, path } => {
            assert_eq!(remote, "documents/file_3.pdf");
            assert_eq!(path, "uploads/2024-01-02_03-04-05_bob_report.pdf");
        }
        _ => panic!("expected a download"),
    }
    match session.step(Feedback::Downloaded(Ok(()))) {
        Action::CountPages { path } => assert_eq!(path, "uploads/2024-01-02_03-04-05_bob_report.pdf"),
        _ => panic!("expected a page count"),
    }
    let output = b"Title:          report\nPages:          3\nEncrypted:      no\n".to_vec();
    match session.step(Feedback::Counted(Ok(output))) {
        Action::Print { path } => assert_eq!(path, "uploads/2024-01-02_03-04-05_bob_report.pdf"),
        _ => panic!("expected a print"),
    }
    assert_eq!(session.pages, 3);
    assert_eq!(
        report(session.step(Feedback::Printed(Ok(())))),
        vec![
            (Recipient::Sender, "3 pages of file report.pdf sent to the printer".to_string()),
            (Recipient::Admin, "bob: 3 pages of file report.pdf sent to the printer".to_string()),
        ]
    );
    assert_eq!(session.stage, Stage::Done);
}

#[test]
fn scenario_page_count_tool_missing() {
    let mut session = started(sender("bob"), document(Some("application/pdf"), Some("report.pdf")));
    session.step(Feedback::Located(Ok("remote".to_string())));
    session.step(Feedback::Downloaded(Ok(())));
    let action = session.step(Feedback::Counted(Err("not found".to_string())));
    assert_eq!(
        report(action),
        vec![
            (Recipient::Admin, "bob: Error getting the number of pages: not found".to_string()),
            (Recipient::Sender, "Error getting the number of pages: not found".to_string()),
        ]
    );
    assert_eq!(session.stage, Stage::Done);
    assert!(!session.expects(&Feedback::Printed(Ok(()))));
}

#[test]
fn request_failure_is_reported() {
    let mut session = started(sender("bob"), document(Some("application/pdf"), None));
    let action = session.step(Feedback::Located(Err("timeout".to_string())));
    assert_eq!(
        report(action),
        vec![
            (Recipient::Admin, "bob: Request error: timeout".to_string()),
            (Recipient::Sender, "Failed to process your file. Try again or with another file".to_string()),
        ]
    );
}

#[test]
fn download_failure_is_reported() {
    let mut session = started(sender("bob"), document(Some("application/pdf"), None));
    session.step(Feedback::Located(Ok("remote".to_string())));
    let action = session.step(Feedback::Downloaded(Err("reset".to_string())));
    assert_eq!(
        report(action),
        vec![
            (Recipient::Admin, "bob: Download error: reset".to_string()),
            (Recipient::Sender, "Failed to download your file. Try again or with another file".to_string()),
        ]
    );
}

#[test]
fn print_failure_is_reported() {
    let mut session = started(Some(Sender { id: 42, username: None }), document(Some("application/pdf"), None));
    session.step(Feedback::Located(Ok("remote".to_string())));
    session.step(Feedback::Downloaded(Ok(())));
    session.step(Feedback::Counted(Ok(b"Pages: 1".to_vec())));
    let action = session.step(Feedback::Printed(Err("no lp".to_string())));
    assert_eq!(
        report(action),
        vec![
            (Recipient::Admin, "42: Error printing the document: no lp".to_string()),
            (Recipient::Sender, "Printer is not responding. Sorry".to_string()),
        ]
    );
}

#[test]
fn malformed_tool_output_is_a_page_count_error() {
    let mut session = started(sender("bob"), document(Some("application/pdf"), None));
    session.step(Feedback::Located(Ok("remote".to_string())));
    session.step(Feedback::Downloaded(Ok(())));
    let action = session.step(Feedback::Counted(Ok(b"Pages: many\n".to_vec())));
    assert_eq!(
        report(action),
        vec![
            (
                Recipient::Admin,
                "bob: Error getting the number of pages: no page count in the tool's output".to_string()
            ),
            (
                Recipient::Sender,
                "Error getting the number of pages: no page count in the tool's output".to_string()
            ),
        ]
    );
}

#[test]
fn session_expects_the_feedback_of_its_stage() {
    let mut session = started(sender("bob"), document(Some("application/pdf"), None));
    assert!(session.expects(&Feedback::Located(Ok("r".to_string()))));
    assert!(!session.expects(&Feedback::Downloaded(Ok(()))));
    session.step(Feedback::Located(Ok("r".to_string())));
    assert!(session.expects(&Feedback::Downloaded(Ok(()))));
}
