//! What handling one message comes to, and the texts that report it.
use vstd::prelude::*;
use crate::digits::{decimal, push_decimal};

verus! {

/// Why a message was not printed.
#[derive(Debug)]
pub enum PBError {
    /// The print tool could not be run; the cause.
    LpError(String),
    /// The page-count tool could not be run or its output held no count; the cause.
    PdfInfoError(String),
    /// A document of another media type; the declared type.
    WrongFileError(String),
    /// A message of a kind that carries no content to look at.
    UnknownMessageKindError,
    /// A message without a document.
    NoDocumentError,
    /// The chat service did not describe the remote file; the cause.
    RequestError(String),
    /// The chat service did not deliver the file's bytes; the cause.
    DownloadError(String),
}

/// The model of a `PBError`: the same kind, with the text it carries.
pub enum ErrorModel {
    Lp(Seq<char>),
    PdfInfo(Seq<char>),
    WrongFile(Seq<char>),
    UnknownMessageKind,
    NoDocument,
    Request(Seq<char>),
    Download(Seq<char>),
}

impl View for PBError {
    type V = ErrorModel;

    open spec fn view(&self) -> ErrorModel {
        match self {
            PBError::LpError(e) => ErrorModel::Lp(e@),
            PBError::PdfInfoError(e) => ErrorModel::PdfInfo(e@),
            PBError::WrongFileError(m) => ErrorModel::WrongFile(m@),
            PBError::UnknownMessageKindError => ErrorModel::UnknownMessageKind,
            PBError::NoDocumentError => ErrorModel::NoDocument,
            PBError::RequestError(e) => ErrorModel::Request(e@),
            PBError::DownloadError(e) => ErrorModel::Download(e@),
        }
    }
}

/// A document sent to the printer: its page count and its original name.
pub struct PBSuccess {
    pub pages: u32,
    pub file_name: String,
}

pub open spec fn printer_sorry_text() -> Seq<char> {
    "Printer is not responding. Sorry"@
}

pub open spec fn pages_error_text() -> Seq<char> {
    "Error getting the number of pages: "@
}

pub open spec fn wrong_type_text() -> Seq<char> {
    "Please send a PDF document, not a "@
}

pub open spec fn wrong_type_tail() -> Seq<char> {
    " 😐"@
}

pub open spec fn send_pdf_text() -> Seq<char> {
    "Please send a PDF document 😐"@
}

pub open spec fn unknown_kind_text() -> Seq<char> {
    "Unknown message kind"@
}

pub open spec fn try_again_text() -> Seq<char> {
    "Failed to process your file. Try again or with another file"@
}

pub open spec fn download_again_text() -> Seq<char> {
    "Failed to download your file. Try again or with another file"@
}

pub open spec fn printing_error_text() -> Seq<char> {
    "Error printing the document: "@
}

pub open spec fn request_error_text() -> Seq<char> {
    "Request error: "@
}

pub open spec fn download_error_text() -> Seq<char> {
    "Download error: "@
}

/// What the sender of the message is told of an error: never a raw cause
/// from the chat service or the print tool.
pub open spec fn user_text(e: ErrorModel) -> Seq<char> {
    match e {
        ErrorModel::Lp(_) => printer_sorry_text(),
        ErrorModel::PdfInfo(c) => pages_error_text() + c,
        ErrorModel::WrongFile(m) => wrong_type_text() + m + wrong_type_tail(),
        ErrorModel::UnknownMessageKind => send_pdf_text(),
        ErrorModel::NoDocument => send_pdf_text(),
        ErrorModel::Request(_) => try_again_text(),
        ErrorModel::Download(_) => download_again_text(),
    }
}

/// What the admin channel is told of an error: the cause wherever there is one.
pub open spec fn admin_text(e: ErrorModel) -> Seq<char> {
    match e {
        ErrorModel::Lp(c) => printing_error_text() + c,
        ErrorModel::PdfInfo(c) => pages_error_text() + c,
        ErrorModel::WrongFile(m) => wrong_type_text() + m + wrong_type_tail(),
        ErrorModel::UnknownMessageKind => unknown_kind_text(),
        ErrorModel::NoDocument => send_pdf_text(),
        ErrorModel::Request(c) => request_error_text() + c,
        ErrorModel::Download(c) => download_error_text() + c,
    }
}

/// "1 page" for one page, "{n} pages" for any other count.
pub open spec fn pages_phrase(n: nat) -> Seq<char> {
    if n == 1 {
        "1 page"@
    } else {
        decimal(n) + " pages"@
    }
}

/// The report of a document that was sent to the printer.
pub open spec fn success_text(pages: nat, file_name: Seq<char>) -> Seq<char> {
    pages_phrase(pages) + " of file "@ + file_name + " sent to the printer"@
}

/// The text that the admin channel gets: who sent the message, then the report.
pub open spec fn admin_line(user: Seq<char>, report: Seq<char>) -> Seq<char> {
    user + ": "@ + report
}

fn text_with(head: &str, tail: &String) -> (r: String)
    ensures
        r@ == head@ + tail@,
{
    let mut r = String::from_str(head);
    r.append(tail.as_str());
    r
}

impl PBError {
    /// The text for the sender of the message.
    pub fn to_user_string(&self) -> (r: String)
        ensures
            r@ == user_text(self@),
    {
        match self {
            PBError::LpError(_) => String::from_str("Printer is not responding. Sorry"),
            PBError::PdfInfoError(e) => text_with("Error getting the number of pages: ", e),
            PBError::WrongFileError(m) => {
                let mut r = text_with("Please send a PDF document, not a ", m);
                r.append(" 😐");
                r
            },
            PBError::UnknownMessageKindError => String::from_str("Please send a PDF document 😐"),
            PBError::NoDocumentError => String::from_str("Please send a PDF document 😐"),
            PBError::RequestError(_) => String::from_str(
                "Failed to process your file. Try again or with another file",
            ),
            PBError::DownloadError(_) => String::from_str(
                "Failed to download your file. Try again or with another file",
            ),
        }
    }

    /// The text for the admin channel.
    pub fn to_admin_string(&self) -> (r: String)
        ensures
            r@ == admin_text(self@),
    {
        match self {
            PBError::LpError(e) => text_with("Error printing the document: ", e),
            PBError::PdfInfoError(e) => text_with("Error getting the number of pages: ", e),
            PBError::WrongFileError(m) => {
                let mut r = text_with("Please send a PDF document, not a ", m);
                r.append(" 😐");
                r
            },
            PBError::UnknownMessageKindError => String::from_str("Unknown message kind"),
            PBError::NoDocumentError => String::from_str("Please send a PDF document 😐"),
            PBError::RequestError(e) => text_with("Request error: ", e),
            PBError::DownloadError(e) => text_with("Download error: ", e),
        }
    }
}

/// "1 page" for one page, "{n} pages" for any other count.
pub fn pages_text(n: u32) -> (r: String)
    ensures
        r@ == pages_phrase(n as nat),
{
    if n == 1 {
        String::from_str("1 page")
    } else {
        let mut r = String::new();
        push_decimal(&mut r, n as u64);
        r.append(" pages");
        proof {
            assert(r@ =~= pages_phrase(n as nat));
        }
        r
    }
}

impl PBSuccess {
    /// The report of this document: "{pages} of file {name} sent to the printer".
    pub fn to_report_string(&self) -> (r: String)
        ensures
            r@ == success_text(self.pages as nat, self.file_name@),
    {
        let mut r = pages_text(self.pages);
        r.append(" of file ");
        r.append(self.file_name.as_str());
        r.append(" sent to the printer");
        r
    }
}

/// `user`, a colon, then `report`.
pub fn admin_report(user: &String, report: &String) -> (r: String)
    ensures
        r@ == admin_line(user@, report@),
{
    let mut r = user.clone();
    r.append(": ");
    r.append(report.as_str());
    r
}

} // verus!
