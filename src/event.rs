//! An incoming chat message, who sent it, and whether it is printed.
use vstd::prelude::*;
use crate::digits::{decimal, decimal_string};
use crate::media::{is_pdf_type, pdf_media_type};
use crate::outcome::{ErrorModel, PBError};
use crate::stamp::{stamp_text, Timestamp};

verus! {

/// The sender of a message: a numeric id, and a handle where there is one.
pub struct Sender {
    pub id: u64,
    pub username: Option<String>,
}

/// A document attached to a message.
pub struct Document {
    /// The chat service's identifier of the remote file.
    pub file_id: String,
    /// The media type that the sender declared.
    pub mime_type: Option<String>,
    /// The file's original name.
    pub file_name: Option<String>,
}

/// What a message carries.
pub enum Body {
    /// An ordinary message, with or without a sender and a document.
    Common { from: Option<Sender>, document: Option<Document> },
    /// Any other kind of message: a service notice, a member joining, and the like.
    Other,
}

/// One incoming message.
pub struct Event {
    pub body: Body,
    pub date: Timestamp,
}

/// A document accepted for printing.
pub struct Upload {
    pub file_id: String,
    /// The original name, or `no_name`.
    pub file_name: String,
}

/// How a message is taken: who sent it, and the document to print or the error.
pub struct Intake {
    pub user: String,
    pub verdict: Result<Upload, PBError>,
}

/// A verdict in terms of text: print the remote file under this name, or refuse with this error.
pub enum Verdict {
    Print(Seq<char>, Seq<char>),
    Reject(ErrorModel),
}

pub open spec fn unknown_user() -> Seq<char> {
    "unknown user"@
}

pub open spec fn no_name() -> Seq<char> {
    "no_name"@
}

pub open spec fn unknown_type() -> Seq<char> {
    "unknown"@
}

/// The sender's handle; else the decimal text of the sender's id; else `unknown user`.
pub open spec fn identity(from: Option<Sender>) -> Seq<char> {
    match from {
        Some(u) => match u.username {
            Some(name) => name@,
            None => decimal(u.id as nat),
        },
        None => unknown_user(),
    }
}

/// Who sent a message, as the reports name them.
pub open spec fn sender_of(body: Body) -> Seq<char> {
    match body {
        Body::Common { from, .. } => identity(from),
        Body::Other => unknown_user(),
    }
}

pub open spec fn name_or_default(name: Option<String>) -> Seq<char> {
    match name {
        Some(n) => n@,
        None => no_name(),
    }
}

/// A document declared as a PDF is printed; any other document is refused
/// with its declared type; a message without one is refused.
pub open spec fn verdict_of(body: Body) -> Verdict {
    match body {
        Body::Other => Verdict::Reject(ErrorModel::UnknownMessageKind),
        Body::Common { document: None, .. } => Verdict::Reject(ErrorModel::NoDocument),
        Body::Common { document: Some(d), .. } => match d.mime_type {
            Some(m) => if m@ == pdf_media_type() {
                Verdict::Print(d.file_id@, name_or_default(d.file_name))
            } else {
                Verdict::Reject(ErrorModel::WrongFile(m@))
            },
            None => Verdict::Reject(ErrorModel::WrongFile(unknown_type())),
        },
    }
}

pub open spec fn verdict_view(r: Result<Upload, PBError>) -> Verdict {
    match r {
        Ok(u) => Verdict::Print(u.file_id@, u.file_name@),
        Err(e) => Verdict::Reject(e@),
    }
}

/// Whether two messages carry the same content: the same kind, sender,
/// document and time, compared by the text of each field.
pub open spec fn same_content(a: Event, b: Event) -> bool {
    &&& a.date == b.date
    &&& sender_of(a.body) == sender_of(b.body)
    &&& match (a.body, b.body) {
        (Body::Other, Body::Other) => true,
        (Body::Common { document: None, .. }, Body::Common { document: None, .. }) => true,
        (Body::Common { document: Some(x), .. }, Body::Common { document: Some(y), .. }) => {
            &&& x.file_id@ == y.file_id@
            &&& name_or_default(x.file_name) == name_or_default(y.file_name)
            &&& match (x.mime_type, y.mime_type) {
                (Some(m), Some(n)) => m@ == n@,
                (None, None) => true,
                _ => false,
            }
        },
        _ => false,
    }
}

/// Who sent the message: the handle, else the decimal id, else `unknown user`.
pub fn get_user(from: &Option<Sender>) -> (r: String)
    ensures
        r@ == identity(*from),
{
    match from {
        Some(u) => match &u.username {
            Some(name) => name.clone(),
            None => decimal_string(u.id),
        },
        None => String::from_str("unknown user"),
    }
}

/// Takes a message in: who sent it, and whether its document is printed.
pub fn classify(event: &Event) -> (r: Intake)
    ensures
        r.user@ == sender_of(event.body),
        verdict_view(r.verdict) == verdict_of(event.body),
{
    match &event.body {
        Body::Other => Intake {
            user: String::from_str("unknown user"),
            verdict: Err(PBError::UnknownMessageKindError),
        },
        Body::Common { from, document } => {
            let user = get_user(from);
            let verdict = match document {
                None => Err(PBError::NoDocumentError),
                Some(d) => match &d.mime_type {
                    Some(m) => if is_pdf_type(m) {
                        let file_name = match &d.file_name {
                            Some(n) => n.clone(),
                            None => String::from_str("no_name"),
                        };
                        Ok(Upload { file_id: d.file_id.clone(), file_name })
                    } else {
                        Err(PBError::WrongFileError(m.clone()))
                    },
                    None => Err(PBError::WrongFileError(String::from_str("unknown"))),
                },
            };
            Intake { user, verdict }
        },
    }
}

/// The position of the last `.` among the first `n` characters of `s`, or -1.
pub open spec fn last_dot(s: Seq<char>, n: int) -> int
    decreases n,
{
    if n <= 0 {
        -1
    } else if s[n - 1] == '.' {
        n - 1
    } else {
        last_dot(s, n - 1)
    }
}

/// `name` with its extension made `pdf`: what follows its last `.` is replaced,
/// unless that `.` opens the name, in which case `.pdf` is added.
pub open spec fn with_pdf_extension(name: Seq<char>) -> Seq<char> {
    let k = last_dot(name, name.len() as int);
    if k > 0 {
        name.take(k) + ".pdf"@
    } else {
        name + ".pdf"@
    }
}

/// The name a stored document gets: the message's time, the sender and the
/// original name, joined by `_`, with the extension `pdf`.
pub open spec fn destination_name(date: Timestamp, user: Seq<char>, file_name: Seq<char>) -> Seq<char> {
    with_pdf_extension(stamp_text(date) + "_"@ + user + "_"@ + file_name)
}

/// `name` inside the directory `dir`.
pub open spec fn joined(dir: Seq<char>, name: Seq<char>) -> Seq<char> {
    if dir.len() == 0 || dir.last() == '/' {
        dir + name
    } else {
        dir + "/"@ + name
    }
}

fn pdf_extension_of(name: &String) -> (r: String)
    ensures
        r@ == with_pdf_extension(name@),
{
    proof {
        reveal_strlit(".pdf");
    }
    let s = name.as_str();
    let n = s.unicode_len();
    let mut i: usize = n;
    while i > 0 && s.get_char(i - 1) != '.'
        invariant
            i <= n == s@.len(),
            s@ == name@,
            last_dot(s@, n as int) == last_dot(s@, i as int),
        decreases i,
    {
        i = i - 1;
    }
    if i > 1 {
        let mut r = String::from_str(s.substring_char(0, i - 1));
        r.append(".pdf");
        assert(r@ =~= with_pdf_extension(name@));
        r
    } else {
        let mut r = name.clone();
        r.append(".pdf");
        r
    }
}

/// The name under which the document of a message is stored.
pub fn file_name_for(date: &Timestamp, user: &String, file_name: &String) -> (r: String)
    requires
        date.wf(),
    ensures
        r@ == destination_name(*date, user@, file_name@),
{
    let mut composed = date.format();
    composed.append("_");
    composed.append(user.as_str());
    composed.append("_");
    composed.append(file_name.as_str());
    pdf_extension_of(&composed)
}

/// The path of `name` inside the directory `dir`.
pub fn path_in(dir: &String, name: &String) -> (r: String)
    ensures
        r@ == joined(dir@, name@),
{
    proof {
        reveal_strlit("/");
    }
    let d = dir.as_str();
    let n = d.unicode_len();
    let mut r = dir.clone();
    if n > 0 && d.get_char(n - 1) != '/' {
        r.append("/");
    }
    r.append(name.as_str());
    r
}

} // verus!
