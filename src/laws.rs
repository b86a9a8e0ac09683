//! What holds of every message the bot handles.
use vstd::prelude::*;
use crate::event::{destination_name, joined, same_content, sender_of, verdict_of, with_pdf_extension, Body, Event, Verdict};
use crate::media::pdf_media_type;
use crate::outcome::{pages_error_text, send_pdf_text, user_text, wrong_type_tail, wrong_type_text, ErrorModel};
use crate::pipeline::{failure_report, finished, next, start_of, ActionModel, FeedbackModel, Recipient, SessionModel, Stage};

verus! {

/// A message without a document is refused as such, and its sender is
/// asked, in the plain words of `send_pdf_text`, for a PDF document.
pub proof fn lemma_no_document(dir: Seq<char>, e: Event)
    requires
        e.body matches Body::Common { document: None, .. },
    ensures
        verdict_of(e.body) == Verdict::Reject(ErrorModel::NoDocument),
        start_of(dir, e).1 == ActionModel::Report(failure_report(sender_of(e.body), ErrorModel::NoDocument)),
        failure_report(sender_of(e.body), ErrorModel::NoDocument)[1] == (Recipient::Sender, send_pdf_text()),
{
}

/// A document of any declared type other than `application/pdf` is refused
/// with that type, and the text for its sender holds the type word for word.
pub proof fn lemma_wrong_type(dir: Seq<char>, e: Event, m: Seq<char>)
    requires
        e.body matches Body::Common { document: Some(d), .. } && d.mime_type matches Some(t) && t@ == m,
        m != pdf_media_type(),
    ensures
        verdict_of(e.body) == Verdict::Reject(ErrorModel::WrongFile(m)),
        start_of(dir, e).1 == ActionModel::Report(failure_report(sender_of(e.body), ErrorModel::WrongFile(m))),
        user_text(ErrorModel::WrongFile(m)).subrange(
            wrong_type_text().len() as int,
            (wrong_type_text().len() + m.len()) as int,
        ) == m,
{
    let text = user_text(ErrorModel::WrongFile(m));
    assert(text == wrong_type_text() + m + wrong_type_tail());
    assert(text.subrange(wrong_type_text().len() as int, (wrong_type_text().len() + m.len()) as int) =~= m);
}

/// A stored document's name always ends in `.pdf`.
pub proof fn lemma_pdf_extension(name: Seq<char>)
    ensures
        with_pdf_extension(name).len() >= 4,
        with_pdf_extension(name).subrange(
            with_pdf_extension(name).len() - 4,
            with_pdf_extension(name).len() as int,
        ) == ".pdf"@,
{
    let r = with_pdf_extension(name);
    reveal_strlit(".pdf");
    assert(r.subrange(r.len() - 4, r.len() as int) =~= ".pdf"@);
}

/// An accepted document is fetched into the file named after the message's
/// time, its sender and its original name, inside the upload directory.
pub proof fn lemma_stored_path(dir: Seq<char>, e: Event, file_id: Seq<char>, file_name: Seq<char>)
    requires
        verdict_of(e.body) == Verdict::Print(file_id, file_name),
    ensures
        start_of(dir, e).1 == ActionModel::Fetch(
            file_id,
            joined(dir, destination_name(e.date, sender_of(e.body), file_name)),
        ),
        start_of(dir, e).0.path == joined(dir, destination_name(e.date, sender_of(e.body), file_name)),
{
}

/// Every later step keeps the stored file's path, and every download, page
/// count and print works on that same file.
pub proof fn lemma_path_kept(s: SessionModel, f: FeedbackModel)
    ensures
        next(s, f).0.path == s.path,
        next(s, f).0.user == s.user,
        next(s, f).1 matches ActionModel::Download(_, p) ==> p == s.path,
        next(s, f).1 matches ActionModel::CountPages(p) ==> p == s.path,
        next(s, f).1 matches ActionModel::Print(p) ==> p == s.path,
{
}

/// The session after handing it each feedback of `fs` in turn.
pub open spec fn run(s: SessionModel, fs: Seq<FeedbackModel>) -> SessionModel
    decreases fs.len(),
{
    if fs.len() == 0 {
        s
    } else {
        run(next(s, fs[0]).0, fs.skip(1))
    }
}

/// However a session goes on, its stored file's path and its sender stay as they started.
pub proof fn lemma_run_keeps_path(s: SessionModel, fs: Seq<FeedbackModel>)
    ensures
        run(s, fs).path == s.path,
        run(s, fs).user == s.user,
    decreases fs.len(),
{
    if fs.len() > 0 {
        lemma_path_kept(s, fs[0]);
        lemma_run_keeps_path(next(s, fs[0]).0, fs.skip(1));
    }
}

/// Taking a message in depends on its content alone: two messages with the
/// same content get the same verdict, the same sender and the same start.
pub proof fn lemma_same_content_same_start(dir: Seq<char>, a: Event, b: Event)
    requires
        same_content(a, b),
    ensures
        verdict_of(a.body) == verdict_of(b.body),
        sender_of(a.body) == sender_of(b.body),
        start_of(dir, a) == start_of(dir, b),
{
}

/// When the page-count tool cannot be run, the session ends with the
/// page-count error, its cause shown to the sender, and nothing is printed.
pub proof fn lemma_count_failure(s: SessionModel, cause: Seq<char>)
    requires
        s.stage == Stage::Counting,
    ensures
        next(s, FeedbackModel::Counted(Err(cause))) == (
            finished(s),
            ActionModel::Report(failure_report(s.user, ErrorModel::PdfInfo(cause))),
        ),
        failure_report(s.user, ErrorModel::PdfInfo(cause))[1] == (Recipient::Sender, pages_error_text() + cause),
        !(next(s, FeedbackModel::Counted(Err(cause))).1 is Print),
{
}

} // verus!
