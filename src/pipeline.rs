//! Handling one message: a session that decides, from what the chat service
//! and the tools report, what is done next, until the outcome is reported.
//!
//! The caller performs each action and hands the session what came of it:
//! `Fetch` creates the local file and asks the chat service about the remote
//! file; `Download` writes the remote file's bytes into the local one;
//! `CountPages` and `Print` run the page-count and print tools on it;
//! `Report` sends the messages, in order, and ends the session.
use vstd::prelude::*;
use crate::event::{classify, destination_name, file_name_for, joined, path_in, sender_of, verdict_of, Event, Verdict};
use crate::outcome::{admin_line, admin_report, admin_text, success_text, user_text, ErrorModel, PBError, PBSuccess};
use crate::pages::{page_count, page_count_of};

verus! {

/// What stays fixed while the bot runs.
pub struct Config {
    /// The directory that stored documents go into.
    pub upload_dir: String,
    /// The chat that receives the admin reports.
    pub admin_group: String,
}

/// Who a report goes to.
#[derive(Clone, Copy, Debug, PartialEq, Eq, Structural)]
pub enum Recipient {
    /// The chat that the message came from.
    Sender,
    /// The admin channel.
    Admin,
}

/// One message to send.
pub struct Outbound {
    pub to: Recipient,
    pub text: String,
}

/// What the caller does next.
pub enum Action {
    /// Create the local file at `path`, then ask the chat service where the remote file `file_id` is.
    Fetch { file_id: String, path: String },
    /// Write the bytes of the remote file at `remote` into the local file at `path`.
    Download { remote: String, path: String },
    /// Run the page-count tool on the file at `path`.
    CountPages { path: String },
    /// Run the print tool on the file at `path`.
    Print { path: String },
    /// Send these messages, in this order; the session is over.
    Report { messages: Vec<Outbound> },
}

/// What came of the last action.
pub enum Feedback {
    /// Where the remote file is, or why the chat service did not say.
    Located(Result<String, String>),
    /// Whether the download finished, or why it failed.
    Downloaded(Result<(), String>),
    /// What the page-count tool printed, or why it could not be run.
    Counted(Result<Vec<u8>, String>),
    /// That the print tool was run, whatever its exit status, or why it could not be run.
    Printed(Result<(), String>),
}

/// The step a session waits at.
#[derive(Clone, Copy, Debug, PartialEq, Eq, Structural)]
pub enum Stage {
    Locating,
    Downloading,
    Counting,
    Printing,
    Done,
}

/// The handling of one message.
pub struct Session {
    /// Who sent the message, as the reports name them.
    pub user: String,
    /// Where the document is stored.
    pub path: String,
    /// The document's original name.
    pub file_name: String,
    /// The page count, once known.
    pub pages: u32,
    pub stage: Stage,
}

pub struct SessionModel {
    pub user: Seq<char>,
    pub path: Seq<char>,
    pub file_name: Seq<char>,
    pub pages: nat,
    pub stage: Stage,
}

pub enum ActionModel {
    Fetch(Seq<char>, Seq<char>),
    Download(Seq<char>, Seq<char>),
    CountPages(Seq<char>),
    Print(Seq<char>),
    Report(Seq<(Recipient, Seq<char>)>),
}

pub enum FeedbackModel {
    Located(Result<Seq<char>, Seq<char>>),
    Downloaded(Result<(), Seq<char>>),
    Counted(Result<Seq<u8>, Seq<char>>),
    Printed(Result<(), Seq<char>>),
}

impl View for Session {
    type V = SessionModel;

    open spec fn view(&self) -> SessionModel {
        SessionModel {
            user: self.user@,
            path: self.path@,
            file_name: self.file_name@,
            pages: self.pages as nat,
            stage: self.stage,
        }
    }
}

pub open spec fn messages_view(m: Seq<Outbound>) -> Seq<(Recipient, Seq<char>)> {
    m.map_values(|o: Outbound| (o.to, o.text@))
}

impl View for Action {
    type V = ActionModel;

    open spec fn view(&self) -> ActionModel {
        match self {
            Action::Fetch { file_id, path } => ActionModel::Fetch(file_id@, path@),
            Action::Download { remote, path } => ActionModel::Download(remote@, path@),
            Action::CountPages { path } => ActionModel::CountPages(path@),
            Action::Print { path } => ActionModel::Print(path@),
            Action::Report { messages } => ActionModel::Report(messages_view(messages@)),
        }
    }
}

impl View for Feedback {
    type V = FeedbackModel;

    open spec fn view(&self) -> FeedbackModel {
        match self {
            Feedback::Located(Ok(r)) => FeedbackModel::Located(Ok(r@)),
            Feedback::Located(Err(c)) => FeedbackModel::Located(Err(c@)),
            Feedback::Downloaded(Ok(())) => FeedbackModel::Downloaded(Ok(())),
            Feedback::Downloaded(Err(c)) => FeedbackModel::Downloaded(Err(c@)),
            Feedback::Counted(Ok(out)) => FeedbackModel::Counted(Ok(out@)),
            Feedback::Counted(Err(c)) => FeedbackModel::Counted(Err(c@)),
            Feedback::Printed(Ok(())) => FeedbackModel::Printed(Ok(())),
            Feedback::Printed(Err(c)) => FeedbackModel::Printed(Err(c@)),
        }
    }
}

/// The cause reported when the page-count tool's output holds no count.
pub open spec fn no_count_text() -> Seq<char> {
    "no page count in the tool's output"@
}

/// The reports of an error: the admin channel first, then the sender.
pub open spec fn failure_report(user: Seq<char>, e: ErrorModel) -> Seq<(Recipient, Seq<char>)> {
    seq![(Recipient::Admin, admin_line(user, admin_text(e))), (Recipient::Sender, user_text(e))]
}

/// The reports of a printed document: the sender first, then the admin channel.
pub open spec fn success_report(user: Seq<char>, pages: nat, file_name: Seq<char>) -> Seq<(Recipient, Seq<char>)> {
    let text = success_text(pages, file_name);
    seq![(Recipient::Sender, text), (Recipient::Admin, admin_line(user, text))]
}

/// The session over, with what it knew.
pub open spec fn finished(s: SessionModel) -> SessionModel {
    SessionModel { stage: Stage::Done, ..s }
}

pub open spec fn at(s: SessionModel, stage: Stage) -> SessionModel {
    SessionModel { stage, ..s }
}

/// How a session starts on a message: a refused message is reported at once;
/// an accepted one is stored under its destination name in `dir`.
pub open spec fn start_of(dir: Seq<char>, e: Event) -> (SessionModel, ActionModel) {
    let user = sender_of(e.body);
    match verdict_of(e.body) {
        Verdict::Reject(err) => (
            SessionModel {
                user,
                path: Seq::empty(),
                file_name: Seq::empty(),
                pages: 0,
                stage: Stage::Done,
            },
            ActionModel::Report(failure_report(user, err)),
        ),
        Verdict::Print(file_id, file_name) => {
            let path = joined(dir, destination_name(e.date, user, file_name));
            (
                SessionModel { user, path, file_name, pages: 0, stage: Stage::Locating },
                ActionModel::Fetch(file_id, path),
            )
        },
    }
}

/// Whether `f` is what a session at stage `stage` waits for.
pub open spec fn awaited(stage: Stage, f: FeedbackModel) -> bool {
    match f {
        FeedbackModel::Located(_) => stage == Stage::Locating,
        FeedbackModel::Downloaded(_) => stage == Stage::Downloading,
        FeedbackModel::Counted(_) => stage == Stage::Counting,
        FeedbackModel::Printed(_) => stage == Stage::Printing,
    }
}

/// The next session and action, from what came of the last action. Every
/// failure ends the session with its report; nothing is tried again.
pub open spec fn next(s: SessionModel, f: FeedbackModel) -> (SessionModel, ActionModel) {
    match f {
        FeedbackModel::Located(Ok(remote)) => (
            at(s, Stage::Downloading),
            ActionModel::Download(remote, s.path),
        ),
        FeedbackModel::Located(Err(c)) => (
            finished(s),
            ActionModel::Report(failure_report(s.user, ErrorModel::Request(c))),
        ),
        FeedbackModel::Downloaded(Ok(())) => (
            at(s, Stage::Counting),
            ActionModel::CountPages(s.path),
        ),
        FeedbackModel::Downloaded(Err(c)) => (
            finished(s),
            ActionModel::Report(failure_report(s.user, ErrorModel::Download(c))),
        ),
        FeedbackModel::Counted(Ok(out)) => match page_count(out) {
            Some(n) => (
                SessionModel { pages: n, stage: Stage::Printing, ..s },
                ActionModel::Print(s.path),
            ),
            None => (
                finished(s),
                ActionModel::Report(failure_report(s.user, ErrorModel::PdfInfo(no_count_text()))),
            ),
        },
        FeedbackModel::Counted(Err(c)) => (
            finished(s),
            ActionModel::Report(failure_report(s.user, ErrorModel::PdfInfo(c))),
        ),
        FeedbackModel::Printed(Ok(())) => (
            finished(s),
            ActionModel::Report(success_report(s.user, s.pages, s.file_name)),
        ),
        FeedbackModel::Printed(Err(c)) => (
            finished(s),
            ActionModel::Report(failure_report(s.user, ErrorModel::Lp(c))),
        ),
    }
}

/// The reports of an error, to the admin channel first.
pub fn failure_messages(user: &String, error: &PBError) -> (r: Vec<Outbound>)
    ensures
        messages_view(r@) == failure_report(user@, error@),
{
    let admin = admin_report(user, &error.to_admin_string());
    let sender = error.to_user_string();
    let r = vec![Outbound { to: Recipient::Admin, text: admin }, Outbound { to: Recipient::Sender, text: sender }];
    assert(messages_view(r@) =~= failure_report(user@, error@));
    r
}

/// The reports of a printed document, to the sender first.
pub fn success_messages(user: &String, success: &PBSuccess) -> (r: Vec<Outbound>)
    ensures
        messages_view(r@) == success_report(user@, success.pages as nat, success.file_name@),
{
    let text = success.to_report_string();
    let admin = admin_report(user, &text);
    let r = vec![Outbound { to: Recipient::Sender, text }, Outbound { to: Recipient::Admin, text: admin }];
    assert(messages_view(r@) =~= success_report(user@, success.pages as nat, success.file_name@));
    r
}

impl Session {
    /// Starts handling a message.
    pub fn start(config: &Config, event: &Event) -> (r: (Session, Action))
        requires
            event.date.wf(),
        ensures
            (r.0@, r.1@) == start_of(config.upload_dir@, *event),
    {
        let intake = classify(event);
        match intake.verdict {
            Err(e) => {
                let messages = failure_messages(&intake.user, &e);
                let s = Session {
                    user: intake.user,
                    path: String::new(),
                    file_name: String::new(),
                    pages: 0,
                    stage: Stage::Done,
                };
                assert(s@.path =~= Seq::<char>::empty());
                (s, Action::Report { messages })
            },
            Ok(upload) => {
                let name = file_name_for(&event.date, &intake.user, &upload.file_name);
                let path = path_in(&config.upload_dir, &name);
                let action = Action::Fetch { file_id: upload.file_id, path: path.clone() };
                let s = Session {
                    user: intake.user,
                    path,
                    file_name: upload.file_name,
                    pages: 0,
                    stage: Stage::Locating,
                };
                (s, action)
            },
        }
    }

    /// Whether the session waits for this feedback.
    pub fn expects(&self, feedback: &Feedback) -> (r: bool)
        ensures
            r == awaited(self.stage, feedback@),
    {
        match feedback {
            Feedback::Located(_) => self.stage == Stage::Locating,
            Feedback::Downloaded(_) => self.stage == Stage::Downloading,
            Feedback::Counted(_) => self.stage == Stage::Counting,
            Feedback::Printed(_) => self.stage == Stage::Printing,
        }
    }

    fn fail(&mut self, error: PBError) -> (r: Action)
        ensures
            final(self)@ == finished(old(self)@),
            r@ == ActionModel::Report(failure_report(old(self).user@, error@)),
    {
        self.stage = Stage::Done;
        Action::Report { messages: failure_messages(&self.user, &error) }
    }

    /// Takes what came of the last action and says what to do next.
    pub fn step(&mut self, feedback: Feedback) -> (r: Action)
        requires
            awaited(old(self).stage, feedback@),
        ensures
            (final(self)@, r@) == next(old(self)@, feedback@),
    {
        match feedback {
            Feedback::Located(Ok(remote)) => {
                self.stage = Stage::Downloading;
                Action::Download { remote, path: self.path.clone() }
            },
            Feedback::Located(Err(c)) => self.fail(PBError::RequestError(c)),
            Feedback::Downloaded(Ok(())) => {
                self.stage = Stage::Counting;
                Action::CountPages { path: self.path.clone() }
            },
            Feedback::Downloaded(Err(c)) => self.fail(PBError::DownloadError(c)),
            Feedback::Counted(Ok(out)) => match page_count_of(&out) {
                Some(n) => {
                    self.pages = n;
                    self.stage = Stage::Printing;
                    Action::Print { path: self.path.clone() }
                },
                None => self.fail(
                    PBError::PdfInfoError(String::from_str("no page count in the tool's output")),
                ),
            },
            Feedback::Counted(Err(c)) => self.fail(PBError::PdfInfoError(c)),
            Feedback::Printed(Ok(())) => {
                self.stage = Stage::Done;
                let success = PBSuccess { pages: self.pages, file_name: self.file_name.clone() };
                Action::Report { messages: success_messages(&self.user, &success) }
            },
            Feedback::Printed(Err(c)) => self.fail(PBError::LpError(c)),
        }
    }
}

} // verus!
