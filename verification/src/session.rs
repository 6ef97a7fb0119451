//! The course of a run, as a state machine.
//!
//! A [`Session`] decides what is done next and what is reported; it does
//! nothing itself. The caller performs each [`Request`] and hands the outcome
//! back as an [`Event`]; [`Session::advance`] answers with the reports to
//! show and the next request. The first request is implied: open the index
//! file. The run is over when the request is [`Request::Exit`].
//!
//! No failure but that of opening the index ends the run. A failure gives up
//! the unit that it concerns (a line, a repository or a remote), is reported
//! once, and the run goes on with the next unit. Nothing is tried twice.

use vstd::prelude::*;
use vstd::string::*;
use crate::index::{line_path, read_path, INDEX_FILE_NAME};
use crate::laws::law_step_accounts;
use crate::progress::{summary_text, FetchStatistics};
use crate::report::{
    error,
    error_text,
    fatal,
    fatal_text,
    info,
    info_text,
    nested_text,
    reports_of,
    summary,
    Error,
    Report,
    ReportModel,
    Severity,
};

verus! {

/// How tags are followed when the tips are updated.
#[derive(Clone, Copy, Debug, PartialEq, Eq, Structural)]
pub enum Autotag {
    /// As the remote's configuration says.
    Unspecified,
    /// Tags that point at objects which were downloaded anyway.
    Auto,
    /// No tags.
    Never,
    /// All tags.
    All,
}

/// Where a run stands: what was requested last and is awaited now.
#[derive(Clone, Copy, Debug, PartialEq, Eq, Structural)]
pub enum Phase {
    /// The index file is being opened.
    Loading,
    /// The next line of the index is being read.
    Reading,
    /// A repository is being opened.
    Opening,
    /// The remotes of the open repository are being listed.
    Listing,
    /// A remote is being looked up by its name.
    Finding,
    /// A remote is being made from its name taken as a URL.
    FindingAnonymous,
    /// The remote is being downloaded from.
    Downloading,
    /// The connection is being closed.
    Disconnecting,
    /// The local references are being moved to what was fetched.
    Updating,
    /// The run is over.
    Finished,
}

/// The step of a fetch at which a remote failed.
#[derive(Clone, Copy, Debug, PartialEq, Eq, Structural)]
pub enum Stage {
    Resolve,
    Download,
    Disconnect,
    UpdateTips,
}

/// What the caller is to do next.
#[derive(Debug, PartialEq, Eq)]
pub enum Request {
    /// Read the next line of the index file: everything up to and including
    /// the next line feed, or up to the end of the file.
    ReadLine,
    /// Open the repository at `path`.
    OpenRepository { path: String },
    /// List the names of the remotes of the open repository.
    ListRemotes,
    /// Look up the remote that is configured under `name`.
    FindRemote { name: String },
    /// Make a remote without a name that fetches from `name`.
    AnonymousRemote { name: String },
    /// Download what these refspecs select, with fresh progress and
    /// credential callbacks. Without refspecs everything that the remote
    /// offers is downloaded.
    Download { refspecs: Vec<String> },
    /// Close the connection to the remote.
    Disconnect,
    /// Move the local references to what was fetched.
    UpdateTips { update_fetchhead: bool, autotag: Autotag },
    /// End the process with `status`.
    Exit { status: i32 },
}

/// A [`Request`] with its text as sequences of characters.
pub enum RequestModel {
    ReadLine,
    OpenRepository { path: Seq<char> },
    ListRemotes,
    FindRemote { name: Seq<char> },
    AnonymousRemote { name: Seq<char> },
    Download { refspecs: Seq<Seq<char>> },
    Disconnect,
    UpdateTips { update_fetchhead: bool, autotag: Autotag },
    Exit { status: i32 },
}

impl View for Request {
    type V = RequestModel;

    open spec fn view(&self) -> RequestModel {
        match self {
            Request::ReadLine => RequestModel::ReadLine,
            Request::OpenRepository { path } => RequestModel::OpenRepository { path: path@ },
            Request::ListRemotes => RequestModel::ListRemotes,
            Request::FindRemote { name } => RequestModel::FindRemote { name: name@ },
            Request::AnonymousRemote { name } => RequestModel::AnonymousRemote { name: name@ },
            Request::Download { refspecs } => RequestModel::Download {
                refspecs: Seq::new(refspecs@.len(), |i: int| refspecs@[i]@),
            },
            Request::Disconnect => RequestModel::Disconnect,
            Request::UpdateTips { update_fetchhead, autotag } => RequestModel::UpdateTips {
                update_fetchhead: *update_fetchhead,
                autotag: *autotag,
            },
            Request::Exit { status } => RequestModel::Exit { status: *status },
        }
    }
}

/// How the last request ended.
#[derive(Debug, PartialEq, Eq)]
pub enum Event {
    /// A line of the index was read; these are its bytes, line end
    /// included. No bytes at all mean that the index has ended.
    Line(Vec<u8>),
    /// The remotes were listed; a name that is not UTF-8 is absent.
    Listed(Vec<Option<String>>),
    /// The download ended; these are its counters.
    Downloaded(FetchStatistics),
    /// The request succeeded and there is nothing to tell.
    Done,
    /// The request failed, for this cause.
    Failed(String),
}

/// The names of a list of remotes, each as a sequence of characters.
pub open spec fn names_of(names: Seq<Option<String>>) -> Seq<Option<Seq<char>>> {
    Seq::new(
        names.len(),
        |i: int|
            match names[i] {
                Some(name) => Some(name@),
                None => None,
            },
    )
}

/// An [`Event`] with its text as sequences of characters.
pub enum EventModel {
    Line(Seq<u8>),
    Listed(Seq<Option<Seq<char>>>),
    Downloaded(FetchStatistics),
    Done,
    Failed(Seq<char>),
}

impl View for Event {
    type V = EventModel;

    open spec fn view(&self) -> EventModel {
        match self {
            Event::Line(raw) => EventModel::Line(raw@),
            Event::Listed(names) => EventModel::Listed(names_of(names@)),
            Event::Downloaded(stats) => EventModel::Downloaded(*stats),
            Event::Done => EventModel::Done,
            Event::Failed(cause) => EventModel::Failed(cause@),
        }
    }
}

/// The state of a run.
pub struct SessionModel {
    pub phase: Phase,
    /// The path of the repository at hand.
    pub path: Seq<char>,
    /// The remotes of that repository that have not been looked at yet.
    pub remotes: Seq<Option<Seq<char>>>,
    /// The name of the remote at hand.
    pub remote: Seq<char>,
}

/// What one event leads to: the new state, the reports to show in order,
/// and the next request.
pub struct Outcome {
    pub state: SessionModel,
    pub reports: Seq<ReportModel>,
    pub request: RequestModel,
}

impl SessionModel {
    /// The state in `phase` with no repository at hand.
    pub open spec fn idle(phase: Phase) -> SessionModel {
        SessionModel { phase, path: Seq::empty(), remotes: Seq::empty(), remote: Seq::empty() }
    }

    /// The state in which a run begins.
    pub open spec fn start() -> SessionModel {
        SessionModel::idle(Phase::Loading)
    }

    /// The state between two repositories, when the next line is awaited.
    pub open spec fn reading() -> SessionModel {
        SessionModel::idle(Phase::Reading)
    }

    /// The state in which a run ends.
    pub open spec fn finished() -> SessionModel {
        SessionModel::idle(Phase::Finished)
    }

    /// This state in another phase.
    pub open spec fn at(self, phase: Phase) -> SessionModel {
        SessionModel { phase, ..self }
    }

    /// What holds of every state that a run reaches: outside the fetch of a
    /// remote no remotes wait.
    pub open spec fn valid(self) -> bool {
        match self.phase {
            Phase::Loading | Phase::Reading | Phase::Opening | Phase::Listing | Phase::Finished => {
                self.remotes.len() == 0
            },
            _ => true,
        }
    }
}

/// `phrase`, then `what` in single quotes.
pub open spec fn quoted(phrase: Seq<char>, what: Seq<char>) -> Seq<char> {
    phrase + " '"@ + what + "'"@
}

/// `phrase`, then the remote and the repository that it belongs to, each in
/// single quotes.
pub open spec fn remote_context(phrase: Seq<char>, remote: Seq<char>, path: Seq<char>) -> Seq<
    char,
> {
    phrase + " '"@ + remote + "' for '"@ + path + "'"@
}

impl Stage {
    /// What failed, in words.
    pub open spec fn phrase(self) -> Seq<char> {
        match self {
            Stage::Resolve => "failed to list remotes"@,
            Stage::Download => "failed downloading from remote"@,
            Stage::Disconnect => "failed disconnecting from remote"@,
            Stage::UpdateTips => "failed updating remote tips"@,
        }
    }

    fn phrase_str(self) -> (phrase: &'static str)
        ensures
            phrase@ == self.phrase(),
    {
        match self {
            Stage::Resolve => "failed to list remotes",
            Stage::Download => "failed downloading from remote",
            Stage::Disconnect => "failed disconnecting from remote",
            Stage::UpdateTips => "failed updating remote tips",
        }
    }
}

/// The cause that is reported for a line of the index that is not UTF-8.
pub open spec fn undecodable_cause() -> Seq<char> {
    "stream did not contain valid UTF-8"@
}

/// The report that the index file could not be opened.
pub open spec fn load_failed_report(cause: Seq<char>) -> ReportModel {
    ReportModel {
        severity: Severity::Fatal,
        text: fatal_text(quoted("failed to load configuration"@, INDEX_FILE_NAME@), cause),
    }
}

/// The report that a line of the index could not be read, for `cause`.
pub open spec fn line_failed_report(cause: Seq<char>) -> ReportModel {
    ReportModel {
        severity: Severity::Error,
        text: error_text(quoted("failed to read configuration line"@, INDEX_FILE_NAME@), cause),
    }
}

/// The report of a line of the index that is not UTF-8.
pub open spec fn unreadable_line_report() -> ReportModel {
    line_failed_report(undecodable_cause())
}

/// The report of a fetch that failed in `context` for `cause`.
pub open spec fn fetch_failed_report(context: Seq<char>, cause: Seq<char>) -> ReportModel {
    ReportModel {
        severity: Severity::Error,
        text: error_text("fetch failed"@, nested_text(context, cause)),
    }
}

/// The report that the repository at `path` could not be opened.
pub open spec fn open_failed_report(path: Seq<char>, cause: Seq<char>) -> ReportModel {
    fetch_failed_report(quoted("failed to open repository"@, path), cause)
}

/// The report that the remotes of the repository at `path` could not be
/// listed.
pub open spec fn list_failed_report(path: Seq<char>, cause: Seq<char>) -> ReportModel {
    fetch_failed_report(quoted("failed to list remotes for"@, path), cause)
}

/// What was being done when the fetch of `remote` for the repository at
/// `path` failed at `stage`. A failed download names the remote and the
/// repository; any other step is named by its phrase alone.
pub open spec fn failure_context(stage: Stage, remote: Seq<char>, path: Seq<char>) -> Seq<char> {
    match stage {
        Stage::Download => remote_context(stage.phrase(), remote, path),
        _ => stage.phrase(),
    }
}

/// The report that the fetch of `remote` for the repository at `path` failed
/// at `stage`.
pub open spec fn remote_failed_report(
    stage: Stage,
    remote: Seq<char>,
    path: Seq<char>,
    cause: Seq<char>,
) -> ReportModel {
    fetch_failed_report(failure_context(stage, remote, path), cause)
}

/// The report that a remote of the repository at `path` is passed over
/// because its name is not UTF-8.
pub open spec fn skipped_remote_report(path: Seq<char>) -> ReportModel {
    ReportModel {
        severity: Severity::Info,
        text: info_text(quoted("Skipping non-utf8 remote name for"@, path)),
    }
}

/// The report that the fetch of `remote` for the repository at `path` begins.
pub open spec fn fetching_report(remote: Seq<char>, path: Seq<char>) -> ReportModel {
    ReportModel {
        severity: Severity::Notice,
        text: "Fetching remote '"@ + remote + "' for '"@ + path + "'\n"@,
    }
}

/// The report that closes a download.
pub open spec fn summary_report(stats: FetchStatistics) -> ReportModel {
    ReportModel { severity: Severity::Notice, text: summary_text(stats) }
}

/// Goes on to the next line of the index, after `reports`: the repository at
/// hand is done with, and the next line is to be read.
pub open spec fn next_line(reports: Seq<ReportModel>) -> Outcome {
    Outcome { state: SessionModel::reading(), reports, request: RequestModel::ReadLine }
}

/// Goes on to the next remote of the repository at `path`, after `reports`.
/// Each remote without a name is reported and passed over. The first remote
/// with a name is announced and looked up; when no remote is left the run
/// goes on to the next line of the index.
pub open spec fn next_remote(
    reports: Seq<ReportModel>,
    path: Seq<char>,
    remotes: Seq<Option<Seq<char>>>,
) -> Outcome
    decreases remotes.len(),
{
    if remotes.len() == 0 {
        next_line(reports)
    } else {
        match remotes[0] {
            None => next_remote(
                reports.push(skipped_remote_report(path)),
                path,
                remotes.drop_first(),
            ),
            Some(name) => Outcome {
                state: SessionModel {
                    phase: Phase::Finding,
                    path,
                    remotes: remotes.drop_first(),
                    remote: name,
                },
                reports: reports.push(fetching_report(name, path)),
                request: RequestModel::FindRemote { name },
            },
        }
    }
}

/// The request that downloads from the remote at hand: with no refspecs, so
/// that everything that the remote offers is fetched.
pub open spec fn download_request() -> RequestModel {
    RequestModel::Download { refspecs: Seq::empty() }
}

/// The request that moves the local references: the fetch head is written,
/// and tags are followed as the remote is configured.
pub open spec fn update_tips_request() -> RequestModel {
    RequestModel::UpdateTips { update_fetchhead: true, autotag: Autotag::Unspecified }
}

/// What a line of the index leads to, given as it was read. No bytes at all
/// are the end of the index, and the run ends with status 0. A line with a
/// path has its repository opened. A line without one is reported, and the
/// next line is read.
pub open spec fn line_read(raw: Seq<u8>) -> Outcome {
    if raw.len() == 0 {
        Outcome {
            state: SessionModel::finished(),
            reports: Seq::empty(),
            request: RequestModel::Exit { status: 0 },
        }
    } else {
        match line_path(raw) {
            Some(path) => Outcome {
                state: SessionModel {
                    phase: Phase::Opening,
                    path,
                    remotes: Seq::empty(),
                    remote: Seq::empty(),
                },
                reports: Seq::empty(),
                request: RequestModel::OpenRepository { path },
            },
            None => next_line(seq![unreadable_line_report()]),
        }
    }
}

/// What `event` leads to in `state`, or nothing if `state` awaits no such
/// event.
pub open spec fn transition(state: SessionModel, event: EventModel) -> Option<Outcome> {
    match state.phase {
        Phase::Loading => match event {
            EventModel::Done => Some(next_line(Seq::empty())),
            EventModel::Failed(cause) => Some(
                Outcome {
                    state: SessionModel::finished(),
                    reports: seq![load_failed_report(cause)],
                    request: RequestModel::Exit { status: 1 },
                },
            ),
            _ => None,
        },
        Phase::Reading => match event {
            EventModel::Line(raw) => Some(line_read(raw)),
            EventModel::Failed(cause) => Some(next_line(seq![line_failed_report(cause)])),
            _ => None,
        },
        Phase::Opening => match event {
            EventModel::Done => Some(
                Outcome {
                    state: state.at(Phase::Listing),
                    reports: Seq::empty(),
                    request: RequestModel::ListRemotes,
                },
            ),
            EventModel::Failed(cause) => Some(
                next_line(seq![open_failed_report(state.path, cause)]),
            ),
            _ => None,
        },
        Phase::Listing => match event {
            EventModel::Listed(names) => Some(next_remote(Seq::empty(), state.path, names)),
            EventModel::Failed(cause) => Some(
                next_line(seq![list_failed_report(state.path, cause)]),
            ),
            _ => None,
        },
        Phase::Finding => match event {
            EventModel::Done => Some(
                Outcome {
                    state: state.at(Phase::Downloading),
                    reports: Seq::empty(),
                    request: download_request(),
                },
            ),
            EventModel::Failed(_) => Some(
                Outcome {
                    state: state.at(Phase::FindingAnonymous),
                    reports: Seq::empty(),
                    request: RequestModel::AnonymousRemote { name: state.remote },
                },
            ),
            _ => None,
        },
        Phase::FindingAnonymous => match event {
            EventModel::Done => Some(
                Outcome {
                    state: state.at(Phase::Downloading),
                    reports: Seq::empty(),
                    request: download_request(),
                },
            ),
            EventModel::Failed(cause) => Some(remote_failed(state, Stage::Resolve, cause)),
            _ => None,
        },
        Phase::Downloading => match event {
            EventModel::Downloaded(stats) => Some(
                Outcome {
                    state: state.at(Phase::Disconnecting),
                    reports: seq![summary_report(stats)],
                    request: RequestModel::Disconnect,
                },
            ),
            EventModel::Failed(cause) => Some(remote_failed(state, Stage::Download, cause)),
            _ => None,
        },
        Phase::Disconnecting => match event {
            EventModel::Done => Some(
                Outcome {
                    state: state.at(Phase::Updating),
                    reports: Seq::empty(),
                    request: update_tips_request(),
                },
            ),
            EventModel::Failed(cause) => Some(remote_failed(state, Stage::Disconnect, cause)),
            _ => None,
        },
        Phase::Updating => match event {
            EventModel::Done => Some(next_remote(Seq::empty(), state.path, state.remotes)),
            EventModel::Failed(cause) => Some(remote_failed(state, Stage::UpdateTips, cause)),
            _ => None,
        },
        Phase::Finished => None,
    }
}

/// What the failure of the remote at hand leads to: one report of it, and
/// then the next remote.
pub open spec fn remote_failed(state: SessionModel, stage: Stage, cause: Seq<char>) -> Outcome {
    next_remote(
        seq![remote_failed_report(stage, state.remote, state.path, cause)],
        state.path,
        state.remotes,
    )
}

/// The items of `items` from position `next` on.
pub open spec fn pending<T>(items: Seq<T>, next: int) -> Seq<T> {
    if 0 <= next <= items.len() {
        items.skip(next)
    } else {
        Seq::empty()
    }
}

proof fn lemma_pending_first<T>(items: Seq<T>, next: int)
    requires
        0 <= next < items.len(),
    ensures
        pending(items, next).len() > 0,
        pending(items, next)[0] == items[next],
        pending(items, next).drop_first() == pending(items, next + 1),
{
    assert(pending(items, next).drop_first() =~= pending(items, next + 1));
}

/// The reports to show and the request to perform after an event.
#[derive(Debug, PartialEq, Eq)]
pub struct Step {
    pub reports: Vec<Report>,
    pub request: Request,
}

/// A [`Step`] with its text as sequences of characters.
pub struct StepModel {
    pub reports: Seq<ReportModel>,
    pub request: RequestModel,
}

impl View for Step {
    type V = StepModel;

    open spec fn view(&self) -> StepModel {
        StepModel { reports: reports_of(self.reports@), request: self.request@ }
    }
}

/// A run in progress.
pub struct Session {
    phase: Phase,
    path: String,
    remotes: Vec<Option<String>>,
    next_remote: usize,
    remote: String,
}

impl View for Session {
    type V = SessionModel;

    closed spec fn view(&self) -> SessionModel {
        SessionModel {
            phase: self.phase,
            path: self.path@,
            remotes: pending(names_of(self.remotes@), self.next_remote as int),
            remote: self.remote@,
        }
    }
}

fn push_report(reports: &mut Vec<Report>, report: Report)
    ensures
        reports_of(final(reports)@) == reports_of(old(reports)@).push(report@),
{
    reports.push(report);
    assert(reports_of(reports@) =~= reports_of(old(reports)@).push(report@));
}

fn download() -> (request: Request)
    ensures
        request@ == download_request(),
{
    let request = Request::Download { refspecs: Vec::new() };
    assert(request@->Download_refspecs =~= Seq::empty());
    request
}

fn quoted_text(phrase: &str, what: &str) -> (text: String)
    ensures
        text@ == quoted(phrase@, what@),
{
    let mut text = String::from_str(phrase);
    text.append(" '");
    text.append(what);
    text.append("'");
    text
}

fn load_failed(cause: &str) -> (report: Report)
    ensures
        report@ == load_failed_report(cause@),
{
    fatal(quoted_text("failed to load configuration", INDEX_FILE_NAME).as_str(), cause)
}

fn line_failed(cause: &str) -> (report: Report)
    ensures
        report@ == line_failed_report(cause@),
{
    error(quoted_text("failed to read configuration line", INDEX_FILE_NAME).as_str(), cause)
}

fn unreadable_line() -> (report: Report)
    ensures
        report@ == unreadable_line_report(),
{
    line_failed("stream did not contain valid UTF-8")
}

fn fetch_failed(context: String, cause: String) -> (report: Report)
    ensures
        report@ == fetch_failed_report(context@, cause@),
{
    error("fetch failed", Error::Nested(context, cause).to_text().as_str())
}

fn failure_context_text(stage: Stage, remote: &str, path: &str) -> (text: String)
    ensures
        text@ == failure_context(stage, remote@, path@),
{
    let mut text = String::from_str(stage.phrase_str());
    match stage {
        Stage::Download => {
            text.append(" '");
            text.append(remote);
            text.append("' for '");
            text.append(path);
            text.append("'");
        },
        _ => {},
    }
    text
}

fn skipped_remote(path: &str) -> (report: Report)
    ensures
        report@ == skipped_remote_report(path@),
{
    info(quoted_text("Skipping non-utf8 remote name for", path).as_str())
}

fn fetching(remote: &str, path: &str) -> (report: Report)
    ensures
        report@ == fetching_report(remote@, path@),
{
    let mut text = String::from_str("Fetching remote '");
    text.append(remote);
    text.append("' for '");
    text.append(path);
    text.append("'\n");
    Report { severity: Severity::Notice, text }
}

impl Session {
    /// A run that has not begun: the index file is to be opened.
    pub fn new() -> (session: Session)
        ensures
            session@ == SessionModel::start(),
            session@.valid(),
    {
        let session = Session {
            phase: Phase::Loading,
            path: String::new(),
            remotes: Vec::new(),
            next_remote: 0,
            remote: String::new(),
        };
        assert(session@.remotes =~= Seq::empty());
        session
    }

    /// Where the run stands.
    pub fn phase(&self) -> (phase: Phase)
        ensures
            phase == self@.phase,
    {
        self.phase
    }

    /// Whether the run is over.
    pub fn is_finished(&self) -> (finished: bool)
        ensures
            finished == (self@.phase == Phase::Finished),
    {
        match self.phase {
            Phase::Finished => true,
            _ => false,
        }
    }

    fn rest(&mut self, phase: Phase)
        ensures
            final(self)@ == SessionModel::idle(phase),
    {
        self.phase = phase;
        self.path = String::new();
        self.remotes = Vec::new();
        self.next_remote = 0;
        self.remote = String::new();
        assert(self@.remotes =~= Seq::empty());
    }

    fn next_line(&mut self) -> (request: Request)
        ensures
            final(self)@ == SessionModel::reading(),
            request@ == RequestModel::ReadLine,
    {
        self.rest(Phase::Reading);
        Request::ReadLine
    }

    fn line_read(&mut self, raw: Vec<u8>, reports: &mut Vec<Report>) -> (request: Request)
        requires
            old(reports)@.len() == 0,
        ensures
            final(self)@ == line_read(raw@).state,
            reports_of(final(reports)@) == line_read(raw@).reports,
            request@ == line_read(raw@).request,
    {
        assert(reports_of(reports@) =~= Seq::empty());
        if raw.len() == 0 {
            self.rest(Phase::Finished);
            return Request::Exit { status: 0 };
        }
        match read_path(raw.as_slice()) {
            Some(path) => {
                let request = Request::OpenRepository { path: path.clone() };
                self.rest(Phase::Opening);
                self.path = path;
                request
            },
            None => {
                push_report(reports, unreadable_line());
                assert(reports_of(reports@) =~= seq![unreadable_line_report()]);
                self.next_line()
            },
        }
    }

    fn next_remote(&mut self, reports: &mut Vec<Report>) -> (request: Request)
        ensures
            final(self)@ == next_remote(
                reports_of(old(reports)@),
                old(self)@.path,
                old(self)@.remotes,
            ).state,
            reports_of(final(reports)@) == next_remote(
                reports_of(old(reports)@),
                old(self)@.path,
                old(self)@.remotes,
            ).reports,
            request@ == next_remote(
                reports_of(old(reports)@),
                old(self)@.path,
                old(self)@.remotes,
            ).request,
    {
        let ghost goal = next_remote(
            reports_of(old(reports)@),
            old(self)@.path,
            old(self)@.remotes,
        );
        while self.next_remote < self.remotes.len()
            invariant
                self@.path == old(self)@.path,
                goal == next_remote(
                    reports_of(old(reports)@),
                    old(self)@.path,
                    old(self)@.remotes,
                ),
                next_remote(reports_of(reports@), self@.path, self@.remotes) == goal,
            decreases self.remotes.len() - self.next_remote,
        {
            proof {
                lemma_pending_first(names_of(self.remotes@), self.next_remote as int);
            }
            match &self.remotes[self.next_remote] {
                Some(name) => {
                    push_report(reports, fetching(name.as_str(), self.path.as_str()));
                    let request = Request::FindRemote { name: name.clone() };
                    self.remote = name.clone();
                    self.next_remote = self.next_remote + 1;
                    self.phase = Phase::Finding;
                    return request;
                },
                None => {
                    push_report(reports, skipped_remote(self.path.as_str()));
                    self.next_remote = self.next_remote + 1;
                },
            }
        }
        assert(self@.remotes.len() == 0);
        self.next_line()
    }

    fn remote_failed(&mut self, stage: Stage, cause: String, reports: &mut Vec<Report>) -> (request:
        Request)
        requires
            old(reports)@.len() == 0,
        ensures
            final(self)@ == remote_failed(old(self)@, stage, cause@).state,
            reports_of(final(reports)@) == remote_failed(old(self)@, stage, cause@).reports,
            request@ == remote_failed(old(self)@, stage, cause@).request,
    {
        let context = failure_context_text(stage, self.remote.as_str(), self.path.as_str());
        push_report(reports, fetch_failed(context, cause));
        assert(reports_of(reports@) =~= seq![
            remote_failed_report(stage, old(self)@.remote, old(self)@.path, cause@),
        ]);
        self.next_remote(reports)
    }

    fn repository_failed(&mut self, phrase: &str, cause: String, reports: &mut Vec<Report>) -> (request:
        Request)
        requires
            old(reports)@.len() == 0,
        ensures
            final(self)@ == SessionModel::reading(),
            reports_of(final(reports)@) == seq![
                fetch_failed_report(quoted(phrase@, old(self)@.path), cause@),
            ],
            request@ == RequestModel::ReadLine,
    {
        let context = quoted_text(phrase, self.path.as_str());
        push_report(reports, fetch_failed(context, cause));
        assert(reports_of(reports@) =~= seq![
            fetch_failed_report(quoted(phrase@, old(self)@.path), cause@),
        ]);
        self.next_line()
    }

    /// Takes the outcome of the last request and says what follows: the
    /// reports to show, in order, and the next request. An event that the
    /// run does not await at this point is refused, and nothing changes.
    pub fn advance(&mut self, event: Event) -> (step: Option<Step>)
        ensures
            match transition(old(self)@, event@) {
                Some(outcome) => {
                    &&& step is Some
                    &&& step->0@.reports == outcome.reports
                    &&& step->0@.request == outcome.request
                    &&& final(self)@ == outcome.state
                },
                None => step is None && final(self)@ == old(self)@,
            },
            old(self)@.valid() ==> final(self)@.valid(),
    {
        proof {
            if old(self)@.valid() && transition(old(self)@, event@) is Some {
                law_step_accounts(old(self)@, event@);
            }
        }
        let mut reports: Vec<Report> = Vec::new();
        assert(reports_of(reports@) =~= Seq::empty());
        let request = match self.phase {
            Phase::Loading => match event {
                Event::Done => self.next_line(),
                Event::Failed(cause) => {
                    push_report(&mut reports, load_failed(cause.as_str()));
                    assert(reports_of(reports@) =~= seq![load_failed_report(cause@)]);
                    self.rest(Phase::Finished);
                    Request::Exit { status: 1 }
                },
                _ => {
                    return None;
                },
            },
            Phase::Reading => match event {
                Event::Line(raw) => self.line_read(raw, &mut reports),
                Event::Failed(cause) => {
                    push_report(&mut reports, line_failed(cause.as_str()));
                    assert(reports_of(reports@) =~= seq![line_failed_report(cause@)]);
                    self.next_line()
                },
                _ => {
                    return None;
                },
            },
            Phase::Opening => match event {
                Event::Done => {
                    self.phase = Phase::Listing;
                    Request::ListRemotes
                },
                Event::Failed(cause) => self.repository_failed(
                    "failed to open repository",
                    cause,
                    &mut reports,
                ),
                _ => {
                    return None;
                },
            },
            Phase::Listing => match event {
                Event::Listed(names) => {
                    self.next_remote = 0;
                    self.remotes = names;
                    assert(self@.remotes =~= names_of(names@));
                    self.next_remote(&mut reports)
                },
                Event::Failed(cause) => self.repository_failed(
                    "failed to list remotes for",
                    cause,
                    &mut reports,
                ),
                _ => {
                    return None;
                },
            },
            Phase::Finding => match event {
                Event::Done => {
                    self.phase = Phase::Downloading;
                    download()
                },
                Event::Failed(_) => {
                    self.phase = Phase::FindingAnonymous;
                    Request::AnonymousRemote { name: self.remote.clone() }
                },
                _ => {
                    return None;
                },
            },
            Phase::FindingAnonymous => match event {
                Event::Done => {
                    self.phase = Phase::Downloading;
                    download()
                },
                Event::Failed(cause) => self.remote_failed(Stage::Resolve, cause, &mut reports),
                _ => {
                    return None;
                },
            },
            Phase::Downloading => match event {
                Event::Downloaded(stats) => {
                    push_report(&mut reports, summary(&stats));
                    assert(reports_of(reports@) =~= seq![summary_report(stats)]);
                    self.phase = Phase::Disconnecting;
                    Request::Disconnect
                },
                Event::Failed(cause) => self.remote_failed(Stage::Download, cause, &mut reports),
                _ => {
                    return None;
                },
            },
            Phase::Disconnecting => match event {
                Event::Done => {
                    self.phase = Phase::Updating;
                    Request::UpdateTips { update_fetchhead: true, autotag: Autotag::Unspecified }
                },
                Event::Failed(cause) => self.remote_failed(
                    Stage::Disconnect,
                    cause,
                    &mut reports,
                ),
                _ => {
                    return None;
                },
            },
            Phase::Updating => match event {
                Event::Done => self.next_remote(&mut reports),
                Event::Failed(cause) => self.remote_failed(
                    Stage::UpdateTips,
                    cause,
                    &mut reports,
                ),
                _ => {
                    return None;
                },
            },
            Phase::Finished => {
                return None;
            },
        };
        Some(Step { reports, request })
    }
}

} // verus!
