//! What holds of every run.
//!
//! The laws are stated over [`transition`], which [`Session::advance`]
//! follows step by step, and over [`run`], which follows it through a whole
//! sequence of events.
//!
//! [`Session::advance`]: crate::session::Session::advance

use vstd::prelude::*;
use crate::index::line_path;
use crate::report::{error_text, nested_text, ReportModel, Severity};
use crate::session::{
    fetching_report,
    line_failed_report,
    line_read,
    list_failed_report,
    load_failed_report,
    next_line,
    next_remote,
    open_failed_report,
    remote_failed_report,
    skipped_remote_report,
    summary_report,
    transition,
    unreadable_line_report,
    EventModel,
    Outcome,
    Phase,
    RequestModel,
    SessionModel,
    Stage,
};

verus! {

/// How many of `reports` have this severity.
pub open spec fn count_severity(reports: Seq<ReportModel>, severity: Severity) -> nat
    decreases reports.len(),
{
    if reports.len() == 0 {
        0
    } else {
        count_severity(reports.drop_last(), severity) + if reports.last().severity == severity {
            1nat
        } else {
            0nat
        }
    }
}

/// How many of `names` are absent: remotes without a name.
pub open spec fn count_absent(names: Seq<Option<Seq<char>>>) -> nat
    decreases names.len(),
{
    if names.len() == 0 {
        0
    } else {
        count_absent(names.drop_first()) + if names[0] is None {
            1nat
        } else {
            0nat
        }
    }
}

/// 1 for a request to open a repository, 0 for any other.
pub open spec fn opens(request: RequestModel) -> nat {
    if request is OpenRepository {
        1
    } else {
        0
    }
}

/// How many of `requests` ask to open a repository.
pub open spec fn count_opens(requests: Seq<RequestModel>) -> nat
    decreases requests.len(),
{
    if requests.len() == 0 {
        0
    } else {
        count_opens(requests.drop_first()) + opens(requests[0])
    }
}

/// Whether `event` brings, in `phase`, a line of the index that has a path.
pub open spec fn reads_path(phase: Phase, event: EventModel) -> bool {
    phase == Phase::Reading && (event matches EventModel::Line(raw) && raw.len() > 0
        && line_path(raw) is Some)
}

/// Whether `event` brings, in `phase`, a line of the index that has no path.
pub open spec fn reads_no_path(phase: Phase, event: EventModel) -> bool {
    phase == Phase::Reading && (event matches EventModel::Line(raw) && raw.len() > 0
        && line_path(raw) is None)
}

/// Whether a failure in this phase is reported as an error. The failure to
/// open the index is fatal instead, and a failed lookup by name is answered
/// with a second attempt.
pub open spec fn is_reported_failure(phase: Phase, event: EventModel) -> bool {
    event is Failed && phase != Phase::Loading && phase != Phase::Finding
}

/// The step of the fetch that is awaited in `phase`, if a failure there gives
/// the remote up.
pub open spec fn failing_stage(phase: Phase) -> Option<Stage> {
    match phase {
        Phase::FindingAnonymous => Some(Stage::Resolve),
        Phase::Downloading => Some(Stage::Download),
        Phase::Disconnecting => Some(Stage::Disconnect),
        Phase::Updating => Some(Stage::UpdateTips),
        _ => None,
    }
}

/// Everything that a sequence of events has led to.
pub struct Trace {
    /// The state after the last event.
    pub state: SessionModel,
    /// All reports, in order.
    pub reports: Seq<ReportModel>,
    /// All requests, in order.
    pub requests: Seq<RequestModel>,
}

/// Follows `events` from `state`, or gives nothing if one of them is refused.
pub open spec fn run(state: SessionModel, events: Seq<EventModel>) -> Option<Trace>
    decreases events.len(),
{
    if events.len() == 0 {
        Some(Trace { state, reports: Seq::empty(), requests: Seq::empty() })
    } else {
        match transition(state, events[0]) {
            None => None,
            Some(outcome) => match run(outcome.state, events.drop_first()) {
                None => None,
                Some(rest) => Some(
                    Trace {
                        state: rest.state,
                        reports: outcome.reports + rest.reports,
                        requests: seq![outcome.request] + rest.requests,
                    },
                ),
            },
        }
    }
}

/// How many of `events`, followed from `state`, bring a line with a path.
pub open spec fn paths_read(state: SessionModel, events: Seq<EventModel>) -> nat
    decreases events.len(),
{
    if events.len() == 0 {
        0
    } else {
        match transition(state, events[0]) {
            None => 0,
            Some(outcome) => paths_read(outcome.state, events.drop_first()) + if reads_path(
                state.phase,
                events[0],
            ) {
                1nat
            } else {
                0nat
            },
        }
    }
}

/// How many of `events`, followed from `state`, bring a line without a path.
pub open spec fn lines_without_path(state: SessionModel, events: Seq<EventModel>) -> nat
    decreases events.len(),
{
    if events.len() == 0 {
        0
    } else {
        match transition(state, events[0]) {
            None => 0,
            Some(outcome) => lines_without_path(outcome.state, events.drop_first()) + if
                reads_no_path(state.phase, events[0]) {
                1nat
            } else {
                0nat
            },
        }
    }
}

/// How many of `events`, followed from `state`, are failures that are
/// reported as errors.
pub open spec fn failures_reported(state: SessionModel, events: Seq<EventModel>) -> nat
    decreases events.len(),
{
    if events.len() == 0 {
        0
    } else {
        match transition(state, events[0]) {
            None => 0,
            Some(outcome) => failures_reported(outcome.state, events.drop_first()) + if
                is_reported_failure(state.phase, events[0]) {
                1nat
            } else {
                0nat
            },
        }
    }
}

/// How many of `events`, followed from `state`, are failures to open a
/// repository.
pub open spec fn failures_to_open(state: SessionModel, events: Seq<EventModel>) -> nat
    decreases events.len(),
{
    if events.len() == 0 {
        0
    } else {
        match transition(state, events[0]) {
            None => 0,
            Some(outcome) => failures_to_open(outcome.state, events.drop_first()) + if state.phase
                == Phase::Opening && events[0] is Failed {
                1nat
            } else {
                0nat
            },
        }
    }
}

/// How many remotes without a name are among those that `events`, followed
/// from `state`, list.
pub open spec fn unnamed_listed(state: SessionModel, events: Seq<EventModel>) -> nat
    decreases events.len(),
{
    if events.len() == 0 {
        0
    } else {
        match transition(state, events[0]) {
            None => 0,
            Some(outcome) => unnamed_listed(outcome.state, events.drop_first()) + match events[0] {
                EventModel::Listed(names) => count_absent(names),
                _ => 0,
            },
        }
    }
}

/// Whether `events`, followed from `state`, begin with the failure to open
/// the index.
pub open spec fn fails_to_load(state: SessionModel, events: Seq<EventModel>) -> bool {
    events.len() > 0 && state.phase == Phase::Loading && events[0] is Failed
}

proof fn lemma_count_severity_push(
    reports: Seq<ReportModel>,
    report: ReportModel,
    severity: Severity,
)
    ensures
        count_severity(reports.push(report), severity) == count_severity(reports, severity) + if report.severity
            == severity {
            1nat
        } else {
            0nat
        },
{
    assert(reports.push(report).drop_last() =~= reports);
}

proof fn lemma_count_severity_add(a: Seq<ReportModel>, b: Seq<ReportModel>, severity: Severity)
    ensures
        count_severity(a + b, severity) == count_severity(a, severity) + count_severity(b, severity),
    decreases b.len(),
{
    if b.len() == 0 {
        assert(a + b =~= a);
    } else {
        assert((a + b).drop_last() =~= a + b.drop_last());
        lemma_count_severity_add(a, b.drop_last(), severity);
    }
}

proof fn lemma_count_severity_one(report: ReportModel, severity: Severity)
    ensures
        count_severity(seq![report], severity) == if report.severity == severity {
            1nat
        } else {
            0nat
        },
{
    assert(seq![report].drop_last() =~= Seq::<ReportModel>::empty());
    assert(count_severity(Seq::<ReportModel>::empty(), severity) == 0);
}

proof fn lemma_count_opens_first(request: RequestModel, rest: Seq<RequestModel>)
    ensures
        count_opens(seq![request] + rest) == opens(request) + count_opens(rest),
{
    assert((seq![request] + rest).drop_first() =~= rest);
}

/// What going on to the next remote changes, and what it leaves alone.
proof fn lemma_next_remote(
    reports: Seq<ReportModel>,
    path: Seq<char>,
    remotes: Seq<Option<Seq<char>>>,
)
    ensures
        ({
            let out = next_remote(reports, path, remotes);
            &&& out.state.valid()
            &&& out.state.phase == Phase::Finding || out.state == SessionModel::reading()
            &&& out.state.phase == Phase::Finding <==> out.request is FindRemote
            &&& out.state.phase == Phase::Reading <==> out.request is ReadLine
            &&& out.request matches RequestModel::FindRemote { name } ==> remotes.contains(
                Some(name),
            )
            &&& count_severity(out.reports, Severity::Error) == count_severity(
                reports,
                Severity::Error,
            )
            &&& count_severity(out.reports, Severity::Info) + count_absent(out.state.remotes)
                == count_severity(reports, Severity::Info) + count_absent(remotes)
            &&& count_severity(out.reports, Severity::Fatal) == count_severity(
                reports,
                Severity::Fatal,
            )
        }),
    decreases remotes.len(),
{
    assert(count_absent(Seq::empty()) == 0);
    if remotes.len() > 0 {
        match remotes[0] {
            None => {
                let more = reports.push(skipped_remote_report(path));
                lemma_next_remote(more, path, remotes.drop_first());
                lemma_count_severity_push(reports, skipped_remote_report(path), Severity::Error);
                lemma_count_severity_push(reports, skipped_remote_report(path), Severity::Info);
                lemma_count_severity_push(reports, skipped_remote_report(path), Severity::Fatal);
                let out = next_remote(reports, path, remotes);
                if let RequestModel::FindRemote { name } = out.request {
                    assert(remotes.drop_first().contains(Some(name)));
                    let i = choose|i: int|
                        0 <= i < remotes.drop_first().len() && remotes.drop_first()[i] == Some(
                            name,
                        );
                    assert(remotes[i + 1] == Some(name));
                }
            },
            Some(name) => {
                let report = fetching_report(name, path);
                lemma_count_severity_push(reports, report, Severity::Error);
                lemma_count_severity_push(reports, report, Severity::Info);
                lemma_count_severity_push(reports, report, Severity::Fatal);
                assert(remotes[0] == Some(name));
            },
        }
    }
}

/// The reports that precede do not change how the run goes on: they stay in
/// front, as they are.
proof fn lemma_next_remote_prefix(
    reports: Seq<ReportModel>,
    path: Seq<char>,
    remotes: Seq<Option<Seq<char>>>,
)
    ensures
        next_remote(reports, path, remotes).state == next_remote(
            Seq::empty(),
            path,
            remotes,
        ).state,
        next_remote(reports, path, remotes).request == next_remote(
            Seq::empty(),
            path,
            remotes,
        ).request,
        next_remote(reports, path, remotes).reports == reports + next_remote(
            Seq::empty(),
            path,
            remotes,
        ).reports,
    decreases remotes.len(),
{
    let none = Seq::<ReportModel>::empty();
    if remotes.len() == 0 {
        assert(reports =~= reports + none);
    } else {
        match remotes[0] {
            None => {
                let report = skipped_remote_report(path);
                lemma_next_remote_prefix(reports.push(report), path, remotes.drop_first());
                lemma_next_remote_prefix(none.push(report), path, remotes.drop_first());
                let tail = next_remote(none, path, remotes.drop_first()).reports;
                assert(reports.push(report) + tail =~= reports + (none.push(report) + tail));
            },
            Some(name) => {
                let report = fetching_report(name, path);
                assert(reports.push(report) =~= reports + none.push(report));
            },
        }
    }
}

/// A run begins in a valid state.
pub proof fn law_start_is_valid()
    ensures
        SessionModel::start().valid(),
{
}

/// One step of a run, counted. From a valid state every event that is
/// accepted leads to a valid state. A repository is opened exactly when a
/// line with a path is read. Each failure that is reported, and each line
/// without a path, is one error; each remote without a name that is passed
/// over is one info; and nothing else is an error or an info. Nothing fatal
/// is reported unless the index cannot be opened. The process is asked to
/// exit exactly when the run is over: with status 1 if the index could not
/// be opened, with status 0 otherwise.
pub proof fn law_step_accounts(state: SessionModel, event: EventModel)
    requires
        state.valid(),
        transition(state, event) is Some,
    ensures
        ({
            let out = transition(state, event)->0;
            let listed = match event {
                EventModel::Listed(names) => names,
                _ => Seq::empty(),
            };
            &&& out.state.valid()
            &&& out.state.phase != Phase::Loading
            &&& opens(out.request) == if reads_path(state.phase, event) {
                1nat
            } else {
                0nat
            }
            &&& count_severity(out.reports, Severity::Error) == if is_reported_failure(
                state.phase,
                event,
            ) || reads_no_path(state.phase, event) {
                1nat
            } else {
                0nat
            }
            &&& count_severity(out.reports, Severity::Info) + count_absent(out.state.remotes)
                == count_absent(state.remotes) + count_absent(listed)
            &&& count_severity(out.reports, Severity::Fatal) == if state.phase == Phase::Loading
                && event is Failed {
                1nat
            } else {
                0nat
            }
            &&& out.request matches RequestModel::Exit { status } ==> status == if state.phase
                == Phase::Loading && event is Failed {
                1i32
            } else {
                0i32
            }
            &&& out.request is Exit <==> out.state.phase == Phase::Finished
        }),
{
    let none = Seq::<ReportModel>::empty();
    assert(count_severity(none, Severity::Error) == 0);
    assert(count_severity(none, Severity::Info) == 0);
    assert(count_severity(none, Severity::Fatal) == 0);
    assert(count_absent(Seq::empty()) == 0);
    match state.phase {
        Phase::Loading => match event {
            EventModel::Failed(cause) => {
                let report = load_failed_report(cause);
                lemma_count_severity_one(report, Severity::Error);
                lemma_count_severity_one(report, Severity::Info);
                lemma_count_severity_one(report, Severity::Fatal);
            },
            _ => {},
        },
        Phase::Reading => match event {
            EventModel::Failed(cause) => {
                let report = line_failed_report(cause);
                lemma_count_severity_one(report, Severity::Error);
                lemma_count_severity_one(report, Severity::Info);
                lemma_count_severity_one(report, Severity::Fatal);
            },
            EventModel::Line(raw) => {
                let report = unreadable_line_report();
                lemma_count_severity_one(report, Severity::Error);
                lemma_count_severity_one(report, Severity::Info);
                lemma_count_severity_one(report, Severity::Fatal);
            },
            _ => {},
        },
        Phase::Opening => match event {
            EventModel::Failed(cause) => {
                let report = open_failed_report(state.path, cause);
                lemma_count_severity_one(report, Severity::Error);
                lemma_count_severity_one(report, Severity::Info);
                lemma_count_severity_one(report, Severity::Fatal);
            },
            _ => {},
        },
        Phase::Listing => match event {
            EventModel::Listed(names) => {
                lemma_next_remote(none, state.path, names);
            },
            EventModel::Failed(cause) => {
                let report = list_failed_report(state.path, cause);
                lemma_count_severity_one(report, Severity::Error);
                lemma_count_severity_one(report, Severity::Info);
                lemma_count_severity_one(report, Severity::Fatal);
            },
            _ => {},
        },
        Phase::Finding => {},
        Phase::FindingAnonymous | Phase::Downloading | Phase::Disconnecting | Phase::Updating => {
            match event {
                EventModel::Failed(cause) => {
                    let stage = failing_stage(state.phase)->0;
                    let report = remote_failed_report(stage, state.remote, state.path, cause);
                    lemma_count_severity_one(report, Severity::Error);
                    lemma_count_severity_one(report, Severity::Info);
                    lemma_count_severity_one(report, Severity::Fatal);
                    lemma_next_remote(seq![report], state.path, state.remotes);
                },
                EventModel::Downloaded(stats) => {
                    let report = summary_report(stats);
                    lemma_count_severity_one(report, Severity::Error);
                    lemma_count_severity_one(report, Severity::Info);
                    lemma_count_severity_one(report, Severity::Fatal);
                },
                EventModel::Done => {
                    if state.phase == Phase::Updating {
                        lemma_next_remote(none, state.path, state.remotes);
                    }
                },
                _ => {},
            }
        },
        Phase::Finished => {},
    }
}

/// A whole run, counted. Whatever the events, as long as each is accepted:
/// the state stays valid; each event is answered with one request; as many
/// repositories are opened as lines with a path are read; the errors that
/// are reported are as many as the lines without a path and the failures
/// that are reported; the remotes that were reported as skipped and those
/// without a name that still wait are together the remotes without a name
/// that were listed; nothing fatal is reported unless the index cannot be
/// opened; and the run is over exactly when the last request is to exit,
/// with status 1 if the index could not be opened and with status 0
/// otherwise.
pub proof fn law_run_accounts(state: SessionModel, events: Seq<EventModel>)
    requires
        state.valid(),
        run(state, events) is Some,
    ensures
        ({
            let trace = run(state, events)->0;
            &&& trace.state.valid()
            &&& events.len() > 0 ==> trace.state.phase != Phase::Loading
            &&& trace.requests.len() == events.len()
            &&& count_opens(trace.requests) == paths_read(state, events)
            &&& count_severity(trace.reports, Severity::Error) == lines_without_path(
                state,
                events,
            ) + failures_reported(state, events)
            &&& count_severity(trace.reports, Severity::Info) + count_absent(trace.state.remotes)
                == count_absent(state.remotes) + unnamed_listed(state, events)
            &&& count_severity(trace.reports, Severity::Fatal) == if fails_to_load(state, events) {
                1nat
            } else {
                0nat
            }
            &&& events.len() > 0 ==> (trace.requests.last() is Exit <==> trace.state.phase
                == Phase::Finished)
            &&& events.len() > 0 ==> (trace.requests.last() matches RequestModel::Exit { status }
                ==> status == if fails_to_load(state, events) {
                1i32
            } else {
                0i32
            })
        }),
    decreases events.len(),
{
    let none = Seq::<ReportModel>::empty();
    if events.len() == 0 {
        assert(count_severity(none, Severity::Error) == 0);
        assert(count_severity(none, Severity::Info) == 0);
        assert(count_severity(none, Severity::Fatal) == 0);
        assert(count_opens(Seq::empty()) == 0);
    } else {
        let out = transition(state, events[0])->0;
        let later = events.drop_first();
        law_step_accounts(state, events[0]);
        law_run_accounts(out.state, later);
        let rest = run(out.state, later)->0;
        let trace = run(state, events)->0;
        assert(trace.reports == out.reports + rest.reports);
        assert(trace.requests == seq![out.request] + rest.requests);
        lemma_count_severity_add(out.reports, rest.reports, Severity::Error);
        lemma_count_severity_add(out.reports, rest.reports, Severity::Info);
        lemma_count_severity_add(out.reports, rest.reports, Severity::Fatal);
        lemma_count_opens_first(out.request, rest.requests);
        assert(!fails_to_load(out.state, later));
        if later.len() == 0 {
            assert(trace.requests.last() == out.request);
        } else {
            assert(trace.requests.last() == rest.requests.last());
            assert(transition(out.state, later[0]) is Some);
            assert(out.state.phase != Phase::Finished);
        }
    }
}

/// Every line is answered, and none ends the run but the end of the index.
/// A line with a path has its repository opened, and nothing is reported. A
/// line without a path is reported once, as an error, and the next line is
/// read. A line that could not be read is reported once, as an error with
/// the cause, and the next line is read. At the end of the index the run
/// ends with status 0.
pub proof fn law_every_line_is_answered(raw: Seq<u8>, cause: Seq<char>)
    ensures
        transition(SessionModel::reading(), EventModel::Line(raw)) == Some(line_read(raw)),
        raw.len() > 0 ==> match line_path(raw) {
            Some(path) => {
                &&& line_read(raw).request == (RequestModel::OpenRepository { path })
                &&& line_read(raw).reports.len() == 0
                &&& line_read(raw).state.phase == Phase::Opening
                &&& line_read(raw).state.path == path
            },
            None => line_read(raw) == next_line(seq![unreadable_line_report()]),
        },
        raw.len() == 0 ==> line_read(raw) == (Outcome {
            state: SessionModel::finished(),
            reports: Seq::empty(),
            request: RequestModel::Exit { status: 0 },
        }),
        transition(SessionModel::reading(), EventModel::Failed(cause)) == Some(
            next_line(seq![line_failed_report(cause)]),
        ),
        unreadable_line_report().severity == Severity::Error,
        line_failed_report(cause).severity == Severity::Error,
        next_line(seq![line_failed_report(cause)]).request == RequestModel::ReadLine,
{
}

/// No failure of a line, of a repository or of a remote stops the run. In a
/// run that opens the index and goes on until it is over, every line with a
/// path is tried: as many repositories are opened as such lines are read.
/// The errors that are reported are as many as the lines without a path and
/// the failures that are reported. Nothing fatal is reported, and the run
/// ends with status 0. In particular, where every line has a path and
/// nothing but the opening of repositories fails, each repository that fails
/// to open is one error, and there is no other.
pub proof fn law_every_path_is_tried(events: Seq<EventModel>)
    requires
        events.len() > 0,
        events[0] is Done,
        run(SessionModel::start(), events) is Some,
        run(SessionModel::start(), events)->0.state.phase == Phase::Finished,
    ensures
        ({
            let start = SessionModel::start();
            let trace = run(start, events)->0;
            &&& count_opens(trace.requests) == paths_read(start, events)
            &&& count_severity(trace.reports, Severity::Error) == lines_without_path(
                start,
                events,
            ) + failures_reported(start, events)
            &&& count_severity(trace.reports, Severity::Fatal) == 0
            &&& trace.requests.last() == (RequestModel::Exit { status: 0 })
            &&& lines_without_path(start, events) == 0 && failures_reported(start, events)
                == failures_to_open(start, events) ==> count_severity(
                trace.reports,
                Severity::Error,
            ) == failures_to_open(start, events)
        }),
{
    law_run_accounts(SessionModel::start(), events);
}

/// When the index cannot be opened the run is over at once: the failure is
/// reported as fatal, the process is to exit with status 1, and no further
/// event is accepted, so nothing else is reported or requested.
pub proof fn law_missing_index_ends_the_run(cause: Seq<char>, events: Seq<EventModel>)
    ensures
        transition(SessionModel::start(), EventModel::Failed(cause)) == Some(
            Outcome {
                state: SessionModel::finished(),
                reports: seq![load_failed_report(cause)],
                request: RequestModel::Exit { status: 1 },
            },
        ),
        load_failed_report(cause).severity == Severity::Fatal,
        forall|event: EventModel| transition(SessionModel::finished(), event) is None,
        run(SessionModel::start(), seq![EventModel::Failed(cause)] + events) is Some
            ==> events.len() == 0,
        run(SessionModel::start(), seq![EventModel::Failed(cause)]) == Some(
            Trace {
                state: SessionModel::finished(),
                reports: seq![load_failed_report(cause)],
                requests: seq![RequestModel::Exit { status: 1 }],
            },
        ),
{
    let first = seq![EventModel::Failed(cause)];
    let all = first + events;
    assert(all[0] == EventModel::Failed(cause));
    assert(all.drop_first() =~= events);
    if events.len() > 0 {
        assert(transition(SessionModel::finished(), events[0]) is None);
        assert(run(SessionModel::finished(), events) is None);
    }
    assert(first.drop_first() =~= Seq::<EventModel>::empty());
    assert(first[0] == EventModel::Failed(cause));
    assert(run(SessionModel::finished(), first.drop_first()) == Some(
        Trace {
            state: SessionModel::finished(),
            reports: Seq::empty(),
            requests: Seq::empty(),
        },
    ));
    let report = load_failed_report(cause);
    assert(seq![report] + Seq::<ReportModel>::empty() =~= seq![report]);
    assert(seq![RequestModel::Exit { status: 1 }] + Seq::<RequestModel>::empty() =~= seq![
        RequestModel::Exit { status: 1 },
    ]);
}

/// A repository without remotes reports nothing. When its remotes are listed
/// and there are none, the run goes straight on to the next line of the
/// index: no fetch is announced, nothing is skipped, and there is no error.
pub proof fn law_no_remotes_no_reports(state: SessionModel)
    requires
        state.phase == Phase::Listing,
    ensures
        transition(state, EventModel::Listed(Seq::empty())) == Some(
            Outcome {
                state: SessionModel::reading(),
                reports: Seq::empty(),
                request: RequestModel::ReadLine,
            },
        ),
{
}

/// A remote without a name is skipped: it is reported once, as an info, and
/// the run goes on as if it had not been listed. It is never looked up.
pub proof fn law_unnamed_remote_is_skipped(state: SessionModel, others: Seq<Option<Seq<char>>>)
    requires
        state.phase == Phase::Listing,
    ensures
        ({
            let listed = seq![None::<Seq<char>>] + others;
            let with = transition(state, EventModel::Listed(listed));
            let without = transition(state, EventModel::Listed(others));
            &&& with is Some
            &&& without is Some
            &&& with->0.state == without->0.state
            &&& with->0.request == without->0.request
            &&& with->0.reports == seq![skipped_remote_report(state.path)] + without->0.reports
            &&& skipped_remote_report(state.path).severity == Severity::Info
            &&& with->0.request matches RequestModel::FindRemote { name } ==> others.contains(
                Some(name),
            )
        }),
{
    let none = Seq::<ReportModel>::empty();
    let listed = seq![None::<Seq<char>>] + others;
    assert(listed[0] is None);
    assert(listed.drop_first() =~= others);
    assert(none.push(skipped_remote_report(state.path)) =~= seq![
        skipped_remote_report(state.path),
    ]);
    lemma_next_remote_prefix(seq![skipped_remote_report(state.path)], state.path, others);
    lemma_next_remote(none, state.path, others);
}

/// Every remote that is looked up was listed with a name, at whatever place
/// in the list, and the remotes without a name that are passed over on the
/// way are each reported once.
pub proof fn law_only_named_remotes_are_fetched(
    state: SessionModel,
    names: Seq<Option<Seq<char>>>,
)
    requires
        state.phase == Phase::Listing,
        state.valid(),
    ensures
        ({
            let out = transition(state, EventModel::Listed(names))->0;
            &&& transition(state, EventModel::Listed(names)) is Some
            &&& out.request matches RequestModel::FindRemote { name } ==> names.contains(
                Some(name),
            )
            &&& !(out.request is AnonymousRemote)
            &&& count_severity(out.reports, Severity::Info) + count_absent(out.state.remotes)
                == count_absent(names)
        }),
{
    law_step_accounts(state, EventModel::Listed(names));
    lemma_next_remote(Seq::empty(), state.path, names);
}

/// A remote that fails is given up, and nothing else is. Whatever step of
/// its fetch fails (the download, for one), the failure is reported once, as
/// an error, and the run goes on exactly as it does after a remote that was
/// fetched: with the next remote of the repository, then with the next line
/// of the index. The process is not asked to exit.
pub proof fn law_failed_remote_is_passed_over(state: SessionModel, cause: Seq<char>)
    requires
        failing_stage(state.phase) is Some,
    ensures
        ({
            let failed = transition(state, EventModel::Failed(cause));
            let fetched = transition(state.at(Phase::Updating), EventModel::Done);
            let report = remote_failed_report(
                failing_stage(state.phase)->0,
                state.remote,
                state.path,
                cause,
            );
            &&& failed is Some
            &&& fetched is Some
            &&& failed->0.state == fetched->0.state
            &&& failed->0.request == fetched->0.request
            &&& failed->0.reports == seq![report] + fetched->0.reports
            &&& report.severity == Severity::Error
            &&& count_severity(failed->0.reports, Severity::Error) == 1
            &&& count_severity(fetched->0.reports, Severity::Error) == 0
            &&& failed->0.request is FindRemote || failed->0.request is ReadLine
        }),
{
    let report = remote_failed_report(
        failing_stage(state.phase)->0,
        state.remote,
        state.path,
        cause,
    );
    let none = Seq::<ReportModel>::empty();
    lemma_next_remote_prefix(seq![report], state.path, state.remotes);
    lemma_next_remote(none, state.path, state.remotes);
    let fetched = next_remote(none, state.path, state.remotes);
    lemma_count_severity_add(seq![report], fetched.reports, Severity::Error);
    lemma_count_severity_one(report, Severity::Error);
    assert(count_severity(none, Severity::Error) == 0);
}

/// The error that is reported when the download from `remote` fails for the
/// repository at `path`, written out: it names both.
pub proof fn law_download_failure_names_remote_and_repository(
    remote: Seq<char>,
    path: Seq<char>,
    cause: Seq<char>,
)
    ensures
        remote_failed_report(Stage::Download, remote, path, cause).text
            == "error: fetch failed: failed downloading from remote '"@ + remote + "' for '"@
            + path + "': "@ + cause + "\n"@,
{
    reveal_strlit("error: ");
    reveal_strlit("fetch failed");
    reveal_strlit(": ");
    reveal_strlit("failed downloading from remote");
    reveal_strlit(" '");
    reveal_strlit("'");
    reveal_strlit("': ");
    reveal_strlit("error: fetch failed: failed downloading from remote '");
    assert("error: "@ + "fetch failed"@ + ": "@ + "failed downloading from remote"@ + " '"@
        =~= "error: fetch failed: failed downloading from remote '"@);
    assert("'"@ + ": "@ =~= "': "@);
    let head = "error: "@ + "fetch failed"@ + ": "@ + "failed downloading from remote"@ + " '"@;
    assert(remote_failed_report(Stage::Download, remote, path, cause).text =~= head + remote
        + "' for '"@ + path + ("'"@ + ": "@) + cause + "\n"@);
}

/// The error that is reported when another step than the download fails:
/// the step in words and the cause, and nothing of the remote or of the
/// repository. For a remote that cannot be resolved the cause is that of the
/// second attempt.
pub proof fn law_other_failures_name_the_step(
    stage: Stage,
    remote: Seq<char>,
    path: Seq<char>,
    cause: Seq<char>,
)
    requires
        stage != Stage::Download,
    ensures
        remote_failed_report(stage, remote, path, cause).text == error_text(
            "fetch failed"@,
            nested_text(stage.phrase(), cause),
        ),
        Stage::Resolve.phrase() == "failed to list remotes"@,
        Stage::Disconnect.phrase() == "failed disconnecting from remote"@,
        Stage::UpdateTips.phrase() == "failed updating remote tips"@,
{
}

} // verus!
