use gmf::progress::FetchStatistics;
use gmf::report::Severity;
use gmf::session::{Autotag, Event, Phase, Request, Session, Step};

fn failed(cause: &str) -> Event {
    Event::Failed(String::from(cause))
}

fn line(raw: &[u8]) -> Event {
    Event::Line(raw.to_vec())
}

fn end() -> Event {
    Event::Line(Vec::new())
}

fn listed(names: &[Option<&str>]) -> Event {
    Event::Listed(names.iter().map(|name| name.map(String::from)).collect())
}

fn open(path: &str) -> Request {
    Request::OpenRepository { path: String::from(path) }
}

fn find(name: &str) -> Request {
    Request::FindRemote { name: String::from(name) }
}

fn anonymous(name: &str) -> Request {
    Request::AnonymousRemote { name: String::from(name) }
}

fn download() -> Request {
    Request::Download { refspecs: Vec::new() }
}

fn update_tips() -> Request {
    Request::UpdateTips { update_fetchhead: true, autotag: Autotag::Unspecified }
}

fn exit(status: i32) -> Request {
    Request::Exit { status }
}

fn texts(step: &Step) -> Vec<String> {
    step.reports.iter().map(|report| report.text.clone()).collect()
}

fn severities(step: &Step) -> Vec<Severity> {
    step.reports.iter().map(|report| report.severity).collect()
}

fn count(step: &Step, severity: Severity) -> usize {
    step.reports.iter().filter(|report| report.severity == severity).count()
}

fn none() -> Vec<String> {
    Vec::new()
}

fn stats(indexed: usize, total: usize, bytes: usize, local: usize) -> FetchStatistics {
    FetchStatistics {
        total_objects: total,
        indexed_objects: indexed,
        received_objects: total,
        local_objects: local,
        total_deltas: 0,
        indexed_deltas: 0,
        received_bytes: bytes,
    }
}

/// A session whose index is open and whose first line is awaited.
fn reading() -> Session {
    let mut session = Session::new();
    let step = session.advance(Event::Done).unwrap();
    assert_eq!(texts(&step), none());
    assert_eq!(step.request, Request::ReadLine);
    session
}

/// A session that has read the line of `path`, opened it, listed `names` and
/// taken the first step after that.
fn at_first_remote(path: &str, names: &[Option<&str>]) -> (Session, Step) {
    let mut session = reading();
    let raw = format!("{}\n", path);
    let step = session.advance(line(raw.as_bytes())).unwrap();
    assert_eq!(step.request, open(path));
    let step = session.advance(Event::Done).unwrap();
    assert_eq!(step.request, Request::ListRemotes);
    let step = session.advance(listed(names)).unwrap();
    (session, step)
}

#[test]
fn session_begins_by_opening_the_index() {
    let session = Session::new();
    assert_eq!(session.phase(), Phase::Loading);
    assert!(!session.is_finished());
}

#[test]
fn missing_index_is_fatal_and_nothing_else_is_shown() {
    let mut session = Session::new();
    let step = session.advance(failed("No such file or directory (os error 2)")).unwrap();
    assert_eq!(
        texts(&step),
        vec!["fatal: failed to load configuration '.gmf': No such file or directory (os error 2)\n"]
    );
    assert_eq!(severities(&step), vec![Severity::Fatal]);
    assert_eq!(step.request, exit(1));
    assert!(session.is_finished());
    assert_eq!(session.advance(Event::Done), None);
    assert_eq!(session.advance(line(b"/a\n")), None);
    assert_eq!(session.advance(failed("again")), None);
    assert!(session.is_finished());
}

#[test]
fn open_index_is_read_line_by_line() {
    let mut session = Session::new();
    let step = session.advance(Event::Done).unwrap();
    assert_eq!(texts(&step), none());
    assert_eq!(step.request, Request::ReadLine);
    assert_eq!(session.phase(), Phase::Reading);
}

#[test]
fn empty_index_ends_the_run_with_status_zero() {
    let mut session = reading();
    let step = session.advance(end()).unwrap();
    assert_eq!(texts(&step), none());
    assert_eq!(step.request, exit(0));
    assert!(session.is_finished());
}

#[test]
fn every_line_is_tried_and_each_failed_open_is_one_error() {
    let lines: Vec<&[u8]> = vec![b"/good1\n", b"/bad1\n", b"/good2\n", b"/bad2\n", b"/good3"];
    let mut next = lines.iter();
    let mut session = Session::new();
    let mut opens = 0;
    let mut errors = 0;
    let mut tried = Vec::new();
    let mut step = session.advance(Event::Done).unwrap();
    loop {
        errors += count(&step, Severity::Error);
        assert_eq!(count(&step, Severity::Fatal), 0);
        let event = match step.request {
            Request::ReadLine => match next.next() {
                Some(raw) => line(raw),
                None => end(),
            },
            Request::OpenRepository { path } => {
                opens += 1;
                let bad = path.starts_with("/bad");
                tried.push(path);
                if bad { failed("not a repository") } else { Event::Done }
            }
            Request::ListRemotes => listed(&[]),
            Request::Exit { status } => {
                assert_eq!(status, 0);
                break;
            }
            other => panic!("unexpected request {:?}", other),
        };
        step = session.advance(event).unwrap();
    }
    assert_eq!(opens, 5);
    assert_eq!(errors, 2);
    assert_eq!(tried, vec!["/good1", "/bad1", "/good2", "/bad2", "/good3"]);
    assert!(session.is_finished());
}

#[test]
fn failed_open_is_reported_with_the_path() {
    let mut session = reading();
    let step = session.advance(line(b"/bad\n")).unwrap();
    assert_eq!(texts(&step), none());
    assert_eq!(step.request, open("/bad"));
    assert_eq!(session.phase(), Phase::Opening);
    let step = session.advance(failed("could not find repository")).unwrap();
    assert_eq!(
        texts(&step),
        vec!["error: fetch failed: failed to open repository '/bad': could not find repository\n"]
    );
    assert_eq!(severities(&step), vec![Severity::Error]);
    assert_eq!(step.request, Request::ReadLine);
    assert_eq!(session.phase(), Phase::Reading);
}

#[test]
fn blank_line_is_tried_as_an_empty_path() {
    let mut session = reading();
    let step = session.advance(line(b"\n")).unwrap();
    assert_eq!(texts(&step), none());
    assert_eq!(step.request, open(""));
    let step = session.advance(failed("no path")).unwrap();
    assert_eq!(
        texts(&step),
        vec!["error: fetch failed: failed to open repository '': no path\n"]
    );
    assert_eq!(step.request, Request::ReadLine);
}

#[test]
fn line_end_is_not_part_of_the_path() {
    let mut session = reading();
    let step = session.advance(line(b"/a\r\n")).unwrap();
    assert_eq!(step.request, open("/a"));
    let mut session = reading();
    let step = session.advance(line(b"/last\r")).unwrap();
    assert_eq!(step.request, open("/last\r"));
}

#[test]
fn line_that_is_not_utf8_is_reported_and_passed_over() {
    let mut session = reading();
    let step = session.advance(line(b"\xff\n")).unwrap();
    assert_eq!(
        texts(&step),
        vec!["error: failed to read configuration line '.gmf': stream did not contain valid UTF-8\n"]
    );
    assert_eq!(severities(&step), vec![Severity::Error]);
    assert_eq!(step.request, Request::ReadLine);
    let step = session.advance(line(b"/a\n")).unwrap();
    assert_eq!(texts(&step), none());
    assert_eq!(step.request, open("/a"));
}

#[test]
fn line_that_cannot_be_read_is_reported_and_the_run_goes_on() {
    let mut session = reading();
    let step = session.advance(failed("Input/output error (os error 5)")).unwrap();
    assert_eq!(
        texts(&step),
        vec!["error: failed to read configuration line '.gmf': Input/output error (os error 5)\n"]
    );
    assert_eq!(severities(&step), vec![Severity::Error]);
    assert_eq!(step.request, Request::ReadLine);
    assert!(!session.is_finished());
    let step = session.advance(line(b"/a\n")).unwrap();
    assert_eq!(step.request, open("/a"));
}

#[test]
fn failed_listing_is_reported_with_the_path() {
    let mut session = reading();
    session.advance(line(b"/a\n")).unwrap();
    let step = session.advance(Event::Done).unwrap();
    assert_eq!(texts(&step), none());
    assert_eq!(step.request, Request::ListRemotes);
    assert_eq!(session.phase(), Phase::Listing);
    let step = session.advance(failed("config is broken")).unwrap();
    assert_eq!(
        texts(&step),
        vec!["error: fetch failed: failed to list remotes for '/a': config is broken\n"]
    );
    assert_eq!(step.request, Request::ReadLine);
}

#[test]
fn repository_without_remotes_shows_nothing() {
    let (mut session, step) = at_first_remote("/a", &[]);
    assert_eq!(texts(&step), none());
    assert_eq!(step.request, Request::ReadLine);
    let step = session.advance(end()).unwrap();
    assert_eq!(texts(&step), none());
    assert_eq!(step.request, exit(0));
}

#[test]
fn remote_without_a_name_is_skipped_with_one_info() {
    let (mut session, step) = at_first_remote("/a", &[None, Some("origin"), None, None]);
    assert_eq!(
        texts(&step),
        vec![
            "info: Skipping non-utf8 remote name for '/a'\n",
            "Fetching remote 'origin' for '/a'\n",
        ]
    );
    assert_eq!(severities(&step), vec![Severity::Info, Severity::Notice]);
    assert_eq!(step.request, find("origin"));
    let step = session.advance(Event::Done).unwrap();
    assert_eq!(step.request, download());
    let step = session.advance(failed("offline")).unwrap();
    assert_eq!(
        texts(&step),
        vec![
            "error: fetch failed: failed downloading from remote 'origin' for '/a': offline\n",
            "info: Skipping non-utf8 remote name for '/a'\n",
            "info: Skipping non-utf8 remote name for '/a'\n",
        ]
    );
    assert_eq!(step.request, Request::ReadLine);
}

#[test]
fn only_unnamed_remotes_means_no_fetch() {
    let (_, step) = at_first_remote("/a", &[None]);
    assert_eq!(texts(&step), vec!["info: Skipping non-utf8 remote name for '/a'\n"]);
    assert_eq!(step.request, Request::ReadLine);
}

#[test]
fn fetch_goes_through_every_step() {
    let (mut session, step) = at_first_remote("/a", &[Some("origin")]);
    assert_eq!(texts(&step), vec!["Fetching remote 'origin' for '/a'\n"]);
    assert_eq!(step.request, find("origin"));
    assert_eq!(session.phase(), Phase::Finding);

    let step = session.advance(Event::Done).unwrap();
    assert_eq!(texts(&step), none());
    assert_eq!(step.request, download());
    assert_eq!(session.phase(), Phase::Downloading);

    let step = session.advance(Event::Downloaded(stats(5, 7, 1024, 0))).unwrap();
    assert_eq!(texts(&step), vec!["\rReceived 5/7 objects in 1024 bytes\n"]);
    assert_eq!(severities(&step), vec![Severity::Notice]);
    assert_eq!(step.request, Request::Disconnect);
    assert_eq!(session.phase(), Phase::Disconnecting);

    let step = session.advance(Event::Done).unwrap();
    assert_eq!(texts(&step), none());
    assert_eq!(step.request, update_tips());
    assert_eq!(session.phase(), Phase::Updating);

    let step = session.advance(Event::Done).unwrap();
    assert_eq!(texts(&step), none());
    assert_eq!(step.request, Request::ReadLine);
    assert_eq!(session.phase(), Phase::Reading);

    let step = session.advance(end()).unwrap();
    assert_eq!(step.request, exit(0));
    assert!(session.is_finished());
}

#[test]
fn summary_names_local_objects_only_if_there_were_any() {
    let (mut session, _) = at_first_remote("/a", &[Some("origin")]);
    session.advance(Event::Done).unwrap();
    let step = session.advance(Event::Downloaded(stats(7, 7, 2048, 3))).unwrap();
    assert_eq!(
        texts(&step),
        vec!["\rReceived 7/7 objects in 2048 bytes (used 3 local objects)\n"]
    );
}

#[test]
fn remote_that_is_not_configured_is_tried_as_a_url() {
    let (mut session, step) = at_first_remote("/a", &[Some("https://example.com/x.git")]);
    assert_eq!(step.request, find("https://example.com/x.git"));
    let step = session.advance(failed("remote does not exist")).unwrap();
    assert_eq!(texts(&step), none());
    assert_eq!(step.request, anonymous("https://example.com/x.git"));
    assert_eq!(session.phase(), Phase::FindingAnonymous);
    let step = session.advance(Event::Done).unwrap();
    assert_eq!(texts(&step), none());
    assert_eq!(step.request, download());
}

#[test]
fn remote_that_cannot_be_resolved_is_given_up_with_the_second_cause() {
    let (mut session, _) = at_first_remote("/a", &[Some("origin"), Some("backup")]);
    session.advance(failed("remote does not exist")).unwrap();
    let step = session.advance(failed("unsupported URL protocol")).unwrap();
    assert_eq!(
        texts(&step),
        vec![
            "error: fetch failed: failed to list remotes: unsupported URL protocol\n",
            "Fetching remote 'backup' for '/a'\n",
        ]
    );
    assert_eq!(step.request, find("backup"));
}

#[test]
fn failed_download_is_one_error_and_the_run_goes_on() {
    let (mut session, step) = at_first_remote("/a", &[Some("origin"), Some("backup")]);
    assert_eq!(step.request, find("origin"));
    session.advance(Event::Done).unwrap();
    let step = session.advance(failed("connection refused")).unwrap();
    assert_eq!(count(&step, Severity::Error), 1);
    assert_eq!(
        texts(&step),
        vec![
            "error: fetch failed: failed downloading from remote 'origin' for '/a': connection refused\n",
            "Fetching remote 'backup' for '/a'\n",
        ]
    );
    assert_eq!(step.request, find("backup"));
    session.advance(Event::Done).unwrap();
    let step = session.advance(failed("connection refused")).unwrap();
    assert_eq!(
        texts(&step),
        vec![
            "error: fetch failed: failed downloading from remote 'backup' for '/a': connection refused\n",
        ]
    );
    assert_eq!(step.request, Request::ReadLine);
    assert!(!session.is_finished());
    let step = session.advance(line(b"/b\n")).unwrap();
    assert_eq!(step.request, open("/b"));
}

#[test]
fn failed_disconnect_is_reported_after_the_summary() {
    let (mut session, _) = at_first_remote("/a", &[Some("origin")]);
    session.advance(Event::Done).unwrap();
    let step = session.advance(Event::Downloaded(stats(1, 1, 10, 0))).unwrap();
    assert_eq!(texts(&step), vec!["\rReceived 1/1 objects in 10 bytes\n"]);
    let step = session.advance(failed("broken pipe")).unwrap();
    assert_eq!(
        texts(&step),
        vec!["error: fetch failed: failed disconnecting from remote: broken pipe\n"]
    );
    assert_eq!(step.request, Request::ReadLine);
}

#[test]
fn failed_update_of_tips_is_reported() {
    let (mut session, _) = at_first_remote("/a", &[Some("origin")]);
    session.advance(Event::Done).unwrap();
    session.advance(Event::Downloaded(stats(1, 1, 10, 0))).unwrap();
    session.advance(Event::Done).unwrap();
    let step = session.advance(failed("reference is locked")).unwrap();
    assert_eq!(
        texts(&step),
        vec!["error: fetch failed: failed updating remote tips: reference is locked\n"]
    );
    assert_eq!(step.request, Request::ReadLine);
}

#[test]
fn event_that_is_not_awaited_is_refused() {
    let mut session = Session::new();
    assert_eq!(session.advance(line(b"/a\n")), None);
    assert_eq!(session.advance(listed(&[Some("origin")])), None);
    assert_eq!(session.phase(), Phase::Loading);
    session.advance(Event::Done).unwrap();
    assert_eq!(session.advance(Event::Done), None);
    assert_eq!(session.phase(), Phase::Reading);
    session.advance(line(b"/a\n")).unwrap();
    assert_eq!(session.advance(line(b"/b\n")), None);
    assert_eq!(session.advance(Event::Downloaded(stats(0, 0, 0, 0))), None);
    assert_eq!(session.phase(), Phase::Opening);
    let step = session.advance(Event::Done).unwrap();
    assert_eq!(step.request, Request::ListRemotes);
    assert_eq!(session.advance(Event::Done), None);
    let step = session.advance(listed(&[Some("origin")])).unwrap();
    assert_eq!(step.request, find("origin"));
    assert_eq!(session.advance(listed(&[])), None);
    session.advance(Event::Done).unwrap();
    assert_eq!(session.advance(Event::Done), None);
    assert_eq!(session.phase(), Phase::Downloading);
    session.advance(Event::Downloaded(stats(0, 0, 0, 0))).unwrap();
    assert_eq!(session.advance(Event::Downloaded(stats(0, 0, 0, 0))), None);
    assert_eq!(session.phase(), Phase::Disconnecting);
}

#[test]
fn finished_run_accepts_nothing() {
    let mut session = reading();
    session.advance(end()).unwrap();
    assert!(session.is_finished());
    assert_eq!(session.advance(Event::Done), None);
    assert_eq!(session.advance(failed("late")), None);
    assert_eq!(session.advance(line(b"/a\n")), None);
    assert_eq!(session.phase(), Phase::Finished);
}

#[test]
fn whole_run_in_order() {
    let lines: Vec<&[u8]> = vec![b"/one\r\n", b"\xff\n", b"/two"];
    let mut next = lines.iter();
    let mut session = Session::new();
    let mut shown = Vec::new();
    let mut step = session.advance(Event::Done).unwrap();
    loop {
        shown.extend(texts(&step));
        let event = match step.request {
            Request::ReadLine => match next.next() {
                Some(raw) => line(raw),
                None => end(),
            },
            Request::OpenRepository { .. } => Event::Done,
            Request::ListRemotes => listed(&[Some("origin"), None]),
            Request::FindRemote { .. } => Event::Done,
            Request::AnonymousRemote { .. } => panic!("lookup by name succeeded"),
            Request::Download { .. } => Event::Downloaded(stats(2, 2, 64, 1)),
            Request::Disconnect => Event::Done,
            Request::UpdateTips { .. } => Event::Done,
            Request::Exit { status } => {
                assert_eq!(status, 0);
                break;
            }
        };
        step = session.advance(event).unwrap();
    }
    assert_eq!(
        shown,
        vec![
            "Fetching remote 'origin' for '/one'\n",
            "\rReceived 2/2 objects in 64 bytes (used 1 local objects)\n",
            "info: Skipping non-utf8 remote name for '/one'\n",
            "error: failed to read configuration line '.gmf': stream did not contain valid UTF-8\n",
            "Fetching remote 'origin' for '/two'\n",
            "\rReceived 2/2 objects in 64 bytes (used 1 local objects)\n",
            "info: Skipping non-utf8 remote name for '/two'\n",
        ]
    );
}
