use venv_sweeper::bridge::ToolOutcome;
use venv_sweeper::config::{ScanConfiguration, TraversalEntry};
use venv_sweeper::paths::ScanPath;
use venv_sweeper::protocol::{Action, Event, Fate, LedgerEntry, Notice, Reaction, Stream};
use venv_sweeper::resolver::{Answer, VirtualenvCandidate};
use venv_sweeper::scan::Scan;
use venv_sweeper::sizing::MeasuredEntry;

fn path(parts: &[&str]) -> ScanPath {
    ScanPath::from_parts(parts.iter().map(|part| part.to_string()).collect())
}

fn config(delete: bool, non_interactive: bool) -> ScanConfiguration {
    ScanConfiguration::new(None, delete, None, false, false, non_interactive)
}

fn debugging(delete: bool, non_interactive: bool) -> ScanConfiguration {
    ScanConfiguration::new(None, delete, None, false, true, non_interactive)
}

fn walked(parts: &[&str]) -> Event {
    Event::Walked(TraversalEntry { path: path(parts), depth: parts.len() - 1, exists: true })
}

fn files(lengths: &[u64]) -> Event {
    let mut entries = vec![MeasuredEntry::Other];
    for length in lengths {
        entries.push(MeasuredEntry::RegularFile(*length));
    }
    Event::Measured(entries)
}

fn quiet(action: Action) -> Reaction {
    Reaction { notices: vec![], action }
}

fn out(text: &str, action: Action) -> Reaction {
    Reaction { notices: vec![Notice { stream: Stream::Output, text: text.to_string() }], action }
}

fn err(text: &str, action: Action) -> Reaction {
    Reaction { notices: vec![Notice { stream: Stream::Error, text: text.to_string() }], action }
}

fn entry(candidate: &str, size: u64, fate: Fate) -> LedgerEntry {
    LedgerEntry { candidate: VirtualenvCandidate { location: candidate.to_string() }, size, fate }
}

fn measure(candidate: &str) -> Action {
    Action::Measure(candidate.to_string())
}

/// Walks to the marker of `project` and answers that its conventional
/// directory exists.
fn find_conventional(scan: &mut Scan, project: &str) {
    let reaction = scan.step(walked(&[".", project, "pyproject.toml"]));
    assert_eq!(reaction, quiet(Action::Probe(format!("./{}/.venv", project))));
    let reaction = scan.step(Event::Answered(Answer::Exists(true)));
    assert_eq!(reaction, quiet(measure(&format!("./{}/.venv", project))));
}

#[test]
fn a_run_starts_by_walking() {
    let (scan, reaction) = Scan::start(config(false, false));
    assert_eq!(reaction, quiet(Action::Advance));
    assert_eq!(scan.total(), 0);
    assert!(scan.ledger().is_empty());
    assert_eq!(scan.claimed().len(), 0);
    assert!(!scan.is_over());
    assert_eq!(scan.pending(), Action::Advance);
    assert_eq!(scan.config().root, path(&["."]));
}

#[test]
fn a_run_in_debug_mode_says_where_it_walks() {
    let settings =
        ScanConfiguration::new(Some(path(&["/", "srv"])), false, None, false, true, false);
    let (_, reaction) = Scan::start(settings);
    assert_eq!(reaction, err("Walking path: \"/srv\"", Action::Advance));
}

#[test]
fn report_mode_reports_and_counts() {
    let (mut scan, _) = Scan::start(config(false, false));
    assert_eq!(scan.step(walked(&["."])), quiet(Action::Advance));
    assert_eq!(scan.step(walked(&[".", "one"])), quiet(Action::Advance));
    find_conventional(&mut scan, "one");
    let reaction = scan.step(files(&[1000, 500]));
    assert_eq!(reaction, out("Found \"./one/.venv\" (1.5 KB)", Action::Advance));
    assert_eq!(scan.total(), 1500);
    find_conventional(&mut scan, "two");
    let reaction = scan.step(files(&[2_000_000]));
    assert_eq!(reaction, out("Found \"./two/.venv\" (2 MB)", Action::Advance));
    let reaction = scan.step(Event::WalkFinished);
    assert_eq!(reaction, err("Found 2.0015 MB of virtualenvs", Action::Finish));
    assert!(scan.is_over());
    assert_eq!(scan.total(), 2_001_500);
    assert_eq!(
        scan.ledger(),
        &vec![
            entry("./one/.venv", 1500, Fate::Reported),
            entry("./two/.venv", 2_000_000, Fate::Reported),
        ]
    );
}

#[test]
fn reporting_twice_gives_the_same_candidates_and_total() {
    let mut outcomes = vec![];
    for _ in 0..2 {
        let (mut scan, _) = Scan::start(config(false, false));
        let mut reactions = vec![];
        reactions.push(scan.step(walked(&[".", "one", "pyproject.toml"])));
        reactions.push(scan.step(Event::Answered(Answer::Exists(true))));
        reactions.push(scan.step(files(&[10, 20, 30])));
        reactions.push(scan.step(walked(&[".", "one", "sub", "pyproject.toml"])));
        reactions.push(scan.step(walked(&[".", "two", "pyproject.toml"])));
        reactions.push(scan.step(Event::Answered(Answer::Exists(true))));
        reactions.push(scan.step(files(&[4])));
        reactions.push(scan.step(Event::WalkFinished));
        outcomes.push((reactions, scan.ledger().clone(), scan.total()));
    }
    assert_eq!(outcomes[0], outcomes[1]);
    assert_eq!(outcomes[0].2, 64);
    assert_eq!(outcomes[0].1.len(), 2);
}

#[test]
fn nested_markers_give_no_second_candidate() {
    let (mut scan, _) = Scan::start(config(false, false));
    find_conventional(&mut scan, "one");
    scan.step(files(&[1]));
    let reaction = scan.step(walked(&[".", "one", "sub", "pyproject.toml"]));
    assert_eq!(reaction, quiet(Action::Advance));
    assert_eq!(scan.claimed().len(), 1);
    assert_eq!(scan.ledger().len(), 1);
}

#[test]
fn deep_scanning_evaluates_nested_markers() {
    let settings = ScanConfiguration::new(None, false, None, true, false, false);
    let (mut scan, _) = Scan::start(settings);
    find_conventional(&mut scan, "one");
    scan.step(files(&[1]));
    let reaction = scan.step(walked(&[".", "one", "sub", "pyproject.toml"]));
    assert_eq!(reaction, quiet(Action::Probe("./one/sub/.venv".to_string())));
    assert_eq!(scan.claimed().len(), 2);
}

#[test]
fn each_separate_marker_is_evaluated_once() {
    let (mut scan, _) = Scan::start(config(false, false));
    let projects = ["a", "b", "c", "d", "e"];
    for project in projects {
        find_conventional(&mut scan, project);
        scan.step(files(&[100]));
        assert_eq!(scan.step(walked(&[".", project, "main.py"])), quiet(Action::Advance));
    }
    scan.step(Event::WalkFinished);
    assert_eq!(scan.ledger().len(), 5);
    assert_eq!(scan.claimed().len(), 5);
    assert_eq!(scan.total(), 500);
}

#[test]
fn the_tool_is_not_asked_when_the_conventional_directory_exists() {
    let (mut scan, _) = Scan::start(config(false, false));
    scan.step(walked(&[".", "one", "pyproject.toml"]));
    let reaction = scan.step(Event::Answered(Answer::Exists(true)));
    assert_eq!(reaction.action, measure("./one/.venv"));
    let reaction = scan.step(Event::Answered(Answer::Available(true)));
    assert_eq!(reaction, quiet(measure("./one/.venv")));
}

#[test]
fn the_tool_resolves_a_project_without_a_conventional_directory() {
    let (mut scan, _) = Scan::start(config(false, false));
    scan.step(walked(&[".", "one", "pyproject.toml"]));
    let reaction = scan.step(Event::Answered(Answer::Exists(false)));
    assert_eq!(reaction, quiet(Action::Locate("poetry".to_string())));
    let reaction = scan.step(Event::Answered(Answer::Available(true)));
    assert_eq!(
        reaction,
        quiet(Action::Run {
            program: "poetry".to_string(),
            arguments: vec![
                "env".to_string(),
                "info".to_string(),
                "--path".to_string(),
                "--directory".to_string(),
                "./one".to_string(),
            ],
        })
    );
    let reaction = scan.step(Event::Answered(Answer::Output(ToolOutcome::Completed {
        success: true,
        stdout: "/envs/one-py3.12\n".to_string(),
        stderr: String::new(),
    })));
    assert_eq!(reaction, quiet(measure("/envs/one-py3.12")));
    let reaction = scan.step(files(&[42]));
    assert_eq!(reaction, out("Found \"/envs/one-py3.12\" (42 B)", Action::Advance));
}

#[test]
fn a_project_that_cannot_be_resolved_gets_a_warning_and_the_walk_goes_on() {
    let (mut scan, _) = Scan::start(config(false, false));
    scan.step(walked(&[".", "one", "pyproject.toml"]));
    scan.step(Event::Answered(Answer::Exists(false)));
    let reaction = scan.step(Event::Answered(Answer::Available(false)));
    assert_eq!(
        reaction,
        err(
            "Error: \"Don't have any other way to find the virtualenv of ./one\"",
            Action::Advance
        )
    );
    scan.step(walked(&[".", "two", "pyproject.toml"]));
    scan.step(Event::Answered(Answer::Exists(false)));
    scan.step(Event::Answered(Answer::Available(true)));
    let reaction = scan.step(Event::Answered(Answer::Output(ToolOutcome::Completed {
        success: false,
        stdout: String::new(),
        stderr: "no env".to_string(),
    })));
    assert_eq!(
        reaction,
        err("Error: \"Failed to get venv path from poetry: no env\"", Action::Advance)
    );
    assert_eq!(scan.step(Event::WalkFinished).action, Action::Finish);
    assert_eq!(scan.total(), 0);
    assert_eq!(scan.claimed().len(), 2);
}

#[test]
fn vanished_and_unreadable_nodes_are_passed_over() {
    let (mut scan, _) = Scan::start(config(true, true));
    let gone = Event::Walked(TraversalEntry {
        path: path(&[".", "one", "pyproject.toml"]),
        depth: 2,
        exists: false,
    });
    assert_eq!(scan.step(gone), quiet(Action::Advance));
    assert_eq!(scan.step(Event::WalkFailed("denied".to_string())), quiet(Action::Advance));
    assert_eq!(scan.claimed().len(), 0);
}

#[test]
fn debug_mode_explains_what_is_passed_over() {
    let (mut scan, _) = Scan::start(debugging(false, false));
    let gone = Event::Walked(TraversalEntry {
        path: path(&[".", "one", "pyproject.toml"]),
        depth: 2,
        exists: false,
    });
    assert_eq!(
        scan.step(gone),
        err("Path doesn't exist: \"./one/pyproject.toml\"", Action::Advance)
    );
    assert_eq!(
        scan.step(Event::WalkFailed("denied".to_string())),
        err("Error getting direntry, did you just delete the parent? denied", Action::Advance)
    );
    assert_eq!(scan.step(walked(&[".", "one"])), err("Not pyproject.toml", Action::Advance));
    assert_eq!(
        scan.step(walked(&[".", "one", "pyproject.toml"])),
        err("Project path: \"./one\"", Action::Probe("./one/.venv".to_string()))
    );
    assert_eq!(
        scan.step(Event::Answered(Answer::Exists(true))),
        err("venv path found: \"./one/.venv\"", measure("./one/.venv"))
    );
    scan.step(files(&[]));
    assert_eq!(
        scan.step(walked(&[".", "one", "x.py"])),
        err("Already checked parent of ./one/x.py", Action::Advance)
    );
}

#[test]
fn debug_mode_explains_the_use_of_the_tool() {
    let (mut scan, _) = Scan::start(debugging(true, true));
    scan.step(walked(&[".", "one", "pyproject.toml"]));
    assert_eq!(
        scan.step(Event::Answered(Answer::Exists(false))),
        quiet(Action::Locate("poetry".to_string()))
    );
    let reaction = scan.step(Event::Answered(Answer::Available(true)));
    assert_eq!(
        reaction.notices,
        vec![Notice {
            stream: Stream::Error,
            text: "venv path not found, trying to run poetry".to_string()
        }]
    );
    let reaction = scan.step(Event::Answered(Answer::Output(ToolOutcome::Completed {
        success: true,
        stdout: "/envs/one\n".to_string(),
        stderr: String::new(),
    })));
    assert_eq!(reaction, err("Virtualenv path from poetry: \"/envs/one\"", measure("/envs/one")));
    let reaction = scan.step(files(&[5]));
    assert_eq!(reaction, err("Deleting /envs/one", Action::Remove("/envs/one".to_string())));
}

#[test]
fn non_interactive_delete_mode_counts_what_was_removed() {
    let (mut scan, _) = Scan::start(config(true, true));
    find_conventional(&mut scan, "one");
    let reaction = scan.step(files(&[700, 300]));
    assert_eq!(reaction, quiet(Action::Remove("./one/.venv".to_string())));
    assert_eq!(scan.total(), 0);
    let reaction = scan.step(Event::Removed);
    assert_eq!(reaction, out("Deleted \"./one/.venv\" (1 KB)", Action::Advance));
    assert_eq!(scan.total(), 1000);
    find_conventional(&mut scan, "two");
    scan.step(files(&[234]));
    scan.step(Event::Removed);
    let reaction = scan.step(Event::WalkFinished);
    assert_eq!(reaction, err("Deleted 1.234 KB of virtualenvs", Action::Finish));
    assert_eq!(
        scan.ledger(),
        &vec![entry("./one/.venv", 1000, Fate::Removed), entry("./two/.venv", 234, Fate::Removed)]
    );
}

#[test]
fn a_declined_candidate_is_not_removed_and_not_counted() {
    let (mut scan, _) = Scan::start(config(true, false));
    find_conventional(&mut scan, "one");
    let reaction = scan.step(files(&[1500]));
    assert_eq!(
        reaction,
        quiet(Action::Confirm("Delete this? ./one/.venv (1.5 KB)".to_string()))
    );
    let reaction = scan.step(Event::Confirmed(false));
    assert_eq!(reaction, quiet(Action::Advance));
    find_conventional(&mut scan, "two");
    scan.step(files(&[300]));
    let reaction = scan.step(Event::Confirmed(true));
    assert_eq!(reaction, quiet(Action::Remove("./two/.venv".to_string())));
    scan.step(Event::Removed);
    let reaction = scan.step(Event::WalkFinished);
    assert_eq!(reaction, err("Deleted 300 B of virtualenvs", Action::Finish));
    assert_eq!(
        scan.ledger(),
        &vec![
            entry("./one/.venv", 1500, Fate::Declined),
            entry("./two/.venv", 300, Fate::Removed),
        ]
    );
}

#[test]
fn a_failed_confirmation_ends_the_run() {
    let (mut scan, _) = Scan::start(config(true, false));
    find_conventional(&mut scan, "one");
    scan.step(files(&[1500]));
    let reaction = scan.step(Event::ConfirmationFailed("not a terminal".to_string()));
    assert_eq!(reaction, err("Error getting response from user: not a terminal", Action::Abort));
    assert!(scan.is_over());
    assert_eq!(scan.step(walked(&[".", "two", "pyproject.toml"])), quiet(Action::Abort));
    assert_eq!(scan.total(), 0);
    assert!(scan.ledger().is_empty());
}

#[test]
fn a_failed_removal_ends_the_run() {
    let (mut scan, _) = Scan::start(config(true, true));
    find_conventional(&mut scan, "one");
    scan.step(files(&[1500]));
    let reaction = scan.step(Event::RemovalFailed("read-only file system".to_string()));
    assert_eq!(reaction, err("Failed to delete venv: read-only file system", Action::Abort));
    assert_eq!(scan.step(Event::Removed), quiet(Action::Abort));
    assert_eq!(scan.total(), 0);
}

#[test]
fn an_interrupt_in_delete_mode_shows_what_was_removed_and_ends_the_run() {
    let (mut scan, _) = Scan::start(config(true, true));
    find_conventional(&mut scan, "one");
    scan.step(files(&[2000]));
    scan.step(Event::Removed);
    find_conventional(&mut scan, "two");
    scan.step(files(&[5000]));
    let (notices, leave) = scan.interrupt();
    assert!(leave);
    assert_eq!(
        notices,
        vec![
            Notice { stream: Stream::Error, text: "Received Ctrl+C, exiting...".to_string() },
            Notice { stream: Stream::Error, text: "Deleted 2 KB of virtualenvs".to_string() },
        ]
    );
    assert!(scan.is_over());
    assert_eq!(scan.step(Event::Removed), quiet(Action::Abort));
    assert_eq!(scan.total(), 2000);
    assert_eq!(scan.ledger(), &vec![entry("./one/.venv", 2000, Fate::Removed)]);
}

#[test]
fn an_interrupt_in_report_mode_is_acknowledged_only() {
    let (mut scan, _) = Scan::start(config(false, false));
    find_conventional(&mut scan, "one");
    let (notices, leave) = scan.interrupt();
    assert!(!leave);
    assert_eq!(
        notices,
        vec![Notice { stream: Stream::Error, text: "Received Ctrl+C, exiting...".to_string() }]
    );
    assert!(!scan.is_over());
    assert_eq!(scan.pending(), measure("./one/.venv"));
}

#[test]
fn nodes_at_the_depth_limit_are_visited_and_deeper_ones_are_not() {
    let settings = ScanConfiguration::new(None, false, Some(2), false, true, false);
    assert!(settings.admits_depth(0));
    assert!(settings.admits_depth(2));
    assert!(!settings.admits_depth(3));
    let (mut scan, _) = Scan::start(settings);
    let reaction = scan.step(walked(&[".", "one", "two", "pyproject.toml"]));
    assert_eq!(
        reaction,
        err("Below the maximum depth: \"./one/two/pyproject.toml\"", Action::Advance)
    );
    assert_eq!(scan.claimed().len(), 0);
    let reaction = scan.step(walked(&[".", "one", "pyproject.toml"]));
    assert_eq!(reaction.action, Action::Probe("./one/.venv".to_string()));
}

#[test]
fn without_a_limit_every_depth_is_visited() {
    let settings = config(false, false);
    assert!(settings.admits_depth(0));
    assert!(settings.admits_depth(usize::MAX));
    let limited = ScanConfiguration::new(None, false, Some(0), false, false, false);
    assert!(limited.admits_depth(0));
    assert!(!limited.admits_depth(1));
}

#[test]
fn an_event_out_of_turn_changes_nothing() {
    let (mut scan, _) = Scan::start(config(true, true));
    assert_eq!(scan.step(Event::Removed), quiet(Action::Advance));
    assert_eq!(scan.step(files(&[9])), quiet(Action::Advance));
    assert_eq!(scan.step(Event::Confirmed(true)), quiet(Action::Advance));
    scan.step(walked(&[".", "one", "pyproject.toml"]));
    let reaction = scan.step(walked(&[".", "two", "pyproject.toml"]));
    assert_eq!(reaction, quiet(Action::Probe("./one/.venv".to_string())));
    assert_eq!(scan.step(Event::WalkFinished).action, Action::Probe("./one/.venv".to_string()));
    assert_eq!(scan.claimed().len(), 1);
    assert_eq!(scan.total(), 0);
}

#[test]
fn a_finished_run_stays_finished() {
    let (mut scan, _) = Scan::start(config(false, false));
    scan.step(Event::WalkFinished);
    assert_eq!(scan.step(walked(&[".", "one", "pyproject.toml"])), quiet(Action::Finish));
    assert_eq!(scan.step(Event::WalkFinished), quiet(Action::Finish));
    assert_eq!(scan.claimed().len(), 0);
}

#[test]
fn settings_keep_what_they_were_given() {
    let settings =
        ScanConfiguration::new(Some(path(&["/", "srv"])), true, Some(4), true, true, true);
    assert_eq!(settings.root, path(&["/", "srv"]));
    assert!(settings.delete && settings.deep && settings.debug && settings.non_interactive);
    assert_eq!(settings.max_depth, Some(4));
    assert_eq!(settings.clone(), settings);
}

#[test]
fn a_ledger_entry_can_be_copied() {
    let declined = entry("./one/.venv", 7, Fate::Declined);
    assert_eq!(declined.clone(), declined);
}
