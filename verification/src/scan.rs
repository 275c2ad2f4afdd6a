//! One run, as a machine that a front end drives.
//!
//! The front end starts a [`Scan`], carries out the action it is given, and
//! reports what it observed with [`Scan::step`]; the answer holds the lines
//! to write and the next action. The machine keeps the claimed roots, the
//! running total and a ledger of the candidates it has dealt with.

use vstd::prelude::*;
use crate::accounting::RunningTotal;
use crate::bridge::{arguments, program, tool_arguments, tool_name};
use crate::config::{within_depth, ConfigurationView, EntryView, ScanConfiguration, TraversalEntry};
use crate::paths::rendered;
use crate::protocol::{
    ledger_view,
    notices_view,
    Action,
    ActionView,
    Event,
    EventView,
    Fate,
    LedgerEntry,
    LedgerEntryView,
    Notice,
    NoticeView,
    Reaction,
    ReactionView,
    Stream,
};
use crate::report::{
    confirm_prompt,
    deleted_line,
    deleted_text,
    found_line,
    found_text,
    human_size,
    human_size_text,
    labelled,
    labelled_text,
    prompt_text,
    quoted,
    quoted_text,
    summary_of,
    summary_text,
};
use crate::resolver::{
    first_look,
    next_look,
    resolve,
    resume,
    Answer,
    AnswerView,
    ClaimedRoots,
    Progress,
    ProgressView,
    Question,
    QuestionView,
    Resolution,
    ResolutionView,
    SkipReason,
    VirtualenvCandidate,
};
use crate::sizing::{capped, exact_size, size_of, MeasuredEntry};

verus! {

/// What a run is waiting for.
#[derive(Debug, PartialEq, Eq)]
pub enum Phase {
    /// The next node of the walk.
    Walking,
    /// The answer to a question of the resolver.
    Resolving(Question),
    /// The nodes below a candidate.
    Measuring(VirtualenvCandidate),
    /// The operator's word on a removal.
    Confirming { candidate: VirtualenvCandidate, size: u64 },
    /// The end of a removal.
    Removing { candidate: VirtualenvCandidate, size: u64 },
    /// Nothing: the walk is over and the summary is written.
    Finished,
    /// Nothing: the run was given up.
    Halted,
}

/// A phase as plain values.
pub ghost enum PhaseView {
    Walking,
    Resolving(QuestionView),
    Measuring(Seq<char>),
    Confirming { candidate: Seq<char>, size: u64 },
    Removing { candidate: Seq<char>, size: u64 },
    Finished,
    Halted,
}

impl View for Phase {
    type V = PhaseView;

    open spec fn view(&self) -> PhaseView {
        match self {
            Phase::Walking => PhaseView::Walking,
            Phase::Resolving(question) => PhaseView::Resolving(question@),
            Phase::Measuring(candidate) => PhaseView::Measuring(candidate@),
            Phase::Confirming { candidate, size } => PhaseView::Confirming {
                candidate: candidate@,
                size: *size,
            },
            Phase::Removing { candidate, size } => PhaseView::Removing {
                candidate: candidate@,
                size: *size,
            },
            Phase::Finished => PhaseView::Finished,
            Phase::Halted => PhaseView::Halted,
        }
    }
}

/// A run as plain values.
pub ghost struct ScanView {
    pub config: ConfigurationView,
    pub claimed: Seq<Seq<Seq<char>>>,
    pub total: u64,
    pub ledger: Seq<LedgerEntryView>,
    pub phase: PhaseView,
}

/// A run that has not seen anything yet.
pub open spec fn initial(config: ConfigurationView) -> ScanView {
    ScanView {
        config,
        claimed: Seq::empty(),
        total: 0,
        ledger: Seq::empty(),
        phase: PhaseView::Walking,
    }
}

/// The action that a run in `phase` waits to see carried out.
pub open spec fn awaited(phase: PhaseView) -> ActionView {
    match phase {
        PhaseView::Walking => ActionView::Advance,
        PhaseView::Resolving(QuestionView::ConventionalExists { root, venv }) => ActionView::Probe(
            venv,
        ),
        PhaseView::Resolving(QuestionView::ToolAvailable { root }) => ActionView::Locate(
            tool_name(),
        ),
        PhaseView::Resolving(QuestionView::ToolOutput { root }) => ActionView::Run {
            program: tool_name(),
            arguments: tool_arguments(root),
        },
        PhaseView::Measuring(candidate) => ActionView::Measure(candidate),
        PhaseView::Confirming { candidate, size } => ActionView::Confirm(
            prompt_text(candidate, human_size_text(size)),
        ),
        PhaseView::Removing { candidate, size } => ActionView::Remove(candidate),
        PhaseView::Finished => ActionView::Finish,
        PhaseView::Halted => ActionView::Abort,
    }
}

/// No line.
pub open spec fn silence() -> Seq<NoticeView> {
    Seq::empty()
}

/// One line on the standard output.
pub open spec fn told(text: Seq<char>) -> Seq<NoticeView> {
    seq![NoticeView { stream: Stream::Output, text }]
}

/// One line on the error stream.
pub open spec fn warned(text: Seq<char>) -> Seq<NoticeView> {
    seq![NoticeView { stream: Stream::Error, text }]
}

/// One line on the error stream in debug mode, none otherwise.
pub open spec fn explained(debug: bool, text: Seq<char>) -> Seq<NoticeView> {
    if debug {
        warned(text)
    } else {
        silence()
    }
}

/// The ledger with one more candidate.
pub open spec fn recorded(
    ledger: Seq<LedgerEntryView>,
    candidate: Seq<char>,
    size: u64,
    fate: Fate,
) -> Seq<LedgerEntryView> {
    ledger.push(LedgerEntryView { candidate, size, fate })
}

/// The run after the walk yielded `entry`, and the lines to write.
///
/// A node that is gone, or that lies below the depth limit, is passed over.
/// Any other node gets a first look by the resolver.
pub open spec fn on_entry(s: ScanView, entry: EntryView) -> (ScanView, Seq<NoticeView>) {
    let shown = rendered(entry.path);
    if !entry.exists {
        (
            ScanView { phase: PhaseView::Walking, ..s },
            explained(s.config.debug, labelled_text("Path doesn't exist: "@, quoted_text(shown))),
        )
    } else if !within_depth(s.config.max_depth, entry.depth) {
        (
            ScanView { phase: PhaseView::Walking, ..s },
            explained(
                s.config.debug,
                labelled_text("Below the maximum depth: "@, quoted_text(shown)),
            ),
        )
    } else {
        let (claimed, progress) = first_look(s.claimed, s.config.deep, entry.path);
        match progress {
            ProgressView::Ask(question) => (
                ScanView { claimed, phase: PhaseView::Resolving(question), ..s },
                explained(
                    s.config.debug,
                    labelled_text("Project path: "@, quoted_text(rendered(entry.path.drop_last()))),
                ),
            ),
            ProgressView::Resolved(ResolutionView::Skip(SkipReason::AlreadyClaimed)) => (
                ScanView { claimed, phase: PhaseView::Walking, ..s },
                explained(s.config.debug, labelled_text("Already checked parent of "@, shown)),
            ),
            ProgressView::Resolved(_) => (
                ScanView { claimed, phase: PhaseView::Walking, ..s },
                explained(s.config.debug, "Not pyproject.toml"@),
            ),
        }
    }
}

/// The run after `answer` came in for `question`, and the lines to write.
///
/// A candidate is measured next. A project whose environment cannot be
/// found gets a warning, in every mode, and the walk goes on.
pub open spec fn on_answer(s: ScanView, question: QuestionView, answer: AnswerView) -> (
    ScanView,
    Seq<NoticeView>,
) {
    match next_look(question, answer) {
        ProgressView::Ask(asked) => (
            ScanView { phase: PhaseView::Resolving(asked), ..s },
            if question is ToolAvailable && asked is ToolOutput {
                explained(s.config.debug, "venv path not found, trying to run poetry"@)
            } else {
                silence()
            },
        ),
        ProgressView::Resolved(ResolutionView::Candidate(candidate)) => (
            ScanView { phase: PhaseView::Measuring(candidate), ..s },
            explained(
                s.config.debug,
                if question is ConventionalExists {
                    labelled_text("venv path found: "@, quoted_text(candidate))
                } else {
                    labelled_text("Virtualenv path from poetry: "@, quoted_text(candidate))
                },
            ),
        ),
        ProgressView::Resolved(ResolutionView::Error(detail)) => (
            ScanView { phase: PhaseView::Walking, ..s },
            warned(labelled_text("Error: "@, quoted_text(detail))),
        ),
        ProgressView::Resolved(ResolutionView::Skip(_)) => (
            ScanView { phase: PhaseView::Walking, ..s },
            silence(),
        ),
    }
}

/// The run after the walk below `candidate` met `entries`, and the lines to
/// write.
///
/// In report mode the candidate is reported and its size counted. In delete
/// mode it is removed next, after the operator's consent unless the run is
/// non-interactive.
pub open spec fn on_measured(s: ScanView, candidate: Seq<char>, entries: Seq<MeasuredEntry>) -> (
    ScanView,
    Seq<NoticeView>,
) {
    let size = capped(exact_size(entries));
    if !s.config.delete {
        (
            ScanView {
                total: capped((s.total + size) as nat),
                ledger: recorded(s.ledger, candidate, size, Fate::Reported),
                phase: PhaseView::Walking,
                ..s
            },
            told(found_text(quoted_text(candidate), human_size_text(size))),
        )
    } else if s.config.non_interactive {
        (
            ScanView { phase: PhaseView::Removing { candidate, size }, ..s },
            explained(s.config.debug, labelled_text("Deleting "@, candidate)),
        )
    } else {
        (ScanView { phase: PhaseView::Confirming { candidate, size }, ..s }, silence())
    }
}

/// The run after the operator answered, and the lines to write.
pub open spec fn on_confirmed(s: ScanView, candidate: Seq<char>, size: u64, yes: bool) -> (
    ScanView,
    Seq<NoticeView>,
) {
    if yes {
        (
            ScanView { phase: PhaseView::Removing { candidate, size }, ..s },
            explained(s.config.debug, labelled_text("Deleting "@, candidate)),
        )
    } else {
        (
            ScanView {
                ledger: recorded(s.ledger, candidate, size, Fate::Declined),
                phase: PhaseView::Walking,
                ..s
            },
            silence(),
        )
    }
}

/// The run after `candidate` was removed, and the lines to write.
pub open spec fn on_removed(s: ScanView, candidate: Seq<char>, size: u64) -> (
    ScanView,
    Seq<NoticeView>,
) {
    (
        ScanView {
            total: capped((s.total + size) as nat),
            ledger: recorded(s.ledger, candidate, size, Fate::Removed),
            phase: PhaseView::Walking,
            ..s
        },
        told(deleted_text(quoted_text(candidate), human_size_text(size))),
    )
}

/// The run that is given up, with the line that says why.
pub open spec fn given_up(s: ScanView, label: Seq<char>, detail: Seq<char>) -> (
    ScanView,
    Seq<NoticeView>,
) {
    (ScanView { phase: PhaseView::Halted, ..s }, warned(labelled_text(label, detail)))
}

/// The run after `event`, and the lines to write.
///
/// An event that does not answer what the run is waiting for changes
/// nothing and writes nothing.
pub open spec fn next(s: ScanView, event: EventView) -> (ScanView, Seq<NoticeView>) {
    match (s.phase, event) {
        (PhaseView::Walking, EventView::Walked(entry)) => on_entry(s, entry),
        (PhaseView::Walking, EventView::WalkFailed(detail)) => (
            s,
            explained(
                s.config.debug,
                labelled_text("Error getting direntry, did you just delete the parent? "@, detail),
            ),
        ),
        (PhaseView::Walking, EventView::WalkFinished) => (
            ScanView { phase: PhaseView::Finished, ..s },
            warned(summary_text(s.config.delete, human_size_text(s.total))),
        ),
        (PhaseView::Resolving(question), EventView::Answered(answer)) => on_answer(
            s,
            question,
            answer,
        ),
        (PhaseView::Measuring(candidate), EventView::Measured(entries)) => on_measured(
            s,
            candidate,
            entries,
        ),
        (PhaseView::Confirming { candidate, size }, EventView::Confirmed(yes)) => on_confirmed(
            s,
            candidate,
            size,
            yes,
        ),
        (PhaseView::Confirming { candidate, size }, EventView::ConfirmationFailed(detail)) => {
            given_up(s, "Error getting response from user: "@, detail)
        },
        (PhaseView::Removing { candidate, size }, EventView::Removed) => on_removed(
            s,
            candidate,
            size,
        ),
        (PhaseView::Removing { candidate, size }, EventView::RemovalFailed(detail)) => given_up(
            s,
            "Failed to delete venv: "@,
            detail,
        ),
        _ => (s, silence()),
    }
}

/// What a run in state `s` answers to `event`: the lines, and the action
/// that the state after the event waits for.
pub open spec fn reaction_to(s: ScanView, event: EventView) -> ReactionView {
    ReactionView { notices: next(s, event).1, action: awaited(next(s, event).0.phase) }
}

/// What a run in state `s` does when the operator interrupts it: the run
/// afterwards, the lines to write, and whether to leave at once.
///
/// In delete mode the total so far is written and the run is given up. In
/// report mode the interrupt is acknowledged and the run goes on.
pub open spec fn interrupted(s: ScanView) -> (ScanView, Seq<NoticeView>, bool) {
    if s.config.delete {
        (
            ScanView { phase: PhaseView::Halted, ..s },
            warned("Received Ctrl+C, exiting..."@) + warned(
                summary_text(true, human_size_text(s.total)),
            ),
            true,
        )
    } else {
        (s, warned("Received Ctrl+C, exiting..."@), false)
    }
}

/// What a run says when it starts: in debug mode where it walks, and then
/// that the walk may begin.
pub open spec fn opening(config: ConfigurationView) -> ReactionView {
    ReactionView {
        notices: explained(
            config.debug,
            labelled_text("Walking path: "@, quoted_text(rendered(config.root))),
        ),
        action: ActionView::Advance,
    }
}

/// One run.
#[derive(Debug, PartialEq, Eq)]
pub struct Scan {
    config: ScanConfiguration,
    claimed: ClaimedRoots,
    total: RunningTotal,
    ledger: Vec<LedgerEntry>,
    phase: Phase,
}

impl View for Scan {
    type V = ScanView;

    closed spec fn view(&self) -> ScanView {
        ScanView {
            config: self.config@,
            claimed: self.claimed@,
            total: self.total@,
            ledger: ledger_view(self.ledger@),
            phase: self.phase@,
        }
    }
}

/// No line.
fn quiet() -> (notices: Vec<Notice>)
    ensures
        notices_view(notices@) == silence(),
{
    let notices: Vec<Notice> = Vec::new();
    notices
}

/// One line on the standard output.
fn tell(text: String) -> (notices: Vec<Notice>)
    ensures
        notices_view(notices@) == told(text@),
{
    let mut notices: Vec<Notice> = Vec::new();
    notices.push(Notice { stream: Stream::Output, text });
    notices
}

/// One line on the error stream.
fn warn(text: String) -> (notices: Vec<Notice>)
    ensures
        notices_view(notices@) == warned(text@),
{
    let mut notices: Vec<Notice> = Vec::new();
    notices.push(Notice { stream: Stream::Error, text });
    notices
}

/// A label and a text between quotes.
fn labelled_quoted(label: &str, text: &str) -> (line: String)
    ensures
        line@ == labelled_text(label@, quoted_text(text@)),
{
    let shown = quoted(text);
    labelled(label, shown.as_str())
}

impl Scan {
    /// Starts a run with the given settings.
    pub fn start(config: ScanConfiguration) -> (started: (Scan, Reaction))
        ensures
            started.0@ == initial(config@),
            started.1@ == opening(config@),
    {
        let notices = if config.debug {
            let root = config.root.render();
            warn(labelled_quoted("Walking path: ", root.as_str()))
        } else {
            quiet()
        };
        let scan = Scan {
            config,
            claimed: ClaimedRoots::new(),
            total: RunningTotal::new(),
            ledger: Vec::new(),
            phase: Phase::Walking,
        };
        assert(scan@.ledger =~= Seq::<LedgerEntryView>::empty());
        (scan, Reaction { notices, action: Action::Advance })
    }

    /// The settings of the run.
    pub fn config(&self) -> (config: &ScanConfiguration)
        ensures
            config@ == self@.config,
    {
        &self.config
    }

    /// The bytes found so far in report mode, removed so far in delete mode.
    pub fn total(&self) -> (bytes: u64)
        ensures
            bytes == self@.total,
    {
        self.total.bytes()
    }

    /// The project roots claimed so far.
    pub fn claimed(&self) -> (claimed: &ClaimedRoots)
        ensures
            claimed@ == self@.claimed,
    {
        &self.claimed
    }

    /// The candidates dealt with so far, in order.
    pub fn ledger(&self) -> (ledger: &Vec<LedgerEntry>)
        ensures
            ledger_view(ledger@) == self@.ledger,
    {
        &self.ledger
    }

    /// Whether the run has come to its end, in one way or the other.
    pub fn is_over(&self) -> (over: bool)
        ensures
            over == (self@.phase is Finished || self@.phase is Halted),
    {
        match self.phase {
            Phase::Finished => true,
            Phase::Halted => true,
            _ => false,
        }
    }

    /// The action that the run waits to see carried out.
    pub fn pending(&self) -> (action: Action)
        ensures
            action@ == awaited(self@.phase),
    {
        match &self.phase {
            Phase::Walking => Action::Advance,
            Phase::Resolving(Question::ConventionalExists { root, venv }) => Action::Probe(
                venv.clone(),
            ),
            Phase::Resolving(Question::ToolAvailable { root }) => Action::Locate(program()),
            Phase::Resolving(Question::ToolOutput { root }) => {
                let list = arguments(root.as_str());
                let action = Action::Run { program: program(), arguments: list };
                assert(action@->arguments =~= tool_arguments(root@));
                action
            },
            Phase::Measuring(candidate) => Action::Measure(candidate.location.clone()),
            Phase::Confirming { candidate, size } => {
                let shown = human_size(*size);
                Action::Confirm(confirm_prompt(candidate.location.as_str(), shown.as_str()))
            },
            Phase::Removing { candidate, size } => Action::Remove(candidate.location.clone()),
            Phase::Finished => Action::Finish,
            Phase::Halted => Action::Abort,
        }
    }

    /// Writes a candidate into the ledger.
    fn record(&mut self, candidate: VirtualenvCandidate, size: u64, fate: Fate)
        ensures
            final(self)@ == (ScanView {
                ledger: recorded(old(self)@.ledger, candidate@, size, fate),
                ..old(self)@
            }),
    {
        self.ledger.push(LedgerEntry { candidate, size, fate });
        assert(self@.ledger =~= recorded(old(self)@.ledger, candidate@, size, fate));
    }

    /// One line on the error stream in debug mode.
    fn explain(&self, label: &str, shown: &str) -> (notices: Vec<Notice>)
        ensures
            notices_view(notices@) == explained(self@.config.debug, labelled_text(label@, shown@)),
    {
        if self.config.debug {
            warn(labelled(label, shown))
        } else {
            quiet()
        }
    }

    /// One line on the error stream in debug mode, its subject between
    /// quotes.
    fn explain_quoted(&self, label: &str, text: &str) -> (notices: Vec<Notice>)
        ensures
            notices_view(notices@) == explained(
                self@.config.debug,
                labelled_text(label@, quoted_text(text@)),
            ),
    {
        if self.config.debug {
            warn(labelled_quoted(label, text))
        } else {
            quiet()
        }
    }

    /// Deals with a node of the walk.
    fn handle_entry(&mut self, entry: TraversalEntry) -> (notices: Vec<Notice>)
        ensures
            (final(self)@, notices_view(notices@)) == on_entry(old(self)@, entry@),
    {
        if !entry.exists {
            self.phase = Phase::Walking;
            let shown = entry.path.render();
            return self.explain_quoted("Path doesn't exist: ", shown.as_str());
        }
        if !self.config.admits_depth(entry.depth) {
            self.phase = Phase::Walking;
            let shown = entry.path.render();
            return self.explain_quoted("Below the maximum depth: ", shown.as_str());
        }
        let progress = resolve(&mut self.claimed, &self.config, &entry);
        match progress {
            Progress::Ask(question) => {
                let notices = match &question {
                    Question::ConventionalExists { root, venv } => self.explain_quoted(
                        "Project path: ",
                        root.as_str(),
                    ),
                    _ => quiet(),
                };
                self.phase = Phase::Resolving(question);
                notices
            },
            Progress::Resolved(Resolution::Skip(SkipReason::AlreadyClaimed)) => {
                self.phase = Phase::Walking;
                let shown = entry.path.render();
                self.explain("Already checked parent of ", shown.as_str())
            },
            Progress::Resolved(_) => {
                self.phase = Phase::Walking;
                if self.config.debug {
                    warn(String::from_str("Not pyproject.toml"))
                } else {
                    quiet()
                }
            },
        }
    }

    /// Deals with the answer to a question of the resolver.
    fn handle_answer(&mut self, question: Question, answer: Answer) -> (notices: Vec<Notice>)
        ensures
            (final(self)@, notices_view(notices@)) == on_answer(old(self)@, question@, answer@),
    {
        let from_convention = match &question {
            Question::ConventionalExists { root, venv } => true,
            _ => false,
        };
        let from_lookup = match &question {
            Question::ToolAvailable { root } => true,
            _ => false,
        };
        match resume(question, answer) {
            Progress::Ask(asked) => {
                let calls = match &asked {
                    Question::ToolOutput { root } => true,
                    _ => false,
                };
                self.phase = Phase::Resolving(asked);
                if from_lookup && calls && self.config.debug {
                    warn(String::from_str("venv path not found, trying to run poetry"))
                } else {
                    quiet()
                }
            },
            Progress::Resolved(Resolution::Candidate(candidate)) => {
                let notices = if from_convention {
                    self.explain_quoted("venv path found: ", candidate.location.as_str())
                } else {
                    self.explain_quoted(
                        "Virtualenv path from poetry: ",
                        candidate.location.as_str(),
                    )
                };
                self.phase = Phase::Measuring(candidate);
                notices
            },
            Progress::Resolved(Resolution::Error(detail)) => {
                self.phase = Phase::Walking;
                warn(labelled_quoted("Error: ", detail.as_str()))
            },
            Progress::Resolved(Resolution::Skip(_)) => {
                self.phase = Phase::Walking;
                quiet()
            },
        }
    }

    /// Deals with the size of a candidate.
    fn handle_measured(
        &mut self,
        candidate: VirtualenvCandidate,
        entries: Vec<MeasuredEntry>,
    ) -> (notices: Vec<Notice>)
        ensures
            (final(self)@, notices_view(notices@)) == on_measured(
                old(self)@,
                candidate@,
                entries@,
            ),
    {
        let size = size_of(&entries);
        if !self.config.delete {
            let shown_path = quoted(candidate.location.as_str());
            let shown_size = human_size(size);
            let line = found_line(shown_path.as_str(), shown_size.as_str());
            self.total.add(size);
            self.phase = Phase::Walking;
            self.record(candidate, size, Fate::Reported);
            tell(line)
        } else if self.config.non_interactive {
            let notices = self.explain("Deleting ", candidate.location.as_str());
            self.phase = Phase::Removing { candidate, size };
            notices
        } else {
            self.phase = Phase::Confirming { candidate, size };
            quiet()
        }
    }

    /// Deals with the operator's word on a removal.
    fn handle_confirmed(
        &mut self,
        candidate: VirtualenvCandidate,
        size: u64,
        yes: bool,
    ) -> (notices: Vec<Notice>)
        ensures
            (final(self)@, notices_view(notices@)) == on_confirmed(
                old(self)@,
                candidate@,
                size,
                yes,
            ),
    {
        if yes {
            let notices = self.explain("Deleting ", candidate.location.as_str());
            self.phase = Phase::Removing { candidate, size };
            notices
        } else {
            self.phase = Phase::Walking;
            self.record(candidate, size, Fate::Declined);
            quiet()
        }
    }

    /// Deals with a removal that was carried out.
    fn handle_removed(&mut self, candidate: VirtualenvCandidate, size: u64) -> (notices: Vec<Notice>)
        ensures
            (final(self)@, notices_view(notices@)) == on_removed(old(self)@, candidate@, size),
    {
        let shown_path = quoted(candidate.location.as_str());
        let shown_size = human_size(size);
        let line = deleted_line(shown_path.as_str(), shown_size.as_str());
        self.total.add(size);
        self.phase = Phase::Walking;
        self.record(candidate, size, Fate::Removed);
        tell(line)
    }

    /// Ends the run with the line that says why.
    fn give_up(&mut self, label: &str, detail: &str) -> (notices: Vec<Notice>)
        ensures
            (final(self)@, notices_view(notices@)) == given_up(old(self)@, label@, detail@),
    {
        self.phase = Phase::Halted;
        warn(labelled(label, detail))
    }

    /// Takes in what the front end observed, and says what to write and
    /// what to do next.
    pub fn step(&mut self, event: Event) -> (reaction: Reaction)
        ensures
            final(self)@ == next(old(self)@, event@).0,
            reaction@ == reaction_to(old(self)@, event@),
    {
        let mut phase = Phase::Walking;
        core::mem::swap(&mut self.phase, &mut phase);
        let notices = match (phase, event) {
            (Phase::Walking, Event::Walked(entry)) => self.handle_entry(entry),
            (Phase::Walking, Event::WalkFailed(detail)) => self.explain(
                "Error getting direntry, did you just delete the parent? ",
                detail.as_str(),
            ),
            (Phase::Walking, Event::WalkFinished) => {
                self.phase = Phase::Finished;
                warn(summary_of(self.config.delete, self.total.bytes()))
            },
            (Phase::Resolving(question), Event::Answered(answer)) => self.handle_answer(
                question,
                answer,
            ),
            (Phase::Measuring(candidate), Event::Measured(entries)) => self.handle_measured(
                candidate,
                entries,
            ),
            (Phase::Confirming { candidate, size }, Event::Confirmed(yes)) => self.handle_confirmed(
                candidate,
                size,
                yes,
            ),
            (Phase::Confirming { candidate, size }, Event::ConfirmationFailed(detail)) => {
                self.give_up("Error getting response from user: ", detail.as_str())
            },
            (Phase::Removing { candidate, size }, Event::Removed) => self.handle_removed(
                candidate,
                size,
            ),
            (Phase::Removing { candidate, size }, Event::RemovalFailed(detail)) => self.give_up(
                "Failed to delete venv: ",
                detail.as_str(),
            ),
            (phase, _) => {
                self.phase = phase;
                quiet()
            },
        };
        let action = self.pending();
        Reaction { notices, action }
    }

    /// Takes in that the operator interrupted the run: says what to write,
    /// and whether to leave at once. In delete mode the run is given up.
    pub fn interrupt(&mut self) -> (response: (Vec<Notice>, bool))
        ensures
            (final(self)@, notices_view(response.0@), response.1) == interrupted(old(self)@),
    {
        let mut notices = warn(String::from_str("Received Ctrl+C, exiting..."));
        if self.config.delete {
            let summary = summary_of(true, self.total.bytes());
            notices.push(Notice { stream: Stream::Error, text: summary });
            self.phase = Phase::Halted;
            assert(notices_view(notices@) =~= warned("Received Ctrl+C, exiting..."@) + warned(
                summary@,
            ));
            (notices, true)
        } else {
            (notices, false)
        }
    }
}

} // verus!
