//! From a node of the walk to the virtual environment of its project.
//!
//! A marker file names a project. Its environment is the conventional
//! directory beside the marker when there is one; otherwise the dependency
//! manager is asked, when it is installed. Whether a directory exists,
//! whether the tool is installed and what it replies are facts from outside:
//! the resolver asks for them one at a time, and only when it needs them.

use vstd::prelude::*;
use crate::bridge::{interpret, interpreted, ToolOutcome, ToolOutcomeView};
use crate::config::{ScanConfiguration, TraversalEntry};
use crate::paths::{conventional_name, is_marker, is_nested, rendered, ScanPath};

verus! {

/// The project roots found so far in one run, in the order they were found.
#[derive(Debug, PartialEq, Eq)]
pub struct ClaimedRoots {
    roots: Vec<ScanPath>,
}

impl View for ClaimedRoots {
    type V = Seq<Seq<Seq<char>>>;

    closed spec fn view(&self) -> Seq<Seq<Seq<char>>> {
        Seq::new(self.roots@.len(), |i: int| self.roots@[i]@)
    }
}

/// Whether `path` lies at or below one of the roots in `claimed`.
pub open spec fn covers(claimed: Seq<Seq<Seq<char>>>, path: Seq<Seq<char>>) -> bool {
    exists|i: int| 0 <= i < claimed.len() && is_nested(path, #[trigger] claimed[i])
}

impl ClaimedRoots {
    /// No roots yet.
    pub fn new() -> (claimed: ClaimedRoots)
        ensures
            claimed@ == Seq::<Seq<Seq<char>>>::empty(),
    {
        let claimed = ClaimedRoots { roots: Vec::new() };
        claimed
    }

    /// The number of roots.
    pub fn len(&self) -> (n: usize)
        ensures
            n == self@.len(),
    {
        self.roots.len()
    }

    /// Adds a root behind those that are there.
    pub fn claim(&mut self, root: ScanPath)
        ensures
            final(self)@ == old(self)@.push(root@),
    {
        self.roots.push(root);
    }

    /// Whether `path` lies at or below a root that was claimed.
    pub fn covers(&self, path: &ScanPath) -> (covered: bool)
        ensures
            covered == covers(self@, path@),
    {
        let mut i: usize = 0;
        while i < self.roots.len()
            invariant
                i <= self.roots.len(),
                forall|k: int| 0 <= k < i ==> !is_nested(path@, #[trigger] self@[k]),
            decreases self.roots.len() - i,
        {
            if path.starts_with(&self.roots[i]) {
                assert(is_nested(path@, self@[i as int]));
                return true;
            }
            i += 1;
        }
        false
    }
}

/// A path that is believed to hold the virtual environment of a project.
#[derive(Debug, PartialEq, Eq)]
pub struct VirtualenvCandidate {
    pub location: String,
}

impl View for VirtualenvCandidate {
    type V = Seq<char>;

    open spec fn view(&self) -> Seq<char> {
        self.location@
    }
}

impl Clone for VirtualenvCandidate {
    fn clone(&self) -> (copy: Self)
        ensures
            copy@ == self@,
    {
        VirtualenvCandidate { location: self.location.clone() }
    }
}

/// Why a node yields no virtual environment and no complaint.
#[derive(Clone, Copy, Debug, PartialEq, Eq, Structural)]
pub enum SkipReason {
    /// It lies in a project that was found before.
    AlreadyClaimed,
    /// It is not a marker file.
    NotMarker,
}

/// What the resolver concluded about a node.
#[derive(Debug, PartialEq, Eq)]
pub enum Resolution {
    /// The project's virtual environment is believed to be here.
    Candidate(VirtualenvCandidate),
    /// The node is passed over.
    Skip(SkipReason),
    /// The node marks a project, but its environment could not be found.
    Error(String),
}

/// A fact from outside that the resolver needs before it can go on.
#[derive(Debug, PartialEq, Eq)]
pub enum Question {
    /// Is there a directory at `venv`, the conventional place in the project
    /// at `root`?
    ConventionalExists { root: String, venv: String },
    /// Is the dependency manager installed?
    ToolAvailable { root: String },
    /// What does the dependency manager say of the project at `root`?
    ToolOutput { root: String },
}

/// The reply to a question.
#[derive(Debug, PartialEq, Eq)]
pub enum Answer {
    /// Whether the directory exists.
    Exists(bool),
    /// Whether the dependency manager is installed.
    Available(bool),
    /// What became of the call of the dependency manager.
    Output(ToolOutcome),
}

/// Where a resolution stands: at its end, or waiting for a fact.
#[derive(Debug, PartialEq, Eq)]
pub enum Progress {
    /// The resolution is over.
    Resolved(Resolution),
    /// The resolution goes on when this question is answered.
    Ask(Question),
}

/// A conclusion as plain values.
pub ghost enum ResolutionView {
    Candidate(Seq<char>),
    Skip(SkipReason),
    Error(Seq<char>),
}

/// A question as plain values.
pub ghost enum QuestionView {
    ConventionalExists { root: Seq<char>, venv: Seq<char> },
    ToolAvailable { root: Seq<char> },
    ToolOutput { root: Seq<char> },
}

/// An answer as plain values.
pub ghost enum AnswerView {
    Exists(bool),
    Available(bool),
    Output(ToolOutcomeView),
}

/// The state of a resolution as plain values.
pub ghost enum ProgressView {
    Resolved(ResolutionView),
    Ask(QuestionView),
}

impl View for Resolution {
    type V = ResolutionView;

    open spec fn view(&self) -> ResolutionView {
        match self {
            Resolution::Candidate(candidate) => ResolutionView::Candidate(candidate@),
            Resolution::Skip(reason) => ResolutionView::Skip(*reason),
            Resolution::Error(detail) => ResolutionView::Error(detail@),
        }
    }
}

impl View for Question {
    type V = QuestionView;

    open spec fn view(&self) -> QuestionView {
        match self {
            Question::ConventionalExists { root, venv } => QuestionView::ConventionalExists {
                root: root@,
                venv: venv@,
            },
            Question::ToolAvailable { root } => QuestionView::ToolAvailable { root: root@ },
            Question::ToolOutput { root } => QuestionView::ToolOutput { root: root@ },
        }
    }
}

impl View for Answer {
    type V = AnswerView;

    open spec fn view(&self) -> AnswerView {
        match self {
            Answer::Exists(found) => AnswerView::Exists(*found),
            Answer::Available(installed) => AnswerView::Available(*installed),
            Answer::Output(outcome) => AnswerView::Output(outcome@),
        }
    }
}

impl View for Progress {
    type V = ProgressView;

    open spec fn view(&self) -> ProgressView {
        match self {
            Progress::Resolved(resolution) => ProgressView::Resolved(resolution@),
            Progress::Ask(question) => ProgressView::Ask(question@),
        }
    }
}

impl Clone for Question {
    fn clone(&self) -> (copy: Self)
        ensures
            copy@ == self@,
    {
        match self {
            Question::ConventionalExists { root, venv } => Question::ConventionalExists {
                root: root.clone(),
                venv: venv.clone(),
            },
            Question::ToolAvailable { root } => Question::ToolAvailable { root: root.clone() },
            Question::ToolOutput { root } => Question::ToolOutput { root: root.clone() },
        }
    }
}

/// What is said of a project without a conventional directory when the
/// dependency manager is not installed.
pub open spec fn no_strategy_text(root: Seq<char>) -> Seq<char> {
    "Don't have any other way to find the virtualenv of "@ + root
}

/// The first look at a node at `path`, with the roots in `claimed` found
/// before it: the roots afterwards, and where the resolution stands.
///
/// Unless `deep` is set, a node at or below a claimed root is passed over.
/// Any other node that is not a marker file is passed over too. A marker
/// file claims its directory as a root, and the first question is whether
/// the conventional directory exists in it.
pub open spec fn first_look(claimed: Seq<Seq<Seq<char>>>, deep: bool, path: Seq<Seq<char>>) -> (
    Seq<Seq<Seq<char>>>,
    ProgressView,
) {
    if !deep && covers(claimed, path) {
        (claimed, ProgressView::Resolved(ResolutionView::Skip(SkipReason::AlreadyClaimed)))
    } else if !is_marker(path) {
        (claimed, ProgressView::Resolved(ResolutionView::Skip(SkipReason::NotMarker)))
    } else {
        let root = path.drop_last();
        (
            claimed.push(root),
            ProgressView::Ask(
                QuestionView::ConventionalExists {
                    root: rendered(root),
                    venv: rendered(root.push(conventional_name())),
                },
            ),
        )
    }
}

/// Where a resolution stands once `answer` has come in for `question`.
///
/// A conventional directory that exists is the environment, and nothing
/// more is asked. Without one the next question is whether the dependency
/// manager is installed; if it is, it is called, and its reply decides. An
/// answer to another question changes nothing: the question stands.
pub open spec fn next_look(question: QuestionView, answer: AnswerView) -> ProgressView {
    match (question, answer) {
        (QuestionView::ConventionalExists { root, venv }, AnswerView::Exists(found)) => if found {
            ProgressView::Resolved(ResolutionView::Candidate(venv))
        } else {
            ProgressView::Ask(QuestionView::ToolAvailable { root })
        },
        (QuestionView::ToolAvailable { root }, AnswerView::Available(installed)) => if installed {
            ProgressView::Ask(QuestionView::ToolOutput { root })
        } else {
            ProgressView::Resolved(ResolutionView::Error(no_strategy_text(root)))
        },
        (QuestionView::ToolOutput { root }, AnswerView::Output(outcome)) => match interpreted(
            outcome,
        ) {
            Ok(path) => ProgressView::Resolved(ResolutionView::Candidate(path)),
            Err(detail) => ProgressView::Resolved(ResolutionView::Error(detail)),
        },
        _ => ProgressView::Ask(question),
    }
}

/// Takes a first look at a node of the walk: passes it over, or claims its
/// directory as a project root and asks for the conventional directory.
pub fn resolve(
    claimed: &mut ClaimedRoots,
    config: &ScanConfiguration,
    entry: &TraversalEntry,
) -> (progress: Progress)
    ensures
        (final(claimed)@, progress@) == first_look(old(claimed)@, config@.deep, entry@.path),
{
    if !config.deep && claimed.covers(&entry.path) {
        return Progress::Resolved(Resolution::Skip(SkipReason::AlreadyClaimed));
    }
    if !entry.path.is_marker() {
        return Progress::Resolved(Resolution::Skip(SkipReason::NotMarker));
    }
    match entry.path.parent() {
        Some(root) => {
            let shown = root.render();
            let venv = root.join(".venv").render();
            claimed.claim(root);
            Progress::Ask(Question::ConventionalExists { root: shown, venv })
        },
        None => {
            proof {
                reveal_strlit("pyproject.toml");
                reveal_strlit("/");
            }
            Progress::Resolved(Resolution::Skip(SkipReason::NotMarker))
        },
    }
}

/// Goes on with a resolution that was waiting for `question`, now that
/// `answer` has come in.
pub fn resume(question: Question, answer: Answer) -> (progress: Progress)
    ensures
        progress@ == next_look(question@, answer@),
{
    match (question, answer) {
        (Question::ConventionalExists { root, venv }, Answer::Exists(found)) => {
            if found {
                Progress::Resolved(Resolution::Candidate(VirtualenvCandidate { location: venv }))
            } else {
                Progress::Ask(Question::ToolAvailable { root })
            }
        },
        (Question::ToolAvailable { root }, Answer::Available(installed)) => {
            if installed {
                Progress::Ask(Question::ToolOutput { root })
            } else {
                let mut detail = String::from_str(
                    "Don't have any other way to find the virtualenv of ",
                );
                detail.append(root.as_str());
                Progress::Resolved(Resolution::Error(detail))
            }
        },
        (Question::ToolOutput { root }, Answer::Output(outcome)) => {
            match interpret(&outcome) {
                Ok(path) => Progress::Resolved(
                    Resolution::Candidate(VirtualenvCandidate { location: path }),
                ),
                Err(detail) => Progress::Resolved(Resolution::Error(detail)),
            }
        },
        (question, _) => Progress::Ask(question),
    }
}

/// Whether a first look at `path` goes on to look for an environment.
pub open spec fn is_evaluated(
    claimed: Seq<Seq<Seq<char>>>,
    deep: bool,
    path: Seq<Seq<char>>,
) -> bool {
    first_look(claimed, deep, path).1 is Ask
}

/// The roots that are claimed once the nodes at `paths` have had their first
/// look, one after the other.
pub open spec fn claimed_after(
    claimed: Seq<Seq<Seq<char>>>,
    deep: bool,
    paths: Seq<Seq<Seq<char>>>,
) -> Seq<Seq<Seq<char>>>
    decreases paths.len(),
{
    if paths.len() == 0 {
        claimed
    } else {
        claimed_after(first_look(claimed, deep, paths[0]).0, deep, paths.drop_first())
    }
}

/// How many of the nodes at `paths`, looked at one after the other, are
/// evaluated as projects.
pub open spec fn evaluations(
    claimed: Seq<Seq<Seq<char>>>,
    deep: bool,
    paths: Seq<Seq<Seq<char>>>,
) -> nat
    decreases paths.len(),
{
    if paths.len() == 0 {
        0
    } else {
        let counted: nat = if is_evaluated(claimed, deep, paths[0]) {
            1
        } else {
            0
        };
        counted + evaluations(first_look(claimed, deep, paths[0]).0, deep, paths.drop_first())
    }
}

/// How many of `paths` name a marker file.
pub open spec fn marker_count(paths: Seq<Seq<Seq<char>>>) -> nat
    decreases paths.len(),
{
    if paths.len() == 0 {
        0
    } else {
        let counted: nat = if is_marker(paths[0]) {
            1
        } else {
            0
        };
        counted + marker_count(paths.drop_first())
    }
}

/// Whether no marker file among `paths` lies at or below the directory of
/// another one.
pub open spec fn markers_apart(paths: Seq<Seq<Seq<char>>>) -> bool {
    forall|i: int, j: int|
        0 <= i < paths.len() && 0 <= j < paths.len() && i != j && is_marker(paths[i]) && is_marker(
            paths[j],
        ) ==> !is_nested(#[trigger] paths[j], #[trigger] paths[i].drop_last())
}

/// A first look never takes a root away: what was covered stays covered.
pub proof fn lemma_claims_persist(
    claimed: Seq<Seq<Seq<char>>>,
    deep: bool,
    looked_at: Seq<Seq<char>>,
    path: Seq<Seq<char>>,
)
    requires
        covers(claimed, path),
    ensures
        covers(first_look(claimed, deep, looked_at).0, path),
{
    let i = choose|i: int| 0 <= i < claimed.len() && is_nested(path, #[trigger] claimed[i]);
    let after = first_look(claimed, deep, looked_at).0;
    assert(after[i] == claimed[i]);
}

/// What was covered stays covered through any number of first looks.
pub proof fn lemma_claims_persist_through(
    claimed: Seq<Seq<Seq<char>>>,
    deep: bool,
    looked_at: Seq<Seq<Seq<char>>>,
    path: Seq<Seq<char>>,
)
    requires
        covers(claimed, path),
    ensures
        covers(claimed_after(claimed, deep, looked_at), path),
    decreases looked_at.len(),
{
    if looked_at.len() > 0 {
        lemma_claims_persist(claimed, deep, looked_at[0], path);
        lemma_claims_persist_through(
            first_look(claimed, deep, looked_at[0]).0,
            deep,
            looked_at.drop_first(),
            path,
        );
    }
}

/// Without deep scanning, a node at or below a claimed root is passed over
/// and claims nothing, whatever its name.
pub proof fn lemma_covered_is_skipped(claimed: Seq<Seq<Seq<char>>>, path: Seq<Seq<char>>)
    requires
        covers(claimed, path),
    ensures
        first_look(claimed, false, path) == (
            claimed,
            ProgressView::Resolved(ResolutionView::Skip(SkipReason::AlreadyClaimed)),
        ),
{
}

/// Without deep scanning, once a marker file has been evaluated, no node at
/// or below its directory is evaluated again, however many nodes are looked
/// at in between: it is passed over as already claimed, and nothing changes.
pub proof fn lemma_nested_marker_is_skipped(
    claimed: Seq<Seq<Seq<char>>>,
    first: Seq<Seq<char>>,
    between: Seq<Seq<Seq<char>>>,
    nested: Seq<Seq<char>>,
)
    requires
        is_evaluated(claimed, false, first),
        is_nested(nested, first.drop_last()),
    ensures
        ({
            let later = claimed_after(first_look(claimed, false, first).0, false, between);
            first_look(later, false, nested) == (
                later,
                ProgressView::Resolved(ResolutionView::Skip(SkipReason::AlreadyClaimed)),
            )
        }),
{
    let after = first_look(claimed, false, first).0;
    assert(is_nested(nested, after[claimed.len() as int]));
    lemma_claims_persist_through(after, false, between, nested);
}

/// With deep scanning, every marker file is evaluated, also one that lies
/// in a project found before; its directory is claimed like any other.
pub proof fn lemma_deep_evaluates_every_marker(claimed: Seq<Seq<Seq<char>>>, path: Seq<Seq<char>>)
    requires
        is_marker(path),
    ensures
        is_evaluated(claimed, true, path),
        first_look(claimed, true, path).0 == claimed.push(path.drop_last()),
{
}

/// A node that is not a marker file is never evaluated and claims nothing.
pub proof fn lemma_only_markers_are_evaluated(
    claimed: Seq<Seq<Seq<char>>>,
    deep: bool,
    path: Seq<Seq<char>>,
)
    requires
        !is_marker(path),
    ensures
        !is_evaluated(claimed, deep, path),
        first_look(claimed, deep, path).0 == claimed,
{
}

/// With deep scanning, as many nodes are evaluated as there are marker
/// files.
pub proof fn lemma_deep_evaluates_all(claimed: Seq<Seq<Seq<char>>>, paths: Seq<Seq<Seq<char>>>)
    ensures
        evaluations(claimed, true, paths) == marker_count(paths),
    decreases paths.len(),
{
    if paths.len() > 0 {
        lemma_deep_evaluates_all(first_look(claimed, true, paths[0]).0, paths.drop_first());
    }
}

/// Without deep scanning, where no marker file lies at or below the
/// directory of another one, nor below a root claimed before, every marker
/// file is evaluated: the walk evaluates as many projects as it meets
/// marker files.
pub proof fn lemma_separate_markers_all_evaluated(
    claimed: Seq<Seq<Seq<char>>>,
    paths: Seq<Seq<Seq<char>>>,
)
    requires
        markers_apart(paths),
        forall|j: int|
            0 <= j < paths.len() && is_marker(paths[j]) ==> !covers(claimed, #[trigger] paths[j]),
    ensures
        evaluations(claimed, false, paths) == marker_count(paths),
    decreases paths.len(),
{
    if paths.len() > 0 {
        let head = paths[0];
        let rest = paths.drop_first();
        let after = first_look(claimed, false, head).0;
        assert forall|i: int, j: int|
            0 <= i < rest.len() && 0 <= j < rest.len() && i != j && is_marker(rest[i])
                && is_marker(rest[j]) implies !is_nested(
            #[trigger] rest[j],
            #[trigger] rest[i].drop_last(),
        ) by {
            assert(rest[i] == paths[i + 1]);
            assert(rest[j] == paths[j + 1]);
        }
        assert forall|j: int| 0 <= j < rest.len() && is_marker(rest[j]) implies !covers(
            after,
            #[trigger] rest[j],
        ) by {
            assert(rest[j] == paths[j + 1]);
            assert(!covers(claimed, paths[j + 1]));
            if covers(after, rest[j]) {
                let k = choose|k: int|
                    0 <= k < after.len() && is_nested(rest[j], #[trigger] after[k]);
                if k < claimed.len() {
                    assert(after[k] == claimed[k]);
                } else {
                    assert(is_marker(head));
                    assert(after[k] == paths[0].drop_last());
                    assert(!is_nested(paths[j + 1], paths[0].drop_last()));
                }
            }
        }
        assert(is_marker(head) ==> !covers(claimed, paths[0]));
        lemma_separate_markers_all_evaluated(after, rest);
    }
}

/// A tree whose marker files lie apart yields, in a run that starts with no
/// roots claimed, one evaluation for each marker file.
pub proof fn lemma_one_evaluation_per_project(paths: Seq<Seq<Seq<char>>>)
    requires
        markers_apart(paths),
    ensures
        evaluations(Seq::empty(), false, paths) == marker_count(paths),
{
    lemma_separate_markers_all_evaluated(Seq::empty(), paths);
}

/// The conventional directory comes first: where it exists it is the
/// environment, and the resolution ends without a question about the
/// dependency manager.
pub proof fn lemma_conventional_takes_precedence(root: Seq<char>, venv: Seq<char>)
    ensures
        next_look(QuestionView::ConventionalExists { root, venv }, AnswerView::Exists(true))
            == ProgressView::Resolved(ResolutionView::Candidate(venv)),
{
}

/// The dependency manager is called only after the conventional directory
/// was found missing and the tool was found installed: the question for its
/// output arises from no other question and no other answer.
pub proof fn lemma_tool_is_last_resort(question: QuestionView, answer: AnswerView)
    requires
        !(question is ToolOutput),
        next_look(question, answer) is Ask,
        next_look(question, answer)->Ask_0 is ToolOutput,
    ensures
        question is ToolAvailable,
        answer == AnswerView::Available(true),
{
}

} // verus!
