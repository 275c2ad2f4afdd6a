//! What passes between a run and the front end that carries it out: the
//! events that the front end observed, the actions it is asked for, and the
//! lines it has to write.

use vstd::prelude::*;
use crate::config::{EntryView, TraversalEntry};
use crate::resolver::{Answer, AnswerView, VirtualenvCandidate};
use crate::sizing::MeasuredEntry;

verus! {

/// Where a line goes.
#[derive(Clone, Copy, Debug, PartialEq, Eq, Structural)]
pub enum Stream {
    /// The standard output: what was found or removed.
    Output,
    /// The error stream: warnings, explanations and the summary.
    Error,
}

/// One line to write.
#[derive(Debug, PartialEq, Eq)]
pub struct Notice {
    pub stream: Stream,
    pub text: String,
}

/// A line as plain values.
pub ghost struct NoticeView {
    pub stream: Stream,
    pub text: Seq<char>,
}

impl View for Notice {
    type V = NoticeView;

    open spec fn view(&self) -> NoticeView {
        NoticeView { stream: self.stream, text: self.text@ }
    }
}

/// A sequence of lines as plain values.
pub open spec fn notices_view(notices: Seq<Notice>) -> Seq<NoticeView> {
    Seq::new(notices.len(), |i: int| notices[i]@)
}

/// What the front end has observed.
#[derive(Debug, PartialEq, Eq)]
pub enum Event {
    /// The walk yielded a node.
    Walked(TraversalEntry),
    /// The walk could not read a node; the text says why.
    WalkFailed(String),
    /// The walk is over.
    WalkFinished,
    /// A question of the resolver has its answer.
    Answered(Answer),
    /// The walk below a candidate met these nodes.
    Measured(Vec<MeasuredEntry>),
    /// The operator said yes or no to a removal.
    Confirmed(bool),
    /// The operator could not be asked; the text says why.
    ConfirmationFailed(String),
    /// The candidate was removed.
    Removed,
    /// The candidate could not be removed; the text says why.
    RemovalFailed(String),
}

/// An event as plain values.
pub ghost enum EventView {
    Walked(EntryView),
    WalkFailed(Seq<char>),
    WalkFinished,
    Answered(AnswerView),
    Measured(Seq<MeasuredEntry>),
    Confirmed(bool),
    ConfirmationFailed(Seq<char>),
    Removed,
    RemovalFailed(Seq<char>),
}

impl View for Event {
    type V = EventView;

    open spec fn view(&self) -> EventView {
        match self {
            Event::Walked(entry) => EventView::Walked(entry@),
            Event::WalkFailed(detail) => EventView::WalkFailed(detail@),
            Event::WalkFinished => EventView::WalkFinished,
            Event::Answered(answer) => EventView::Answered(answer@),
            Event::Measured(entries) => EventView::Measured(entries@),
            Event::Confirmed(yes) => EventView::Confirmed(*yes),
            Event::ConfirmationFailed(detail) => EventView::ConfirmationFailed(detail@),
            Event::Removed => EventView::Removed,
            Event::RemovalFailed(detail) => EventView::RemovalFailed(detail@),
        }
    }
}

/// What the front end is asked to do next. Each action but the last two is
/// answered by an event.
#[derive(Debug, PartialEq, Eq)]
pub enum Action {
    /// Take the next node from the walk.
    Advance,
    /// See whether a directory exists at this path.
    Probe(String),
    /// See whether a program of this name is installed.
    Locate(String),
    /// Run a program and capture what it writes and how it ends.
    Run { program: String, arguments: Vec<String> },
    /// Walk the tree below this path and collect what is there.
    Measure(String),
    /// Put this question to the operator.
    Confirm(String),
    /// Remove the directory at this path with all it holds.
    Remove(String),
    /// The run is over: leave in the ordinary way.
    Finish,
    /// The run cannot go on: leave at once.
    Abort,
}

/// An action as plain values.
pub ghost enum ActionView {
    Advance,
    Probe(Seq<char>),
    Locate(Seq<char>),
    Run { program: Seq<char>, arguments: Seq<Seq<char>> },
    Measure(Seq<char>),
    Confirm(Seq<char>),
    Remove(Seq<char>),
    Finish,
    Abort,
}

impl View for Action {
    type V = ActionView;

    open spec fn view(&self) -> ActionView {
        match self {
            Action::Advance => ActionView::Advance,
            Action::Probe(path) => ActionView::Probe(path@),
            Action::Locate(program) => ActionView::Locate(program@),
            Action::Run { program, arguments } => ActionView::Run {
                program: program@,
                arguments: Seq::new(arguments@.len(), |i: int| arguments@[i]@),
            },
            Action::Measure(path) => ActionView::Measure(path@),
            Action::Confirm(prompt) => ActionView::Confirm(prompt@),
            Action::Remove(path) => ActionView::Remove(path@),
            Action::Finish => ActionView::Finish,
            Action::Abort => ActionView::Abort,
        }
    }
}

/// What a run answers to an event: lines to write, in order, and then the
/// next thing to do.
#[derive(Debug, PartialEq, Eq)]
pub struct Reaction {
    pub notices: Vec<Notice>,
    pub action: Action,
}

/// A reaction as plain values.
pub ghost struct ReactionView {
    pub notices: Seq<NoticeView>,
    pub action: ActionView,
}

impl View for Reaction {
    type V = ReactionView;

    open spec fn view(&self) -> ReactionView {
        ReactionView {
            notices: notices_view(self.notices@),
            action: self.action@,
        }
    }
}

/// What became of a candidate.
#[derive(Clone, Copy, Debug, PartialEq, Eq, Structural)]
pub enum Fate {
    /// It was reported and left in place.
    Reported,
    /// It was removed.
    Removed,
    /// The operator declined its removal.
    Declined,
}

/// One candidate that a run has dealt with.
#[derive(Debug, PartialEq, Eq)]
pub struct LedgerEntry {
    pub candidate: VirtualenvCandidate,
    pub size: u64,
    pub fate: Fate,
}

/// A line of the ledger as plain values.
pub ghost struct LedgerEntryView {
    pub candidate: Seq<char>,
    pub size: u64,
    pub fate: Fate,
}

impl View for LedgerEntry {
    type V = LedgerEntryView;

    open spec fn view(&self) -> LedgerEntryView {
        LedgerEntryView { candidate: self.candidate@, size: self.size, fate: self.fate }
    }
}

impl Clone for LedgerEntry {
    fn clone(&self) -> (copy: Self)
        ensures
            copy@ == self@,
    {
        LedgerEntry { candidate: self.candidate.clone(), size: self.size, fate: self.fate }
    }
}

/// A ledger as plain values.
pub open spec fn ledger_view(ledger: Seq<LedgerEntry>) -> Seq<LedgerEntryView> {
    Seq::new(ledger.len(), |i: int| ledger[i]@)
}

} // verus!
