//! What holds of every run, whatever the front end observes.

use vstd::prelude::*;
use crate::config::{within_depth, ConfigurationView, EntryView};
use crate::protocol::{ActionView, EventView, Fate, LedgerEntryView};
use crate::report::{human_size_text, summary_text};
use crate::resolver::{first_look, AnswerView, QuestionView};
use crate::scan::{awaited, initial, interrupted, next, silence, warned, PhaseView, ScanView};
use crate::sizing::capped;

verus! {

/// The run after a sequence of events, one after the other.
pub open spec fn run(s: ScanView, events: Seq<EventView>) -> ScanView
    decreases events.len(),
{
    if events.len() == 0 {
        s
    } else {
        next(run(s, events.drop_last()), events.last()).0
    }
}

/// The bytes of the candidates in `ledger` that met `fate`.
pub open spec fn bytes_of(ledger: Seq<LedgerEntryView>, fate: Fate) -> nat
    decreases ledger.len(),
{
    if ledger.len() == 0 {
        0
    } else {
        let counted: nat = if ledger.last().fate == fate {
            ledger.last().size as nat
        } else {
            0
        };
        bytes_of(ledger.drop_last(), fate) + counted
    }
}

/// Whether every candidate in `ledger` met a fate that the mode allows:
/// reported in report mode, removed or declined in delete mode.
pub open spec fn fates_fit(delete: bool, ledger: Seq<LedgerEntryView>) -> bool {
    forall|i: int|
        0 <= i < ledger.len() ==> ((#[trigger] ledger[i]).fate == Fate::Reported) == !delete
}

/// Whether the total of a run is what its ledger accounts for: in report
/// mode the bytes reported, in delete mode the bytes removed.
pub open spec fn balanced(s: ScanView) -> bool {
    &&& fates_fit(s.config.delete, s.ledger)
    &&& s.total == capped(
        bytes_of(
            s.ledger,
            if s.config.delete {
                Fate::Removed
            } else {
                Fate::Reported
            },
        ),
    )
    &&& !s.config.delete ==> !(s.phase is Confirming) && !(s.phase is Removing)
}

/// Two runs with the same settings that observe the same events deal with
/// the same candidates in the same order, end with the same total and wait
/// for the same action.
pub proof fn lemma_same_observations_same_outcome(
    config: ConfigurationView,
    first: Seq<EventView>,
    second: Seq<EventView>,
)
    requires
        first.len() == second.len(),
        forall|i: int| 0 <= i < first.len() ==> first[i] == second[i],
    ensures
        run(initial(config), first).ledger == run(initial(config), second).ledger,
        run(initial(config), first).total == run(initial(config), second).total,
        run(initial(config), first).claimed == run(initial(config), second).claimed,
        awaited(run(initial(config), first).phase) == awaited(run(initial(config), second).phase),
{
    assert(first =~= second);
}

/// A run never changes its settings.
pub proof fn lemma_settings_are_fixed(s: ScanView, event: EventView)
    ensures
        next(s, event).0.config == s.config,
{
}

/// A run only ever adds to its claimed roots, its ledger and its total.
pub proof fn lemma_run_only_grows(s: ScanView, event: EventView)
    ensures
        s.claimed.is_prefix_of(next(s, event).0.claimed),
        s.ledger.is_prefix_of(next(s, event).0.ledger),
        s.total <= next(s, event).0.total,
{
}

/// One step keeps the books: a balanced run stays balanced.
pub proof fn lemma_step_keeps_balance(s: ScanView, event: EventView)
    requires
        balanced(s),
    ensures
        balanced(next(s, event).0),
{
    let after = next(s, event).0;
    if after.ledger != s.ledger {
        assert(after.ledger.drop_last() =~= s.ledger);
    }
}

/// Every run is balanced: at any moment the total is exactly what the
/// ledger accounts for. In report mode that is the bytes of the candidates
/// reported; in delete mode the bytes of the candidates removed, and a
/// candidate that the operator declined adds nothing.
pub proof fn lemma_total_is_accounted_for(config: ConfigurationView, events: Seq<EventView>)
    ensures
        balanced(run(initial(config), events)),
        run(initial(config), events).config == config,
    decreases events.len(),
{
    if events.len() > 0 {
        lemma_total_is_accounted_for(config, events.drop_last());
        lemma_step_keeps_balance(run(initial(config), events.drop_last()), events.last());
    }
}

/// The summary at the end of the walk shows the total of the run.
pub proof fn lemma_summary_shows_total(s: ScanView)
    requires
        s.phase is Walking,
    ensures
        next(s, EventView::WalkFinished).1 == warned(
            summary_text(s.config.delete, human_size_text(s.total)),
        ),
        next(s, EventView::WalkFinished).0.phase is Finished,
        next(s, EventView::WalkFinished).0.total == s.total,
{
}

/// In delete mode the total moves only when a removal has been carried
/// out, and then by the size of the candidate that was removed, which goes
/// into the ledger as removed.
pub proof fn lemma_only_removals_count(s: ScanView, event: EventView)
    requires
        s.config.delete,
    ensures
        (s.phase is Removing && event is Removed) ==> {
            &&& next(s, event).0.total == capped((s.total + s.phase->Removing_size) as nat)
            &&& next(s, event).0.ledger == s.ledger.push(
                LedgerEntryView {
                    candidate: s.phase->Removing_candidate,
                    size: s.phase->Removing_size,
                    fate: Fate::Removed,
                },
            )
        },
        !(s.phase is Removing && event is Removed) ==> next(s, event).0.total == s.total,
{
}

/// A candidate that the operator declines is noted as declined, adds
/// nothing to the total, and is not removed: the walk goes on.
pub proof fn lemma_declined_stays(s: ScanView)
    requires
        s.phase is Confirming,
    ensures
        next(s, EventView::Confirmed(false)).0.total == s.total,
        next(s, EventView::Confirmed(false)).0.ledger == s.ledger.push(
            LedgerEntryView {
                candidate: s.phase->Confirming_candidate,
                size: s.phase->Confirming_size,
                fate: Fate::Declined,
            },
        ),
        awaited(next(s, EventView::Confirmed(false)).0.phase) == ActionView::Advance,
{
}

/// In a balanced run, a removal is asked for only in delete mode, and only
/// for the candidate that was just measured in a non-interactive run or
/// just confirmed by the operator.
pub proof fn lemma_removal_needs_consent(s: ScanView, event: EventView)
    requires
        balanced(s),
        !(s.phase is Removing),
        next(s, event).0.phase is Removing,
    ensures
        s.config.delete,
        ({
            ||| s.phase is Measuring && event is Measured && s.config.non_interactive
            ||| s.phase is Confirming && event == EventView::Confirmed(true)
        }),
{
}

/// A run in report mode never asks for a confirmation or a removal: it
/// leaves the tree as it found it.
pub proof fn lemma_report_mode_leaves_tree(config: ConfigurationView, events: Seq<EventView>)
    requires
        !config.delete,
    ensures
        !(awaited(run(initial(config), events).phase) is Remove),
        !(awaited(run(initial(config), events).phase) is Confirm),
{
    lemma_total_is_accounted_for(config, events);
}

/// A run that was given up or has finished stays so: no event changes it,
/// and no action but leaving is asked for.
pub proof fn lemma_end_is_final(s: ScanView, event: EventView)
    requires
        s.phase is Halted || s.phase is Finished,
    ensures
        next(s, event) == (s, silence()),
        awaited(s.phase) is Abort || awaited(s.phase) is Finish,
{
}

/// After an end, no sequence of events changes the run.
pub proof fn lemma_nothing_after_end(s: ScanView, events: Seq<EventView>)
    requires
        s.phase is Halted || s.phase is Finished,
    ensures
        run(s, events) == s,
    decreases events.len(),
{
    if events.len() > 0 {
        lemma_nothing_after_end(s, events.drop_last());
        lemma_end_is_final(s, events.last());
    }
}

/// An interrupt in delete mode shows the bytes of exactly the candidates
/// whose removal had been carried out before it, tells the front end to
/// leave, and gives the run up: whatever is observed afterwards, nothing
/// more is removed or counted.
pub proof fn lemma_interrupt_shows_completed_removals(
    config: ConfigurationView,
    before: Seq<EventView>,
    after: Seq<EventView>,
)
    requires
        config.delete,
    ensures
        ({
            let s = run(initial(config), before);
            let (halted, notices, leave) = interrupted(s);
            &&& leave
            &&& notices == warned("Received Ctrl+C, exiting..."@) + warned(
                summary_text(true, human_size_text(capped(bytes_of(s.ledger, Fate::Removed)))),
            )
            &&& halted.ledger == s.ledger
            &&& halted.total == s.total
            &&& run(halted, after) == halted
            &&& awaited(run(halted, after).phase) is Abort
        }),
{
    lemma_total_is_accounted_for(config, before);
    let s = run(initial(config), before);
    lemma_nothing_after_end(interrupted(s).0, after);
}

/// Where the conventional directory exists, it is measured next, and the
/// dependency manager is neither looked up nor run.
pub proof fn lemma_convention_skips_tool(s: ScanView, root: Seq<char>, venv: Seq<char>)
    requires
        s.phase == PhaseView::Resolving(QuestionView::ConventionalExists { root, venv }),
    ensures
        next(s, EventView::Answered(AnswerView::Exists(true))).0.phase == PhaseView::Measuring(
            venv,
        ),
        awaited(next(s, EventView::Answered(AnswerView::Exists(true))).0.phase)
            == ActionView::Measure(venv),
{
}

/// The dependency manager is run only for a project whose conventional
/// directory was found missing, and only once it was found installed.
pub proof fn lemma_tool_runs_last(s: ScanView, event: EventView)
    requires
        !(awaited(s.phase) is Run),
        awaited(next(s, event).0.phase) is Run,
    ensures
        s.phase is Resolving,
        s.phase->Resolving_0 is ToolAvailable,
        event == EventView::Answered(AnswerView::Available(true)),
{
}

/// The dependency manager is looked up only after the conventional
/// directory was found missing.
pub proof fn lemma_tool_lookup_follows_probe(s: ScanView, event: EventView)
    requires
        !(awaited(s.phase) is Locate),
        awaited(next(s, event).0.phase) is Locate,
    ensures
        s.phase is Resolving,
        s.phase->Resolving_0 is ConventionalExists,
        event == EventView::Answered(AnswerView::Exists(false)),
{
}

/// With a depth limit, a node at the limit gets its first look, and a node
/// below the limit is passed over: it claims nothing and asks nothing.
pub proof fn lemma_depth_limit(s: ScanView, entry: EntryView, limit: usize)
    requires
        s.phase is Walking,
        s.config.max_depth == Some(limit),
        entry.exists,
    ensures
        entry.depth <= limit ==> {
            &&& next(s, EventView::Walked(entry)).0.claimed == first_look(
                s.claimed,
                s.config.deep,
                entry.path,
            ).0
            &&& (next(s, EventView::Walked(entry)).0.phase is Resolving) == (first_look(
                s.claimed,
                s.config.deep,
                entry.path,
            ).1 is Ask)
        },
        entry.depth > limit ==> {
            &&& next(s, EventView::Walked(entry)).0 == s
            &&& !within_depth(s.config.max_depth, entry.depth)
        },
{
}

/// A node that vanished before it was looked at is passed over: it claims
/// nothing and asks nothing.
pub proof fn lemma_vanished_is_passed_over(s: ScanView, entry: EntryView)
    requires
        s.phase is Walking,
        !entry.exists,
    ensures
        next(s, EventView::Walked(entry)).0 == s,
{
}

/// A failure of the walk or of a resolution never ends the run: the walk
/// goes on.
pub proof fn lemma_failures_are_not_fatal(s: ScanView, event: EventView)
    requires
        s.phase is Walking || s.phase is Resolving,
    ensures
        !(next(s, event).0.phase is Halted),
{
}

} // verus!
