//! The laws the materializer obeys, proved once and for all over the
//! machine's transition function.

use crate::errs::ErrorV;
use crate::machine::{
    spec_advance, spec_new, spec_step, wf_state, ActionV, EventV, MState, PhaseV, StepV,
};
use crate::names::{has_separator, is_special_marker, spec_name_check, NameCheck};
use crate::tree::{Entry, Item, Node};
use vstd::prelude::*;

verus! {

/// The error a machine answer carries, if any: one reported at once, or one
/// held while the machine still unwinds towards the top level.
pub open spec fn raised_error(s: MState, st: StepV) -> Option<ErrorV> {
    match st {
        StepV::Done(Err(e)) => Some(e),
        _ => match s.phase {
            PhaseV::Unwinding { err } => Some(err),
            _ => None,
        },
    }
}

/// Whether the event reports a successful plain operation.
pub open spec fn is_unit_ok(e: EventV) -> bool {
    match e {
        EventV::Unit(Ok(())) => true,
        _ => false,
    }
}

/// An upward directory change was requested and the event reports that it
/// failed.
pub open spec fn leave_failed(s: MState, e: EventV) -> bool {
    &&& (s.phase is AwaitLeave || s.phase is Unwinding)
    &&& match e {
        EventV::Unit(Err(_)) => true,
        _ => false,
    }
}

/// A name holding a separator is always rejected for not being exactly one
/// path component, whatever the kind of its node and however deep it stands.
/// The one exception is the root marker itself, a single non-regular
/// component, which [`lemma_marker_name_rejected`] covers.
pub proof fn lemma_separator_name_rejected(frames: Seq<Seq<Entry>>, cursor: Seq<Seq<char>>)
    requires
        frames.len() == cursor.len() + 1,
        frames.last().len() > 0,
        has_separator(frames.last().first().name@),
        frames.last().first().name@ != seq!['/'],
    ensures
        ({
            let (s2, st) = spec_advance(frames, cursor);
            raised_error(s2, st) == Some(
                ErrorV::MultiplePathComponents { name: frames.last().first().name@, context: cursor },
            )
        }),
{
    let name = frames.last().first().name@;
    let i = choose|i: int| 0 <= i < name.len() && name[i] == '/';
    assert(!is_special_marker(name)) by {
        if name == seq!['.'] {
            assert(name[i] == '.');
        }
        if name == seq!['.', '.'] {
            assert(name[i] == '.');
        }
    }
}

/// A name equal to the current-directory, parent-directory or root marker is
/// always rejected as a non-regular component, whatever the kind of its node
/// and however deep it stands.
pub proof fn lemma_marker_name_rejected(frames: Seq<Seq<Entry>>, cursor: Seq<Seq<char>>)
    requires
        frames.len() == cursor.len() + 1,
        frames.last().len() > 0,
        is_special_marker(frames.last().first().name@),
    ensures
        ({
            let (s2, st) = spec_advance(frames, cursor);
            raised_error(s2, st) == Some(
                ErrorV::NotRegularComponent { name: frames.last().first().name@, context: cursor },
            )
        }),
{
}

/// Materializing an empty mapping requests no filesystem operation at all
/// and succeeds at once.
pub proof fn lemma_empty_root_succeeds()
    ensures
        spec_new(Seq::empty()).1 == StepV::Done(Ok::<(), ErrorV>(())),
        spec_new(Seq::empty()).0.phase is Finished,
{
    assert(seq![Seq::<Entry>::empty()].last() =~= Seq::<Entry>::empty());
}

/// The stale-link removal is best effort: its reported outcome never changes
/// what the machine does next.
pub proof fn lemma_remove_outcome_ignored(s: MState, e1: EventV, e2: EventV)
    requires
        s.phase is AwaitRemove,
    ensures
        spec_step(s, e1) == spec_step(s, e2),
{
}

/// Re-creating a directory that already exists is no failure: the machine
/// goes on exactly as if the directory had been newly created. Together with
/// [`lemma_remove_outcome_ignored`] and the unconditional truncating write
/// for text nodes, this is why materializing a tree of mappings and text a
/// second time behaves as the first run did: directories survive, file
/// contents are overwritten to the latest value.
pub proof fn lemma_existing_directory_swallowed(s: MState, os: crate::errs::OsErrorV)
    requires
        s.phase is AwaitCreateDir,
        os.already_exists,
    ensures
        spec_step(s, EventV::Unit(Err(os))) == spec_step(s, EventV::Unit(Ok(()))),
{
}

/// A tagged link list asks for exactly one symbolic link carrying the given
/// target — never for a file or a directory under that name.
pub proof fn lemma_link_list_yields_symlink(
    s: MState,
    e: EventV,
    name: Seq<char>,
    items: Vec<Item>,
    kind: String,
    payload: String,
)
    requires
        s.phase == (PhaseV::AwaitRemove { name, node: Node::List(items) }),
        items@.len() == 2,
        items@[0] == Item::Text(kind),
        items@[1] == Item::Text(payload),
        kind@ == "link"@,
    ensures
        spec_step(s, e) == (
            (MState { phase: PhaseV::AwaitSymlink { name }, ..s }),
            StepV::Do(ActionV::CreateSymlink { name, target: payload@ }),
        ),
{
}

/// One step never breaks the machine's well-formedness.
pub proof fn lemma_step_preserves_wf(s: MState, e: EventV)
    requires
        wf_state(s),
        !(s.phase is Finished),
        crate::machine::event_fits(s.phase, e),
    ensures
        wf_state(spec_step(s, e).0),
{
}

/// The logical depth moves only with directory changes: one successful
/// entering appends one name to the cursor, one successful leaving drops
/// one, and every other step leaves the cursor as it was.
pub proof fn lemma_cursor_tracks_directory_changes(s: MState, e: EventV)
    requires
        wf_state(s),
        !(s.phase is Finished),
        crate::machine::event_fits(s.phase, e),
    ensures
        ({
            let s2 = spec_step(s, e).0;
            if s.phase is AwaitEnter && is_unit_ok(e) {
                s2.cursor.len() == s.cursor.len() + 1 && s2.cursor.drop_last() == s.cursor
            } else if (s.phase is AwaitLeave || s.phase is Unwinding) && is_unit_ok(e) {
                s2.cursor == s.cursor.drop_last()
            } else {
                s2.cursor == s.cursor
            }
        }),
{
    let s2 = spec_step(s, e).0;
    match s.phase {
        PhaseV::AwaitEnter { name, children } => {
            if is_unit_ok(e) {
                assert(s2.cursor == s.cursor.push(name));
                assert(s2.cursor.drop_last() =~= s.cursor);
            }
        },
        _ => {
        },
    }
}

/// Whenever the machine reports the run's result, it has already asked to
/// leave every directory it had entered: the report is given back at the
/// top level. The one exception is an upward directory change that itself
/// failed, which abandons the remaining restoration, so that a driver whose
/// upward changes all succeed is always left where the run started.
pub proof fn lemma_done_only_at_top(s: MState, e: EventV)
    requires
        wf_state(s),
        !(s.phase is Finished),
        crate::machine::event_fits(s.phase, e),
    ensures
        ({
            let (s2, st) = spec_step(s, e);
            st is Done ==> (s2.cursor.len() == 0 || leave_failed(s, e))
        }),
{
}

/// Once an error is being unwound, it is the error reported, whether the
/// remaining upward changes succeed or fail: a failing restoration abandons
/// the unwinding but never replaces the first error.
pub proof fn lemma_first_error_wins(s: MState, e: EventV, err: ErrorV)
    requires
        wf_state(s),
        s.phase == (PhaseV::Unwinding { err }),
        crate::machine::event_fits(s.phase, e),
    ensures
        ({
            let (s2, st) = spec_step(s, e);
            match st {
                StepV::Done(r) => r == Err::<(), ErrorV>(err),
                _ => s2.phase == (PhaseV::Unwinding { err }),
            }
        }),
{
}

/// The machine the first answer of a fresh materialization comes from is
/// well formed, and an immediate result is only given at the top level.
pub proof fn lemma_new_wf(root: Seq<Entry>)
    ensures
        wf_state(spec_new(root).0),
        spec_new(root).1 is Done ==> spec_new(root).0.cursor.len() == 0,
{
}

/// A whole run, mathematically: from a state and the answer just given,
/// feeding one event per answered action, until the run's result is reported
/// or the given events are used up. Returns the state and answer the run
/// ends on.
pub open spec fn run_final(s: MState, st: StepV, events: Seq<EventV>) -> (MState, StepV)
    decreases events.len(),
{
    if st is Done || events.len() == 0 {
        (s, st)
    } else {
        let (s2, st2) = spec_step(s, events.first());
        run_final(s2, st2, events.drop_first())
    }
}

/// Every event of the run answers the action the machine is waiting for,
/// and every upward directory change is answered with success.
pub open spec fn run_events_fit_and_leaves_ok(s: MState, st: StepV, events: Seq<EventV>) -> bool
    decreases events.len(),
{
    if st is Done || events.len() == 0 {
        true
    } else {
        &&& crate::machine::event_fits(s.phase, events.first())
        &&& !leave_failed(s, events.first())
        &&& ({
            let (s2, st2) = spec_step(s, events.first());
            run_events_fit_and_leaves_ok(s2, st2, events.drop_first())
        })
    }
}

/// Over a whole run: when the machine reports the run's result and no upward
/// directory change failed on the way, the logical cursor is back at the
/// top — the driver that performed the requested directory changes stands in
/// the directory the run started in, after a failure deep in the tree as
/// much as after success.
pub proof fn lemma_run_restores_working_directory(s: MState, st: StepV, events: Seq<EventV>)
    requires
        wf_state(s),
        st is Done ==> s.cursor.len() == 0,
        run_events_fit_and_leaves_ok(s, st, events),
    ensures
        ({
            let (sf, stf) = run_final(s, st, events);
            stf is Done ==> sf.cursor.len() == 0
        }),
    decreases events.len(),
{
    if !(st is Done) && events.len() > 0 {
        let e = events.first();
        if !(s.phase is Finished) {
            let (s2, st2) = spec_step(s, e);
            lemma_step_preserves_wf(s, e);
            lemma_done_only_at_top(s, e);
            lemma_run_restores_working_directory(s2, st2, events.drop_first());
        }
    }
}

/// Whether two events answering the given phase are interchangeable: they
/// are the same, or they answer the best-effort stale-link removal (whose
/// outcome is ignored), or both report an acceptable directory creation —
/// one fresh, one finding the directory already there.
pub open spec fn interchangeable(p: PhaseV, e1: EventV, e2: EventV) -> bool {
    ||| e1 == e2
    ||| p is AwaitRemove
    ||| (p is AwaitCreateDir && dir_creation_accepted(e1) && dir_creation_accepted(e2))
}

/// The event reports a directory creation the machine accepts: success, or
/// an already-exists failure.
pub open spec fn dir_creation_accepted(e: EventV) -> bool {
    match e {
        EventV::Unit(Ok(())) => true,
        EventV::Unit(Err(os)) => os.already_exists,
        _ => false,
    }
}

/// Interchangeable events drive the machine to the same state and the same
/// answer.
pub proof fn lemma_interchangeable_same_step(s: MState, e1: EventV, e2: EventV)
    requires
        interchangeable(s.phase, e1, e2),
    ensures
        spec_step(s, e1) == spec_step(s, e2),
{
}

/// Two event sequences are interchangeable along a run when, step for step,
/// the events answering each action are interchangeable for the phase the
/// machine is in at that step.
pub open spec fn runs_interchangeable(
    s: MState,
    st: StepV,
    ev1: Seq<EventV>,
    ev2: Seq<EventV>,
) -> bool
    decreases ev1.len(),
{
    if st is Done || ev1.len() == 0 {
        true
    } else {
        &&& interchangeable(s.phase, ev1.first(), ev2.first())
        &&& ({
            let (s2, st2) = spec_step(s, ev1.first());
            runs_interchangeable(s2, st2, ev1.drop_first(), ev2.drop_first())
        })
    }
}

/// Every answer the machine gives along a run, the one it starts from
/// included.
pub open spec fn run_answers(s: MState, st: StepV, events: Seq<EventV>) -> Seq<StepV>
    decreases events.len(),
{
    if st is Done || events.len() == 0 {
        seq![st]
    } else {
        let (s2, st2) = spec_step(s, events.first());
        seq![st] + run_answers(s2, st2, events.drop_first())
    }
}

/// Two runs over interchangeable events request exactly the same actions
/// and report the same result. A second materialization of a tree of
/// mappings and text into what the first one built differs from the first
/// run only in already-exists answers to directory creations and in the
/// outcomes of the ignored stale-link removals, so it requests the same
/// writes and directory entries again: directories survive re-creation and
/// file contents are overwritten to the latest value.
pub proof fn lemma_interchangeable_runs_same_answers(
    s: MState,
    st: StepV,
    ev1: Seq<EventV>,
    ev2: Seq<EventV>,
)
    requires
        ev1.len() == ev2.len(),
        runs_interchangeable(s, st, ev1, ev2),
    ensures
        run_answers(s, st, ev1) == run_answers(s, st, ev2),
        run_final(s, st, ev1) == run_final(s, st, ev2),
    decreases ev1.len(),
{
    if !(st is Done) && ev1.len() > 0 {
        let e1 = ev1.first();
        let e2 = ev2.first();
        lemma_interchangeable_same_step(s, e1, e2);
        let (s2, st2) = spec_step(s, e1);
        lemma_interchangeable_runs_same_answers(s2, st2, ev1.drop_first(), ev2.drop_first());
    }
}

/// A tree of mappings and text alone, with every name one regular
/// component.
pub open spec fn mappings_and_text(es: Seq<Entry>) -> bool
    decreases es,
{
    forall|i: int|
        0 <= i < es.len() ==> {
            &&& spec_name_check((#[trigger] es[i]).name@) == NameCheck::Valid
            &&& mapping_or_text(es[i].node)
        }
}

/// A node that is a mapping of such entries, or text.
pub open spec fn mapping_or_text(n: Node) -> bool
    decreases n,
{
    match n {
        Node::Dir(children) => mappings_and_text(children@),
        Node::Text(_) => true,
        Node::List(_) => false,
        Node::Other => false,
    }
}

/// An event that reports success — or, answering a directory creation, an
/// already-exists failure, which the machine accepts.
pub open spec fn cooperative_event(p: PhaseV, e: EventV) -> bool {
    is_unit_ok(e) || (p is AwaitCreateDir && dir_creation_accepted(e))
}

/// A machine state from which a tree of mappings and text is still being
/// materialized: everything pending is such a tree, and no error has been
/// met.
pub open spec fn steady(s: MState) -> bool {
    &&& wf_state(s)
    &&& forall|k: int| 0 <= k < s.frames.len() ==> mappings_and_text(#[trigger] s.frames[k])
    &&& match s.phase {
        PhaseV::AwaitRemove { name, node } => spec_name_check(name)
            == NameCheck::Valid && mapping_or_text(node),
        PhaseV::AwaitWriteFile { .. } => true,
        PhaseV::AwaitCreateDir { children, .. } => mappings_and_text(children),
        PhaseV::AwaitEnter { children, .. } => mappings_and_text(children),
        PhaseV::AwaitLeave => true,
        PhaseV::Finished => true,
        _ => false,
    }
}

/// Taking up the next entry of a tree of mappings and text raises no error,
/// and what it leaves pending is such a tree again.
proof fn lemma_advance_steady(frames: Seq<Seq<Entry>>, cursor: Seq<Seq<char>>)
    requires
        frames.len() == cursor.len() + 1,
        forall|k: int| 0 <= k < frames.len() ==> mappings_and_text(#[trigger] frames[k]),
    ensures
        ({
            let (s2, st) = spec_advance(frames, cursor);
            steady(s2) && (st is Done ==> st == StepV::Done(Ok::<(), ErrorV>(())))
        }),
{
    let top = frames.last();
    assert(mappings_and_text(top));
    if top.len() > 0 {
        let rest = top.drop_first();
        assert(mappings_and_text(rest)) by {
            assert forall|i: int| 0 <= i < rest.len() implies {
                &&& spec_name_check((#[trigger] rest[i]).name@) == NameCheck::Valid
                &&& mapping_or_text(rest[i].node)
            } by {
                assert(rest[i] == top[i + 1]);
            }
        }
        let frames2 = frames.update(frames.len() - 1, rest);
        assert forall|k: int| 0 <= k < frames2.len() implies mappings_and_text(
            #[trigger] frames2[k],
        ) by {
            if k != frames.len() - 1 {
                assert(frames2[k] == frames[k]);
            }
        }
        assert(spec_name_check(top[0].name@) == NameCheck::Valid);
    }
}

/// One step of materializing a tree of mappings and text, answered by a
/// driver whose operations succeed (a directory creation may find the
/// directory already there), raises no error: the run can only end in
/// success.
pub proof fn lemma_mapping_text_step_cannot_fail(s: MState, e: EventV)
    requires
        steady(s),
        !(s.phase is Finished),
        crate::machine::event_fits(s.phase, e),
        cooperative_event(s.phase, e),
    ensures
        ({
            let (s2, st) = spec_step(s, e);
            steady(s2) && (st is Done ==> st == StepV::Done(Ok::<(), ErrorV>(())))
        }),
{
    match s.phase {
        PhaseV::AwaitRemove { name, node } => {
            match node {
                Node::Dir(children) => {
                    assert(mappings_and_text(children@));
                },
                _ => {
                },
            }
        },
        PhaseV::AwaitWriteFile { .. } => {
            lemma_advance_steady(s.frames, s.cursor);
        },
        PhaseV::AwaitCreateDir { .. } => {
        },
        PhaseV::AwaitEnter { name, children } => {
            let frames2 = s.frames.push(children);
            assert forall|k: int| 0 <= k < frames2.len() implies mappings_and_text(
                #[trigger] frames2[k],
            ) by {
                if k < s.frames.len() {
                    assert(frames2[k] == s.frames[k]);
                }
            }
            lemma_advance_steady(frames2, s.cursor.push(name));
        },
        PhaseV::AwaitLeave => {
            let frames2 = s.frames.drop_last();
            assert forall|k: int| 0 <= k < frames2.len() implies mappings_and_text(
                #[trigger] frames2[k],
            ) by {
                assert(frames2[k] == s.frames[k]);
            }
            lemma_advance_steady(frames2, s.cursor.drop_last());
        },
        _ => {
        },
    }
}

/// Every event of the run answers the action the machine is waiting for and
/// reports success, except that a directory creation may find the directory
/// already there.
pub open spec fn run_cooperative(s: MState, st: StepV, events: Seq<EventV>) -> bool
    decreases events.len(),
{
    if st is Done || events.len() == 0 {
        true
    } else {
        &&& crate::machine::event_fits(s.phase, events.first())
        &&& cooperative_event(s.phase, events.first())
        &&& ({
            let (s2, st2) = spec_step(s, events.first());
            run_cooperative(s2, st2, events.drop_first())
        })
    }
}

/// Over a whole run: a tree of mappings and text, materialized by a driver
/// whose operations succeed (directory creations may find their directory
/// already there), never fails — whenever the machine reports the run's
/// result, the result is success. With
/// [`lemma_interchangeable_runs_same_answers`], this is why materializing
/// such a tree twice succeeds both times.
pub proof fn lemma_mapping_text_run_succeeds(s: MState, st: StepV, events: Seq<EventV>)
    requires
        steady(s),
        st is Done ==> st == StepV::Done(Ok::<(), ErrorV>(())),
        run_cooperative(s, st, events),
    ensures
        ({
            let (sf, stf) = run_final(s, st, events);
            stf is Done ==> stf == StepV::Done(Ok::<(), ErrorV>(()))
        }),
    decreases events.len(),
{
    if !(st is Done) && events.len() > 0 {
        let e = events.first();
        if !(s.phase is Finished) {
            let (s2, st2) = spec_step(s, e);
            lemma_mapping_text_step_cannot_fail(s, e);
            lemma_mapping_text_run_succeeds(s2, st2, events.drop_first());
        }
    }
}

/// A fresh materialization of a tree of mappings and text starts steady: its
/// machine is in a state [`lemma_mapping_text_run_succeeds`] speaks of, and
/// an immediate result is success.
pub proof fn lemma_mapping_text_new_steady(root: Seq<Entry>)
    requires
        mappings_and_text(root),
    ensures
        steady(spec_new(root).0),
        spec_new(root).1 is Done ==> spec_new(root).1 == StepV::Done(Ok::<(), ErrorV>(())),
{
    let frames = seq![root];
    assert forall|k: int| 0 <= k < frames.len() implies mappings_and_text(
        #[trigger] frames[k],
    ) by {
        assert(frames[k] == root);
    }
    lemma_advance_steady(frames, Seq::empty());
}

} // verus!
