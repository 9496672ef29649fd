//! Edge triggering: over any run of a device listener, the events of one
//! shortcut go back and forth between `Pressed` and `Released`.

use crate::event::{InputEvent, ShortcutEventView, ShortcutState};
use crate::keycodes::Key;
use crate::listener::{pressed_after, transition, transitions, DeviceListenerView};
use crate::shortcut::ShortcutView;
use vstd::prelude::*;

verus! {

/// One step of a device listener: a batch of events, and the shortcuts that are
/// listened for when it comes in.
pub struct Step {
    pub events: Seq<InputEvent>,
    pub shortcuts: Seq<ShortcutView>,
}

/// The listener after a run of steps.
pub open spec fn run(start: DeviceListenerView, steps: Seq<Step>) -> DeviceListenerView
    decreases steps.len(),
{
    if steps.len() == 0 {
        start
    } else {
        run(start, steps.drop_last()).after(steps.last().events, steps.last().shortcuts)
    }
}

/// All the events that a run of steps gives, in order.
pub open spec fn run_emitted(start: DeviceListenerView, steps: Seq<Step>) -> Seq<ShortcutEventView>
    decreases steps.len(),
{
    if steps.len() == 0 {
        Seq::empty()
    } else {
        run_emitted(start, steps.drop_last()) + run(start, steps.drop_last()).emitted(
            steps.last().events,
            steps.last().shortcuts,
        )
    }
}

/// The states that the events report of one shortcut, in order.
pub open spec fn states_of(events: Seq<ShortcutEventView>, shortcut: ShortcutView) -> Seq<
    ShortcutState,
>
    decreases events.len(),
{
    if events.len() == 0 {
        Seq::empty()
    } else {
        let before = states_of(events.drop_last(), shortcut);
        if events.last().shortcut == shortcut {
            before.push(events.last().state)
        } else {
            before
        }
    }
}

/// The state that is reported when a shortcut is, or is not, triggered.
pub open spec fn state_of(triggered: bool) -> ShortcutState {
    if triggered {
        ShortcutState::Pressed
    } else {
        ShortcutState::Released
    }
}

/// The states lead from `before` to `after` by turns: each one reports the
/// opposite of what held before it, and the last one reports `after`. With no
/// state at all, `before` and `after` are the same.
pub open spec fn alternating(states: Seq<ShortcutState>, before: bool, after: bool) -> bool
    decreases states.len(),
{
    if states.len() == 0 {
        before == after
    } else {
        states.last() == state_of(after) && alternating(states.drop_last(), before, !after)
    }
}

/// The states of one shortcut in two runs of events, one after the other.
pub proof fn lemma_states_of_concat(
    a: Seq<ShortcutEventView>,
    b: Seq<ShortcutEventView>,
    shortcut: ShortcutView,
)
    ensures
        states_of(a + b, shortcut) == states_of(a, shortcut) + states_of(b, shortcut),
    decreases b.len(),
{
    if b.len() == 0 {
        assert(a + b == a);
    } else {
        lemma_states_of_concat(a, b.drop_last(), shortcut);
        assert((a + b).drop_last() == a + b.drop_last());
    }
}

/// States that lead by turns from `before` to `between`, and more that lead by
/// turns from there to `after`, lead by turns from `before` to `after`.
pub proof fn lemma_alternating_concat(
    a: Seq<ShortcutState>,
    b: Seq<ShortcutState>,
    before: bool,
    between: bool,
    after: bool,
)
    requires
        alternating(a, before, between),
        alternating(b, between, after),
    ensures
        alternating(a + b, before, after),
    decreases b.len(),
{
    if b.len() == 0 {
        assert(a + b == a);
    } else {
        lemma_alternating_concat(a, b.drop_last(), before, between, !after);
        assert((a + b).drop_last() == a + b.drop_last());
    }
}

/// Among the events of one look at the shortcuts, a shortcut has at most one:
/// its own transition if it is listened for, none if it is not.
pub proof fn lemma_states_of_transitions(
    shortcuts: Seq<ShortcutView>,
    pressed: Set<ShortcutView>,
    active: Set<Key>,
    shortcut: ShortcutView,
)
    requires
        shortcuts.no_duplicates(),
    ensures
        states_of(transitions(shortcuts, pressed, active), shortcut) == if shortcuts.contains(
            shortcut,
        ) {
            match transition(shortcut, pressed, active) {
                Some(event) => seq![event.state],
                None => Seq::empty(),
            }
        } else {
            Seq::empty()
        },
    decreases shortcuts.len(),
{
    if shortcuts.len() > 0 {
        let before = shortcuts.drop_last();
        let last = shortcuts.last();
        lemma_states_of_transitions(before, pressed, active, shortcut);
        let events_before = transitions(before, pressed, active);
        assert(shortcuts.contains(shortcut) <==> before.contains(shortcut) || last == shortcut) by {
            if before.contains(shortcut) {
                let k = choose|k: int| 0 <= k < before.len() && before[k] == shortcut;
                assert(shortcuts[k] == shortcut);
            }
            if shortcuts.contains(shortcut) {
                let k = choose|k: int| 0 <= k < shortcuts.len() && shortcuts[k] == shortcut;
                if k < shortcuts.len() - 1 {
                    assert(before[k] == shortcut);
                }
            }
        }
        assert(!(before.contains(shortcut) && last == shortcut)) by {
            if before.contains(shortcut) && last == shortcut {
                let k = choose|k: int| 0 <= k < before.len() && before[k] == shortcut;
                assert(shortcuts[k] == shortcuts[shortcuts.len() - 1]);
            }
        }
        match transition(last, pressed, active) {
            Some(event) => {
                assert(events_before.push(event).drop_last() == events_before);
            },
            None => {},
        }
    }
}

/// After a batch that is not empty, a shortcut that is listened for counts as
/// triggered exactly when the keys that are held down trigger it.
pub proof fn lemma_pressed_follows_match(
    state: DeviceListenerView,
    step: Step,
    shortcut: ShortcutView,
)
    requires
        step.events.len() > 0,
        step.shortcuts.contains(shortcut),
    ensures
        ({
            let after = state.after(step.events, step.shortcuts);
            after.pressed.contains(shortcut) == shortcut.is_triggered(after.active)
        }),
{
}

/// One step takes a shortcut from what it was to what it is by turns: with no
/// event if nothing changed for it, with one event that reports the new state
/// if something did.
pub proof fn lemma_step_alternates(
    state: DeviceListenerView,
    step: Step,
    shortcut: ShortcutView,
)
    requires
        step.shortcuts.no_duplicates(),
    ensures
        alternating(
            states_of(state.emitted(step.events, step.shortcuts), shortcut),
            state.pressed.contains(shortcut),
            state.after(step.events, step.shortcuts).pressed.contains(shortcut),
        ),
{
    let was = state.pressed.contains(shortcut);
    let is = state.after(step.events, step.shortcuts).pressed.contains(shortcut);
    let states = states_of(state.emitted(step.events, step.shortcuts), shortcut);
    if step.events.len() > 0 {
        let active = state.after(step.events, step.shortcuts).active;
        lemma_states_of_transitions(step.shortcuts, state.pressed, active, shortcut);
        assert(is == pressed_after(step.shortcuts, state.pressed, active).contains(shortcut));
        if states.len() > 0 {
            assert(states.drop_last() == Seq::<ShortcutState>::empty());
            assert(alternating(states.drop_last(), was, !is));
        }
    }
}

/// Edge triggering. Over any run of steps, the events of one shortcut lead by
/// turns from what the shortcut was at the start to what it is at the end: no
/// `Pressed` follows a `Pressed` and no `Released` a `Released`, and for a
/// listener that starts with nothing held down the first event is `Pressed`.
pub proof fn lemma_events_alternate(
    start: DeviceListenerView,
    steps: Seq<Step>,
    shortcut: ShortcutView,
)
    requires
        forall|i: int| 0 <= i < steps.len() ==> (#[trigger] steps[i]).shortcuts.no_duplicates(),
    ensures
        alternating(
            states_of(run_emitted(start, steps), shortcut),
            start.pressed.contains(shortcut),
            run(start, steps).pressed.contains(shortcut),
        ),
    decreases steps.len(),
{
    if steps.len() > 0 {
        let before = steps.drop_last();
        let last = steps.last();
        assert forall|i: int| 0 <= i < before.len() implies (#[trigger] before[i]).shortcuts.no_duplicates() by {
            assert(steps[i].shortcuts.no_duplicates());
        }
        lemma_events_alternate(start, before, shortcut);
        let state = run(start, before);
        assert(steps[steps.len() - 1].shortcuts.no_duplicates());
        lemma_step_alternates(state, last, shortcut);
        lemma_states_of_concat(
            run_emitted(start, before),
            state.emitted(last.events, last.shortcuts),
            shortcut,
        );
        lemma_alternating_concat(
            states_of(run_emitted(start, before), shortcut),
            states_of(state.emitted(last.events, last.shortcuts), shortcut),
            start.pressed.contains(shortcut),
            state.pressed.contains(shortcut),
            run(start, steps).pressed.contains(shortcut),
        );
    }
}

/// While a shortcut stays triggered over a step, the step gives no event for
/// it: a key combination that is held gives `Pressed` once.
pub proof fn lemma_held_gives_no_event(
    state: DeviceListenerView,
    step: Step,
    shortcut: ShortcutView,
)
    requires
        step.shortcuts.no_duplicates(),
        state.pressed.contains(shortcut),
        state.after(step.events, step.shortcuts).pressed.contains(shortcut),
    ensures
        states_of(state.emitted(step.events, step.shortcuts), shortcut) == Seq::<
            ShortcutState,
        >::empty(),
{
    lemma_step_alternates(state, step, shortcut);
    let states = states_of(state.emitted(step.events, step.shortcuts), shortcut);
    if states.len() > 0 {
        assert(alternating(states.drop_last(), true, false));
        if step.events.len() > 0 {
            let active = state.after(step.events, step.shortcuts).active;
            lemma_states_of_transitions(step.shortcuts, state.pressed, active, shortcut);
        }
    }
}

} // verus!
