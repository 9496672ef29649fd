//! The shortcuts that are listened for, and the listener of one device, which
//! turns key events into the events of shortcuts.

use crate::active_keys::ActiveKeySet;
use crate::event::{InputEvent, ShortcutEvent, ShortcutEventView, ShortcutState};
use crate::keycodes::Key;
use crate::shortcut::{Shortcut, ShortcutView};
use crate::shortcut_set::ShortcutSet;
use vstd::prelude::*;

verus! {

/// The shortcuts that are listened for, in the order in which they were added.
/// No shortcut stands among them twice.
#[derive(Debug)]
pub struct ShortcutListener {
    shortcuts: ShortcutSet,
}

impl View for ShortcutListener {
    type V = Seq<ShortcutView>;

    closed spec fn view(&self) -> Seq<ShortcutView> {
        self.shortcuts@
    }
}

impl ShortcutListener {
    /// A listener that listens for no shortcut yet.
    pub fn new() -> (listener: Self)
        ensures
            listener@ == Seq::<ShortcutView>::empty(),
    {
        ShortcutListener { shortcuts: ShortcutSet::new() }
    }

    /// Adds a shortcut to listen for. Adding one that is there already changes
    /// nothing.
    pub fn add(&mut self, shortcut: Shortcut)
        ensures
            final(self)@ == if old(self)@.contains(shortcut@) {
                old(self)@
            } else {
                old(self)@.push(shortcut@)
            },
            final(self)@.no_duplicates(),
    {
        self.shortcuts.insert(shortcut);
    }

    /// Stops listening for a shortcut. Removing one that is not there changes
    /// nothing.
    pub fn remove(&mut self, shortcut: Shortcut)
        ensures
            final(self)@ == if old(self)@.contains(shortcut@) {
                old(self)@.remove(old(self)@.index_of(shortcut@))
            } else {
                old(self)@
            },
            !final(self)@.contains(shortcut@),
            final(self)@.no_duplicates(),
    {
        self.shortcuts.remove(&shortcut);
    }

    /// Whether the shortcut is listened for.
    pub fn has(&self, shortcut: &Shortcut) -> (found: bool)
        ensures
            found == self@.contains(shortcut@),
    {
        self.shortcuts.contains(shortcut)
    }

    /// The shortcuts that are listened for.
    pub fn shortcuts(&self) -> (shortcuts: &ShortcutSet)
        ensures
            shortcuts@ == self@,
            self@.no_duplicates(),
    {
        let len = self.shortcuts.len();
        &self.shortcuts
    }
}

impl Clone for ShortcutListener {
    fn clone(&self) -> (copy: Self)
        ensures
            copy@ == self@,
    {
        ShortcutListener { shortcuts: self.shortcuts.clone() }
    }
}

/// The keys that are held down after one more event: a key with value 1 is
/// now held down, one with value 0 no longer; every other value, and every
/// code that is no key's, changes nothing.
pub open spec fn apply_event(active: Set<Key>, event: InputEvent) -> Set<Key> {
    match Key::spec_from_code(event.code) {
        Some(key) => if event.value == 1 {
            active.insert(key)
        } else if event.value == 0 {
            active.remove(key)
        } else {
            active
        },
        None => active,
    }
}

/// The keys that are held down after a batch of events, taken in order.
pub open spec fn apply_events(active: Set<Key>, events: Seq<InputEvent>) -> Set<Key>
    decreases events.len(),
{
    if events.len() == 0 {
        active
    } else {
        apply_event(apply_events(active, events.drop_last()), events.last())
    }
}

/// The event that a shortcut gives when the keys in `active` are held down and
/// `pressed` holds the shortcuts that were triggered before: `Pressed` when it
/// was not triggered and now is, `Released` when it was and no longer is, and
/// none when nothing changed for it.
pub open spec fn transition(
    shortcut: ShortcutView,
    pressed: Set<ShortcutView>,
    active: Set<Key>,
) -> Option<ShortcutEventView> {
    if shortcut.is_triggered(active) && !pressed.contains(shortcut) {
        Some(ShortcutEventView { shortcut, state: ShortcutState::Pressed })
    } else if !shortcut.is_triggered(active) && pressed.contains(shortcut) {
        Some(ShortcutEventView { shortcut, state: ShortcutState::Released })
    } else {
        None
    }
}

/// The events that the shortcuts give, in the order of the shortcuts.
pub open spec fn transitions(
    shortcuts: Seq<ShortcutView>,
    pressed: Set<ShortcutView>,
    active: Set<Key>,
) -> Seq<ShortcutEventView>
    decreases shortcuts.len(),
{
    if shortcuts.len() == 0 {
        Seq::empty()
    } else {
        let before = transitions(shortcuts.drop_last(), pressed, active);
        match transition(shortcuts.last(), pressed, active) {
            Some(event) => before.push(event),
            None => before,
        }
    }
}

/// The shortcuts that count as triggered once `shortcuts` have been looked at:
/// of these, the ones that the keys in `active` trigger; of all others, the
/// ones that counted as triggered before.
pub open spec fn pressed_after(
    shortcuts: Seq<ShortcutView>,
    pressed: Set<ShortcutView>,
    active: Set<Key>,
) -> Set<ShortcutView> {
    Set::new(
        |shortcut: ShortcutView|
            if shortcuts.contains(shortcut) {
                shortcut.is_triggered(active)
            } else {
                pressed.contains(shortcut)
            },
    )
}

/// What a device listener knows: the keys that are held down on its device,
/// and the shortcuts that its last look found triggered.
pub struct DeviceListenerView {
    pub active: Set<Key>,
    pub pressed: Set<ShortcutView>,
}

impl DeviceListenerView {
    /// The listener of a device on which no key is held down yet.
    pub open spec fn start() -> DeviceListenerView {
        DeviceListenerView { active: Set::empty(), pressed: Set::empty() }
    }

    /// The listener after a batch of events, with `shortcuts` listened for. An
    /// empty batch changes nothing.
    pub open spec fn after(
        self,
        events: Seq<InputEvent>,
        shortcuts: Seq<ShortcutView>,
    ) -> DeviceListenerView {
        if events.len() == 0 {
            self
        } else {
            let active = apply_events(self.active, events);
            DeviceListenerView { active, pressed: pressed_after(shortcuts, self.pressed, active) }
        }
    }

    /// The events that a batch of events gives, with `shortcuts` listened for.
    /// An empty batch gives none.
    pub open spec fn emitted(
        self,
        events: Seq<InputEvent>,
        shortcuts: Seq<ShortcutView>,
    ) -> Seq<ShortcutEventView> {
        if events.len() == 0 {
            Seq::empty()
        } else {
            transitions(shortcuts, self.pressed, apply_events(self.active, events))
        }
    }
}

/// The listener of one device: it follows which keys are held down and
/// remembers which shortcuts were triggered, so that each change is reported
/// once.
#[derive(Debug)]
pub struct DeviceListener {
    active_keys: ActiveKeySet,
    pressed: ShortcutSet,
}

impl View for DeviceListener {
    type V = DeviceListenerView;

    closed spec fn view(&self) -> DeviceListenerView {
        DeviceListenerView { active: self.active_keys@, pressed: self.pressed@.to_set() }
    }
}

/// What each of the events is, in order.
pub open spec fn event_views(events: Seq<ShortcutEvent>) -> Seq<ShortcutEventView> {
    events.map_values(|event: ShortcutEvent| event@)
}

impl DeviceListener {
    /// The listener of a device on which no key is held down yet.
    pub fn new() -> (listener: Self)
        ensures
            listener@ == DeviceListenerView::start(),
    {
        let listener = DeviceListener { active_keys: ActiveKeySet::new(), pressed: ShortcutSet::new() };
        assert(listener.pressed@.to_set() =~= Set::<ShortcutView>::empty());
        listener
    }

    /// The keys that are held down.
    pub fn active_keys(&self) -> (active_keys: &ActiveKeySet)
        ensures
            active_keys@ == self@.active,
    {
        &self.active_keys
    }

    /// Whether the last look found the shortcut triggered.
    pub fn is_pressed(&self, shortcut: &Shortcut) -> (pressed: bool)
        ensures
            pressed == self@.pressed.contains(shortcut@),
    {
        self.pressed.contains(shortcut)
    }

    /// Takes one event in: see [`apply_event`].
    pub fn apply(&mut self, event: InputEvent)
        ensures
            final(self)@.active == apply_event(old(self)@.active, event),
            final(self)@.pressed == old(self)@.pressed,
    {
        if let Some(key) = Key::from_code(event.code) {
            if event.value == 1 {
                self.active_keys.insert(key);
            } else if event.value == 0 {
                self.active_keys.remove(key);
            }
        }
    }

    /// Takes a batch of events in and looks at every shortcut that is listened
    /// for. Gives the events of the shortcuts whose state changed, in the order
    /// of the shortcuts. An empty batch changes nothing and gives no event.
    pub fn handle_events(&mut self, events: &[InputEvent], listener: &ShortcutListener) -> (emitted:
        Vec<ShortcutEvent>)
        ensures
            final(self)@ == old(self)@.after(events@, listener@),
            event_views(emitted@) == old(self)@.emitted(events@, listener@),
    {
        let mut emitted: Vec<ShortcutEvent> = Vec::new();
        if events.len() == 0 {
            assert(event_views(emitted@) == Seq::<ShortcutEventView>::empty());
            return emitted;
        }
        let mut i: usize = 0;
        while i < events.len()
            invariant
                i <= events@.len(),
                self@.active == apply_events(old(self)@.active, events@.take(i as int)),
                self@.pressed == old(self)@.pressed,
            decreases events@.len() - i,
        {
            assert(events@.take(i + 1).drop_last() == events@.take(i as int));
            self.apply(events[i]);
            i += 1;
        }
        assert(events@.take(i as int) == events@);
        let shortcuts = listener.shortcuts();
        let ghost before = old(self)@.pressed;
        let ghost active = self@.active;
        let mut j: usize = 0;
        assert(self@.pressed =~= pressed_after(shortcuts@.take(0), before, active));
        while j < shortcuts.len()
            invariant
                j <= shortcuts@.len(),
                shortcuts@.no_duplicates(),
                self@.active == active,
                self@.pressed == pressed_after(shortcuts@.take(j as int), before, active),
                event_views(emitted@) == transitions(shortcuts@.take(j as int), before, active),
            decreases shortcuts@.len() - j,
        {
            let shortcut = shortcuts.get(j);
            let triggered = shortcut.is_triggered(&self.active_keys);
            let was_triggered = self.pressed.contains(shortcut);
            let ghost looked_at = shortcuts@.take(j as int);
            let ghost now = shortcuts@.take(j + 1);
            let ghost emitted_before = emitted@;
            proof {
                assert(now.drop_last() == looked_at);
                assert(now.last() == shortcut@);
                assert(!looked_at.contains(shortcut@)) by {
                    if looked_at.contains(shortcut@) {
                        let k = choose|k: int| 0 <= k < looked_at.len() && looked_at[k] == shortcut@;
                        assert(shortcuts@[k] == shortcuts@[j as int]);
                    }
                }
                assert(self@.pressed.contains(shortcut@) == self.pressed@.contains(shortcut@));
                assert(pressed_after(looked_at, before, active).contains(shortcut@)
                    == before.contains(shortcut@));
                assert(was_triggered == before.contains(shortcut@));
            }
            if triggered && !was_triggered {
                self.pressed.insert(shortcut.clone());
                let event = ShortcutEvent { shortcut: shortcut.clone(), state: ShortcutState::Pressed };
                emitted.push(event);
                assert(event_views(emitted@) == event_views(emitted_before).push(event@));
            } else if !triggered && was_triggered {
                self.pressed.remove(shortcut);
                let event = ShortcutEvent { shortcut: shortcut.clone(), state: ShortcutState::Released };
                emitted.push(event);
                assert(event_views(emitted@) == event_views(emitted_before).push(event@));
            }
            proof {
                assert forall|other: ShortcutView|
                    self@.pressed.contains(other) == pressed_after(now, before, active).contains(
                        other,
                    ) by {
                    if other != shortcut@ {
                        assert(now.contains(other) == looked_at.contains(other)) by {
                            if now.contains(other) {
                                let k = choose|k: int| 0 <= k < now.len() && now[k] == other;
                                assert(looked_at[k] == other);
                            }
                            if looked_at.contains(other) {
                                let k = choose|k: int| 0 <= k < looked_at.len() && looked_at[k] == other;
                                assert(now[k] == other);
                            }
                        }
                    } else {
                        assert(now[j as int] == other);
                    }
                }
                assert(self@.pressed =~= pressed_after(now, before, active));
            }
            j += 1;
        }
        assert(shortcuts@.take(j as int) == shortcuts@);
        emitted
    }
}

} // verus!
