//! The registration service: which shortcuts are registered, under which
//! path each one is notified, and the quota of bare shortcuts.

use crate::error::{QuotaExceeded, RegisterError};
use crate::event::{ShortcutEvent, ShortcutState};
use crate::listener::ShortcutListener;
use crate::shortcut::{is_shortcut_text, parse_error, shortcut_of, Shortcut, ShortcutView};
use vstd::prelude::*;

verus! {

/// How many bare shortcuts may be registered at the same time. A bare
/// shortcut reports every press of a plain key, which is what a keylogger
/// wants: this quota is what keeps the service from being one.
pub const MAX_BARE: usize = 3;

/// The name under which the service is known on the bus.
pub const SERVICE_NAME: &'static str = "nl.icewind.shortcutd";

/// The path at which shortcuts are registered.
pub const REGISTER_PATH: &'static str = "/register";

/// The predicate that picks the bare shortcuts.
pub open spec fn bare() -> spec_fn(ShortcutView) -> bool {
    |shortcut: ShortcutView| shortcut.is_bare()
}

/// The number of bare shortcuts among the given ones.
pub open spec fn bare_count_of(shortcuts: Seq<ShortcutView>) -> nat {
    shortcuts.filter(bare()).len()
}

/// Whether the quota stands against registering `shortcut`: it is bare, it is
/// not registered yet, and as many bare shortcuts are registered as may be.
pub open spec fn quota_reached(shortcuts: Seq<ShortcutView>, shortcut: ShortcutView) -> bool {
    shortcut.is_bare() && !shortcuts.contains(shortcut) && bare_count_of(shortcuts) >= MAX_BARE
}

/// The registered shortcuts once `shortcut` is registered too: it comes last if
/// it is new, and nothing changes if it is not.
pub open spec fn with_shortcut(shortcuts: Seq<ShortcutView>, shortcut: ShortcutView) -> Seq<
    ShortcutView,
> {
    if shortcuts.contains(shortcut) {
        shortcuts
    } else {
        shortcuts.push(shortcut)
    }
}

/// The path of the endpoint that notifies of a shortcut: `/` and its identifier.
pub open spec fn endpoint_path(shortcut: ShortcutView) -> Seq<char> {
    seq!['/'] + shortcut.identifier()
}

/// What is sent when a shortcut changes its state: `Triggered(pressed)` on the
/// endpoint at `path`.
#[derive(Debug)]
pub struct Notification {
    pub path: String,
    pub pressed: bool,
}

/// The registration service. It holds the shortcuts that are listened for and
/// counts the bare ones among them.
#[derive(Debug)]
pub struct Register {
    listener: ShortcutListener,
    bare_count: usize,
}

impl View for Register {
    type V = Seq<ShortcutView>;

    closed spec fn view(&self) -> Seq<ShortcutView> {
        self.listener@
    }
}

impl Register {
    #[verifier::type_invariant]
    spec fn counted(self) -> bool {
        &&& self.bare_count == bare_count_of(self.listener@)
        &&& self.bare_count <= MAX_BARE
        &&& self.listener@.no_duplicates()
    }

    /// A service with no shortcut registered.
    pub fn new() -> (register: Self)
        ensures
            register@ == Seq::<ShortcutView>::empty(),
    {
        proof {
            reveal(Seq::filter);
        }
        Register { listener: ShortcutListener::new(), bare_count: 0 }
    }

    /// The shortcuts that are registered.
    pub fn listener(&self) -> (listener: &ShortcutListener)
        ensures
            listener@ == self@,
    {
        &self.listener
    }

    /// The number of bare shortcuts that are registered. It never goes over
    /// [`MAX_BARE`], and no shortcut is registered twice.
    pub fn bare_count(&self) -> (count: usize)
        ensures
            count == bare_count_of(self@),
            count <= MAX_BARE,
            self@.no_duplicates(),
    {
        proof {
            use_type_invariant(self);
        }
        self.bare_count
    }

    /// Whether the shortcut is registered.
    pub fn has(&self, shortcut: &Shortcut) -> (found: bool)
        ensures
            found == self@.contains(shortcut@),
    {
        self.listener.has(shortcut)
    }

    /// Registers a shortcut, unless the quota stands against it. Registering a
    /// shortcut that is registered already changes nothing and succeeds.
    pub fn register_shortcut(&mut self, shortcut: Shortcut) -> (registered: Result<
        (),
        QuotaExceeded,
    >)
        ensures
            registered is Err <==> quota_reached(old(self)@, shortcut@),
            final(self)@ == if registered is Ok {
                with_shortcut(old(self)@, shortcut@)
            } else {
                old(self)@
            },
            final(self)@ == after_registering(old(self)@, shortcut@),
    {
        proof {
            use_type_invariant(&*self);
        }
        let is_new = !self.listener.has(&shortcut);
        let counts = shortcut.is_bare() && is_new;
        if counts && self.bare_count >= MAX_BARE {
            return Err(QuotaExceeded);
        }
        let mut taken = Register::new();
        std::mem::swap(self, &mut taken);
        let Register { mut listener, bare_count } = taken;
        proof {
            listener@.lemma_filter_len_push(bare(), shortcut@);
        }
        listener.add(shortcut);
        *self = Register { listener, bare_count: if counts { bare_count + 1 } else { bare_count } };
        Ok(())
    }

    /// Registers the shortcut that a text stands for, and gives the path of the
    /// endpoint that notifies of it. A text that is not canonical is refused,
    /// and so is a shortcut that the quota stands against; both leave the
    /// registered shortcuts as they are.
    pub fn register(&mut self, text: &str) -> (registered: Result<String, RegisterError>)
        ensures
            match registered {
                Ok(path) => {
                    &&& shortcut_of(text@) matches Some(shortcut)
                    &&& !quota_reached(old(self)@, shortcut)
                    &&& final(self)@ == with_shortcut(old(self)@, shortcut)
                    &&& path@ == endpoint_path(shortcut)
                },
                Err(RegisterError::Malformed(e)) => {
                    &&& !is_shortcut_text(text@)
                    &&& e == parse_error(text@)
                    &&& final(self)@ == old(self)@
                },
                Err(RegisterError::QuotaExceeded) => {
                    &&& shortcut_of(text@) matches Some(shortcut)
                    &&& quota_reached(old(self)@, shortcut)
                    &&& final(self)@ == old(self)@
                },
            },
    {
        let shortcut = match Shortcut::parse(text) {
            Ok(shortcut) => shortcut,
            Err(e) => {
                return Err(RegisterError::Malformed(e));
            },
        };
        let path = Register::path_of(&shortcut);
        match self.register_shortcut(shortcut) {
            Ok(()) => Ok(path),
            Err(_) => Err(RegisterError::QuotaExceeded),
        }
    }

    /// The path of the endpoint that notifies of a shortcut.
    pub fn path_of(shortcut: &Shortcut) -> (path: String)
        ensures
            path@ == endpoint_path(shortcut@),
    {
        let mut path = String::new();
        proof {
            reveal_strlit("/");
            assert("/"@ == seq!['/']);
        }
        path.append("/");
        path.append(shortcut.identifier().as_str());
        path
    }

    /// What is to be sent for an event: a notification on the endpoint of the
    /// shortcut if the shortcut is registered, nothing if it is not.
    pub fn notification(&self, event: &ShortcutEvent) -> (notification: Option<Notification>)
        ensures
            match notification {
                Some(n) => {
                    &&& self@.contains(event@.shortcut)
                    &&& n.path@ == endpoint_path(event@.shortcut)
                    &&& n.pressed == (event@.state == ShortcutState::Pressed)
                },
                None => !self@.contains(event@.shortcut),
            },
    {
        if self.listener.has(&event.shortcut) {
            Some(
                Notification {
                    path: Register::path_of(&event.shortcut),
                    pressed: event.state.is_pressed(),
                },
            )
        } else {
            None
        }
    }
}

/// The registered shortcuts after a registration was asked for: unchanged if
/// the quota stands against it, with the shortcut among them if not.
pub open spec fn after_registering(shortcuts: Seq<ShortcutView>, shortcut: ShortcutView) -> Seq<
    ShortcutView,
> {
    if quota_reached(shortcuts, shortcut) {
        shortcuts
    } else {
        with_shortcut(shortcuts, shortcut)
    }
}

/// A registration counts when, and only when, it brings in a bare shortcut
/// that was not there.
pub proof fn lemma_bare_count_after(shortcuts: Seq<ShortcutView>, shortcut: ShortcutView)
    ensures
        bare_count_of(with_shortcut(shortcuts, shortcut)) == bare_count_of(shortcuts) + if shortcut.is_bare()
            && !shortcuts.contains(shortcut) {
            1nat
        } else {
            0nat
        },
{
    shortcuts.lemma_filter_len_push(bare(), shortcut);
}

/// The quota never stands against a shortcut with a modifier, however many
/// bare shortcuts are registered.
pub proof fn lemma_quota_spares_modifiers(shortcuts: Seq<ShortcutView>, shortcut: ShortcutView)
    requires
        !shortcut.is_bare(),
    ensures
        !quota_reached(shortcuts, shortcut),
        bare_count_of(after_registering(shortcuts, shortcut)) == bare_count_of(shortcuts),
{
    lemma_bare_count_after(shortcuts, shortcut);
}

/// The quota never stands against a shortcut that is registered already, and
/// registering it again changes neither the shortcuts nor the count.
pub proof fn lemma_quota_spares_registered(shortcuts: Seq<ShortcutView>, shortcut: ShortcutView)
    requires
        shortcuts.contains(shortcut),
    ensures
        !quota_reached(shortcuts, shortcut),
        after_registering(shortcuts, shortcut) == shortcuts,
{
}

/// A bare shortcut that is not registered yet is taken exactly while fewer
/// than [`MAX_BARE`] bare shortcuts are registered.
pub proof fn lemma_quota_of_bare(shortcuts: Seq<ShortcutView>, shortcut: ShortcutView)
    requires
        shortcut.is_bare(),
        !shortcuts.contains(shortcut),
    ensures
        quota_reached(shortcuts, shortcut) <==> bare_count_of(shortcuts) >= MAX_BARE,
        !quota_reached(shortcuts, shortcut) ==> bare_count_of(after_registering(shortcuts, shortcut))
            == bare_count_of(shortcuts) + 1,
{
    lemma_bare_count_after(shortcuts, shortcut);
}

/// Quota enforcement: whatever is asked for, no more than [`MAX_BARE`] bare
/// shortcuts are registered afterwards if no more were registered before, and
/// no shortcut stands among the registered ones twice.
pub proof fn lemma_quota_holds(shortcuts: Seq<ShortcutView>, shortcut: ShortcutView)
    requires
        bare_count_of(shortcuts) <= MAX_BARE,
        shortcuts.no_duplicates(),
    ensures
        bare_count_of(after_registering(shortcuts, shortcut)) <= MAX_BARE,
        after_registering(shortcuts, shortcut).no_duplicates(),
{
    lemma_bare_count_after(shortcuts, shortcut);
}

} // verus!
