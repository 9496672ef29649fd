//! Global keyboard shortcuts: the shortcut value model and its text grammar,
//! exact matching of a shortcut against the keys held down on one device,
//! edge-triggered press/release events, and the registration rules of the
//! shortcut daemon.

pub mod active_keys;
pub mod edges;
pub mod error;
pub mod event;
pub mod identifier;
pub mod key_names;
pub mod keycodes;
pub mod listener;
pub mod matcher;
pub mod modifier;
pub mod modifier_list;
pub mod register;
pub mod shortcut;
pub mod shortcut_set;
pub mod supervisor;
pub mod text;

pub use active_keys::ActiveKeySet;
pub use error::{ParseError, QuotaExceeded, RegisterError};
pub use event::{InputEvent, ShortcutEvent, ShortcutState};
pub use keycodes::Key;
pub use listener::{DeviceListener, ShortcutListener};
pub use modifier::Modifier;
pub use modifier_list::ModifierList;
pub use register::{Notification, Register, MAX_BARE, REGISTER_PATH, SERVICE_NAME};
pub use shortcut::Shortcut;
pub use shortcut_set::ShortcutSet;
pub use supervisor::{after_run, keyboards_ready, Next, RunEnd, RESTART_DELAY_SECS, TICK_MILLIS};
