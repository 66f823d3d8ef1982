use vstd::prelude::*;

use crate::hook::{frame_command, frame_last, FrameHook, FrameOutcome};
use crate::observation::Observation;
use crate::theme::{resolved, Theme, ThemePreference, FALLBACK_THEME};

verus! {

/// Whether the platform can watch the operating system's color scheme.
#[derive(Clone, Copy, Debug, PartialEq, Eq, Structural)]
pub enum WatcherKind {
    /// A settings source exists: a real watcher is spawned.
    Portal,
    /// No settings source: no watcher, the observation stays empty.
    Null,
}

/// The lifecycle of the engine's one application identity.
#[derive(Clone, Copy, Debug, PartialEq, Eq, Structural)]
pub enum GuardState {
    /// Nothing attached yet.
    Detached,
    /// The frame hook is attached; `watching` says whether a watcher task runs.
    Attached { watching: bool },
    /// The identity was torn down; nothing runs and nothing attaches again.
    TornDown,
}

/// What the host has to do after an attach request.
#[derive(Clone, Copy, Debug, PartialEq, Eq, Structural)]
pub struct AttachAction {
    /// Register the frame hook with the host framework.
    pub register_hook: bool,
    /// Spawn the background watcher task.
    pub spawn_watcher: bool,
}

pub open spec fn attach_step(guard: GuardState, kind: WatcherKind) -> (GuardState, AttachAction) {
    match guard {
        GuardState::Detached => {
            let watching = kind == WatcherKind::Portal;
            (
                GuardState::Attached { watching },
                AttachAction { register_hook: true, spawn_watcher: watching },
            )
        },
        _ => (guard, AttachAction { register_hook: false, spawn_watcher: false }),
    }
}

/// The state after teardown, and whether a running watcher must be cancelled.
pub open spec fn teardown_step(guard: GuardState) -> (GuardState, bool) {
    match guard {
        GuardState::Attached { watching } => (GuardState::TornDown, watching),
        _ => (GuardState::TornDown, false),
    }
}

/// The theme synchronization engine of one application: the attach-once marker,
/// the watcher's lifecycle, and the frame hook's change detection.
#[derive(Clone, Debug)]
pub struct ThemeSync {
    hook: FrameHook,
    guard: GuardState,
}

impl ThemeSync {
    pub closed spec fn guard_spec(&self) -> GuardState {
        self.guard
    }

    pub closed spec fn last_applied_spec(&self) -> Option<Theme> {
        self.hook.last_applied_spec()
    }

    /// An engine with nothing attached and nothing applied.
    pub fn new() -> (r: ThemeSync)
        ensures
            r.guard_spec() == GuardState::Detached,
            r.last_applied_spec() is None,
    {
        ThemeSync { hook: FrameHook::new(), guard: GuardState::Detached }
    }

    pub fn guard(&self) -> (r: GuardState)
        ensures
            r == self.guard_spec(),
    {
        self.guard
    }

    /// The effective theme last sent to the window manager.
    pub fn last_applied(&self) -> (r: Option<Theme>)
        ensures
            r == self.last_applied_spec(),
    {
        self.hook.last_applied()
    }

    /// Attaches the frame hook, and the watcher where the platform has one. Only
    /// the first request does anything; later ones are ignored.
    pub fn attach(&mut self, kind: WatcherKind) -> (r: AttachAction)
        ensures
            (final(self).guard_spec(), r) == attach_step(old(self).guard_spec(), kind),
            final(self).last_applied_spec() == old(self).last_applied_spec(),
    {
        match self.guard {
            GuardState::Detached => {
                let watching = match kind {
                    WatcherKind::Portal => true,
                    WatcherKind::Null => false,
                };
                self.guard = GuardState::Attached { watching };
                AttachAction { register_hook: true, spawn_watcher: watching }
            },
            _ => AttachAction { register_hook: false, spawn_watcher: false },
        }
    }

    /// One frame of synchronization.
    pub fn frame(&mut self, preference: ThemePreference, os_theme: Option<Theme>) -> (r:
        FrameOutcome)
        ensures
            r.effective == resolved(preference, os_theme, FALLBACK_THEME),
            r.command == frame_command(old(self).last_applied_spec(), preference, os_theme),
            final(self).last_applied_spec() == frame_last(preference, os_theme),
            final(self).guard_spec() == old(self).guard_spec(),
    {
        self.hook.on_frame(preference, os_theme)
    }

    /// Tears the identity down: closes the observation so that no later write
    /// lands, and says whether a running watcher must be cancelled.
    pub fn teardown(&mut self, observation: &mut Observation) -> (r: bool)
        ensures
            (final(self).guard_spec(), r) == teardown_step(old(self).guard_spec()),
            final(self).last_applied_spec() == old(self).last_applied_spec(),
            final(observation).is_closed(),
            final(observation).value_spec() == old(observation).value_spec(),
    {
        observation.close();
        let cancel = match self.guard {
            GuardState::Attached { watching } => watching,
            _ => false,
        };
        self.guard = GuardState::TornDown;
        cancel
    }
}

} // verus!
