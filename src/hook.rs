use vstd::prelude::*;

use crate::theme::{
    resolve, resolved, system_theme_of, to_system_theme, SystemTheme, Theme, ThemePreference,
    FALLBACK_THEME,
};

verus! {

/// What one frame of synchronization decided.
#[derive(Clone, Copy, Debug, PartialEq, Eq, Structural)]
pub struct FrameOutcome {
    /// The theme to apply to the interface in this frame.
    pub effective: Theme,
    /// The "set window theme" command to send to the window manager, if any.
    pub command: Option<SystemTheme>,
}

/// The per-frame change detector: it remembers the effective theme last sent to
/// the window manager, and sends a command only when that value changes.
#[derive(Clone, Copy, Debug)]
pub struct FrameHook {
    last_applied: Option<Theme>,
}

/// The command a frame sends: one carrying the preference whenever the effective
/// theme differs from the last one applied (always, before any was applied).
pub open spec fn frame_command(
    last: Option<Theme>,
    preference: ThemePreference,
    os_theme: Option<Theme>,
) -> Option<SystemTheme> {
    if last == Some(resolved(preference, os_theme, FALLBACK_THEME)) {
        None
    } else {
        Some(system_theme_of(preference))
    }
}

/// What a frame leaves behind as the last applied theme.
pub open spec fn frame_last(preference: ThemePreference, os_theme: Option<Theme>) -> Option<Theme> {
    Some(resolved(preference, os_theme, FALLBACK_THEME))
}

impl FrameHook {
    pub closed spec fn last_applied_spec(&self) -> Option<Theme> {
        self.last_applied
    }

    /// A hook that has applied nothing yet, so that its first frame synchronizes.
    pub fn new() -> (r: FrameHook)
        ensures
            r.last_applied_spec() is None,
    {
        FrameHook { last_applied: None }
    }

    /// The effective theme last sent to the window manager.
    pub fn last_applied(&self) -> (r: Option<Theme>)
        ensures
            r == self.last_applied_spec(),
    {
        self.last_applied
    }

    /// Runs one frame: resolves the effective theme and decides whether a command
    /// goes out.
    pub fn on_frame(&mut self, preference: ThemePreference, os_theme: Option<Theme>) -> (r:
        FrameOutcome)
        ensures
            r.effective == resolved(preference, os_theme, FALLBACK_THEME),
            r.command == frame_command(old(self).last_applied_spec(), preference, os_theme),
            final(self).last_applied_spec() == frame_last(preference, os_theme),
    {
        let effective = resolve(preference, os_theme, FALLBACK_THEME);
        let changed = match self.last_applied {
            Some(t) => t != effective,
            None => true,
        };
        if changed {
            self.last_applied = Some(effective);
            FrameOutcome { effective, command: Some(to_system_theme(preference)) }
        } else {
            FrameOutcome { effective, command: None }
        }
    }
}

} // verus!
