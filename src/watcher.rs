use vstd::prelude::*;

use crate::theme::{theme_of_scheme, to_theme, ColorScheme, Theme};

verus! {

/// Where the background watcher stands.
#[derive(Clone, Copy, Debug, PartialEq, Eq, Structural)]
pub enum WatcherPhase {
    /// Opening the connection to the settings source.
    Connecting,
    /// Connected and subscribed; the one-shot read of the current value is pending.
    Reading,
    /// Receiving change events.
    Streaming,
    /// Finished: the connection failed, the channel closed, or it was cancelled.
    Stopped,
}

/// What the outside world reported to the watcher.
#[derive(Clone, Copy, Debug, PartialEq, Eq, Structural)]
pub enum WatcherEvent {
    /// The connection or the subscription could not be opened.
    ConnectFailed,
    /// The connection and the change subscription are open.
    Connected,
    /// The result of the one-shot read; `None` where the read failed.
    CurrentRead(Option<ColorScheme>),
    /// A change event; `None` where it could not be decoded.
    Changed(Option<ColorScheme>),
    /// The change channel closed for good.
    ChannelClosed,
    /// The owner asked the watcher to stop.
    Cancelled,
}

/// What the watcher's runner does next.
#[derive(Clone, Copy, Debug, PartialEq, Eq, Structural)]
pub enum WatcherAction {
    /// Go on: perform the next outside step of the current phase.
    Proceed,
    /// Write this theme to the shared observation, then go on.
    Publish(Option<Theme>),
    /// End the task.
    Stop,
}

/// The phase and action that follow an event.
pub open spec fn watcher_step(phase: WatcherPhase, event: WatcherEvent) -> (
    WatcherPhase,
    WatcherAction,
) {
    match (phase, event) {
        (WatcherPhase::Stopped, _) => (WatcherPhase::Stopped, WatcherAction::Stop),
        (_, WatcherEvent::Cancelled) => (WatcherPhase::Stopped, WatcherAction::Stop),
        (_, WatcherEvent::ChannelClosed) => (WatcherPhase::Stopped, WatcherAction::Stop),
        (WatcherPhase::Connecting, WatcherEvent::ConnectFailed) => (
            WatcherPhase::Stopped,
            WatcherAction::Stop,
        ),
        (WatcherPhase::Connecting, WatcherEvent::Connected) => (
            WatcherPhase::Reading,
            WatcherAction::Proceed,
        ),
        (WatcherPhase::Reading, WatcherEvent::CurrentRead(Some(s))) => (
            WatcherPhase::Streaming,
            WatcherAction::Publish(theme_of_scheme(s)),
        ),
        (WatcherPhase::Reading, WatcherEvent::CurrentRead(None)) => (
            WatcherPhase::Streaming,
            WatcherAction::Proceed,
        ),
        (WatcherPhase::Streaming, WatcherEvent::Changed(Some(s))) => (
            WatcherPhase::Streaming,
            WatcherAction::Publish(theme_of_scheme(s)),
        ),
        // A malformed event, or one that does not belong to the phase, is skipped.
        _ => (phase, WatcherAction::Proceed),
    }
}

/// The decisions of the background watcher, apart from the outside work that
/// its runner performs.
#[derive(Clone, Copy, Debug)]
pub struct Watcher {
    phase: WatcherPhase,
}

impl Watcher {
    pub closed spec fn phase_spec(&self) -> WatcherPhase {
        self.phase
    }

    /// A watcher about to connect.
    pub fn new() -> (r: Watcher)
        ensures
            r.phase_spec() == WatcherPhase::Connecting,
    {
        Watcher { phase: WatcherPhase::Connecting }
    }

    pub fn phase(&self) -> (r: WatcherPhase)
        ensures
            r == self.phase_spec(),
    {
        self.phase
    }

    /// Takes in one event and says what to do next.
    pub fn handle(&mut self, event: WatcherEvent) -> (r: WatcherAction)
        ensures
            (final(self).phase_spec(), r) == watcher_step(old(self).phase_spec(), event),
    {
        let (phase, action) = match (self.phase, event) {
            (WatcherPhase::Stopped, _) => (WatcherPhase::Stopped, WatcherAction::Stop),
            (_, WatcherEvent::Cancelled) => (WatcherPhase::Stopped, WatcherAction::Stop),
            (_, WatcherEvent::ChannelClosed) => (WatcherPhase::Stopped, WatcherAction::Stop),
            (WatcherPhase::Connecting, WatcherEvent::ConnectFailed) => (
                WatcherPhase::Stopped,
                WatcherAction::Stop,
            ),
            (WatcherPhase::Connecting, WatcherEvent::Connected) => (
                WatcherPhase::Reading,
                WatcherAction::Proceed,
            ),
            (WatcherPhase::Reading, WatcherEvent::CurrentRead(Some(s))) => (
                WatcherPhase::Streaming,
                WatcherAction::Publish(to_theme(s)),
            ),
            (WatcherPhase::Reading, WatcherEvent::CurrentRead(None)) => (
                WatcherPhase::Streaming,
                WatcherAction::Proceed,
            ),
            (WatcherPhase::Streaming, WatcherEvent::Changed(Some(s))) => (
                WatcherPhase::Streaming,
                WatcherAction::Publish(to_theme(s)),
            ),
            _ => (self.phase, WatcherAction::Proceed),
        };
        self.phase = phase;
        action
    }
}

} // verus!
