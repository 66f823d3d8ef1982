use theme_sync::engine::{AttachAction, GuardState, ThemeSync, WatcherKind};
use theme_sync::hook::{FrameHook, FrameOutcome};
use theme_sync::observation::Observation;
use theme_sync::theme::{
    resolve, to_system_theme, to_theme, ColorScheme, SystemTheme, Theme, ThemePreference,
    FALLBACK_THEME,
};
use theme_sync::watcher::{Watcher, WatcherAction, WatcherEvent, WatcherPhase};

fn feed(watcher: &mut Watcher, observation: &mut Observation, event: WatcherEvent) -> WatcherAction {
    let action = watcher.handle(event);
    if let WatcherAction::Publish(theme) = action {
        observation.write(theme);
    }
    action
}

#[test]
fn resolver_covers_every_combination() {
    let os_values = [Some(Theme::Light), Some(Theme::Dark), None];
    for os in os_values {
        assert_eq!(resolve(ThemePreference::Light, os, Theme::Dark), Theme::Light);
        assert_eq!(resolve(ThemePreference::Dark, os, Theme::Light), Theme::Dark);
    }
    assert_eq!(resolve(ThemePreference::System, Some(Theme::Light), Theme::Dark), Theme::Light);
    assert_eq!(resolve(ThemePreference::System, Some(Theme::Dark), Theme::Light), Theme::Dark);
    assert_eq!(resolve(ThemePreference::System, None, Theme::Light), Theme::Light);
    assert_eq!(resolve(ThemePreference::System, None, Theme::Dark), Theme::Dark);
    assert_eq!(FALLBACK_THEME, Theme::Light);
}

#[test]
fn scheme_mapping_keeps_no_preference_apart() {
    assert_eq!(to_theme(ColorScheme::NoPreference), None);
    assert_eq!(to_theme(ColorScheme::PreferLight), Some(Theme::Light));
    assert_eq!(to_theme(ColorScheme::PreferDark), Some(Theme::Dark));
}

#[test]
fn preference_maps_to_window_mode() {
    assert_eq!(to_system_theme(ThemePreference::System), SystemTheme::SystemDefault);
    assert_eq!(to_system_theme(ThemePreference::Light), SystemTheme::Light);
    assert_eq!(to_system_theme(ThemePreference::Dark), SystemTheme::Dark);
}

#[test]
fn steady_frames_send_one_command() {
    let mut hook = FrameHook::new();
    assert_eq!(hook.last_applied(), None);
    let mut sent = 0;
    for i in 0..10 {
        let out = hook.on_frame(ThemePreference::System, Some(Theme::Dark));
        assert_eq!(out.effective, Theme::Dark);
        if out.command.is_some() {
            assert_eq!(i, 0);
            assert_eq!(out.command, Some(SystemTheme::SystemDefault));
            sent += 1;
        }
    }
    assert_eq!(sent, 1);
    assert_eq!(hook.last_applied(), Some(Theme::Dark));
}

#[test]
fn preference_change_sends_one_dark_command() {
    let mut hook = FrameHook::new();
    hook.on_frame(ThemePreference::Light, Some(Theme::Light));
    let k = hook.on_frame(ThemePreference::Light, Some(Theme::Light));
    assert_eq!(k.command, None);
    let next = hook.on_frame(ThemePreference::Dark, Some(Theme::Light));
    assert_eq!(next, FrameOutcome { effective: Theme::Dark, command: Some(SystemTheme::Dark) });
    let after = hook.on_frame(ThemePreference::Dark, Some(Theme::Light));
    assert_eq!(after.command, None);
}

#[test]
fn same_effective_theme_sends_nothing() {
    let mut hook = FrameHook::new();
    hook.on_frame(ThemePreference::System, Some(Theme::Light));
    let out = hook.on_frame(ThemePreference::Light, Some(Theme::Light));
    assert_eq!(out, FrameOutcome { effective: Theme::Light, command: None });
}

#[test]
fn attach_twice_spawns_one_watcher() {
    let mut engine = ThemeSync::new();
    assert_eq!(engine.guard(), GuardState::Detached);
    let mut spawns = 0;
    let mut hooks = 0;
    for _ in 0..2 {
        let action = engine.attach(WatcherKind::Portal);
        if action.spawn_watcher {
            spawns += 1;
        }
        if action.register_hook {
            hooks += 1;
        }
    }
    assert_eq!(spawns, 1);
    assert_eq!(hooks, 1);
    assert_eq!(engine.guard(), GuardState::Attached { watching: true });
}

#[test]
fn attach_without_settings_source_spawns_nothing() {
    let mut engine = ThemeSync::new();
    let action = engine.attach(WatcherKind::Null);
    assert_eq!(action, AttachAction { register_hook: true, spawn_watcher: false });
    let mut observation = Observation::new();
    assert!(!engine.teardown(&mut observation));
}

#[test]
fn teardown_blocks_later_writes() {
    let mut engine = ThemeSync::new();
    engine.attach(WatcherKind::Portal);
    let mut observation = Observation::new();
    let mut watcher = Watcher::new();
    feed(&mut watcher, &mut observation, WatcherEvent::Connected);
    feed(&mut watcher, &mut observation, WatcherEvent::CurrentRead(Some(ColorScheme::PreferDark)));
    assert_eq!(observation.read(), Some(Theme::Dark));

    assert!(engine.teardown(&mut observation));
    assert_eq!(engine.guard(), GuardState::TornDown);
    assert!(observation.closed());
    // An event that was already on its way still arrives.
    assert!(!observation.write(Some(Theme::Light)));
    assert_eq!(observation.read(), Some(Theme::Dark));

    assert_eq!(watcher.handle(WatcherEvent::Cancelled), WatcherAction::Stop);
    let late = feed(&mut watcher, &mut observation, WatcherEvent::Changed(Some(ColorScheme::PreferLight)));
    assert_eq!(late, WatcherAction::Stop);
    assert_eq!(observation.read(), Some(Theme::Dark));

    // The identity does not attach again.
    assert_eq!(engine.attach(WatcherKind::Portal), AttachAction { register_hook: false, spawn_watcher: false });
    assert!(!engine.teardown(&mut observation));
}

#[test]
fn connect_failure_falls_back_to_light() {
    let mut engine = ThemeSync::new();
    engine.attach(WatcherKind::Portal);
    let mut observation = Observation::new();
    let mut watcher = Watcher::new();
    assert_eq!(feed(&mut watcher, &mut observation, WatcherEvent::ConnectFailed), WatcherAction::Stop);
    assert_eq!(watcher.phase(), WatcherPhase::Stopped);
    let late = feed(&mut watcher, &mut observation, WatcherEvent::Changed(Some(ColorScheme::PreferDark)));
    assert_eq!(late, WatcherAction::Stop);
    assert_eq!(observation.read(), None);
    let mut sent = 0;
    for _ in 0..5 {
        let out = engine.frame(ThemePreference::System, observation.read());
        assert_eq!(out.effective, Theme::Light);
        if out.command.is_some() {
            sent += 1;
        }
    }
    assert_eq!(sent, 1);
}

#[test]
fn malformed_events_are_skipped() {
    let mut observation = Observation::new();
    let mut watcher = Watcher::new();
    assert_eq!(feed(&mut watcher, &mut observation, WatcherEvent::Connected), WatcherAction::Proceed);
    assert_eq!(watcher.phase(), WatcherPhase::Reading);
    assert_eq!(feed(&mut watcher, &mut observation, WatcherEvent::CurrentRead(None)), WatcherAction::Proceed);
    assert_eq!(watcher.phase(), WatcherPhase::Streaming);
    assert_eq!(observation.read(), None);
    feed(&mut watcher, &mut observation, WatcherEvent::Changed(Some(ColorScheme::PreferLight)));
    assert_eq!(observation.read(), Some(Theme::Light));
    assert_eq!(feed(&mut watcher, &mut observation, WatcherEvent::Changed(None)), WatcherAction::Proceed);
    assert_eq!(observation.read(), Some(Theme::Light));
    assert_eq!(watcher.phase(), WatcherPhase::Streaming);
    feed(&mut watcher, &mut observation, WatcherEvent::Changed(Some(ColorScheme::NoPreference)));
    assert_eq!(observation.read(), None);
    assert_eq!(feed(&mut watcher, &mut observation, WatcherEvent::ChannelClosed), WatcherAction::Stop);
    assert_eq!(watcher.phase(), WatcherPhase::Stopped);
}

#[test]
fn end_to_end_follows_system_then_user() {
    let mut engine = ThemeSync::new();
    let action = engine.attach(WatcherKind::Portal);
    assert!(action.spawn_watcher && action.register_hook);
    let mut observation = Observation::new();
    let mut watcher = Watcher::new();
    feed(&mut watcher, &mut observation, WatcherEvent::Connected);
    feed(&mut watcher, &mut observation, WatcherEvent::CurrentRead(Some(ColorScheme::PreferDark)));

    let frame1 = engine.frame(ThemePreference::System, observation.read());
    assert_eq!(frame1, FrameOutcome { effective: Theme::Dark, command: Some(SystemTheme::SystemDefault) });
    let quiet = engine.frame(ThemePreference::System, observation.read());
    assert_eq!(quiet.command, None);

    feed(&mut watcher, &mut observation, WatcherEvent::Changed(Some(ColorScheme::PreferLight)));
    let frame2 = engine.frame(ThemePreference::System, observation.read());
    assert_eq!(frame2, FrameOutcome { effective: Theme::Light, command: Some(SystemTheme::SystemDefault) });

    let frame3 = engine.frame(ThemePreference::Dark, observation.read());
    assert_eq!(frame3, FrameOutcome { effective: Theme::Dark, command: Some(SystemTheme::Dark) });
    assert_eq!(engine.last_applied(), Some(Theme::Dark));
}
