use vstd::prelude::*;

use crate::engine::{attach_step, teardown_step, GuardState, WatcherKind};
use crate::hook::{frame_command, frame_last};
use crate::observation::written;
use crate::theme::{resolved, system_theme_of, SystemTheme, Theme, ThemePreference, FALLBACK_THEME};
use crate::watcher::{watcher_step, WatcherAction, WatcherEvent, WatcherPhase};

verus! {

/// The commands sent by consecutive frames, starting from a last applied theme.
pub open spec fn commands_over(
    last: Option<Theme>,
    frames: Seq<(ThemePreference, Option<Theme>)>,
) -> Seq<Option<SystemTheme>>
    decreases frames.len(),
{
    if frames.len() == 0 {
        Seq::empty()
    } else {
        seq![frame_command(last, frames[0].0, frames[0].1)] + commands_over(
            frame_last(frames[0].0, frames[0].1),
            frames.drop_first(),
        )
    }
}

/// How many of the frames sent a command.
pub open spec fn sent_count(commands: Seq<Option<SystemTheme>>) -> nat
    decreases commands.len(),
{
    if commands.len() == 0 {
        0
    } else {
        (if commands[0] is Some { 1nat } else { 0nat }) + sent_count(commands.drop_first())
    }
}

/// `n` frames with the same preference and the same system theme.
pub open spec fn steady_frames(
    preference: ThemePreference,
    os_theme: Option<Theme>,
    n: nat,
) -> Seq<(ThemePreference, Option<Theme>)> {
    Seq::new(n, |i: int| (preference, os_theme))
}

/// The watcher's actions over a run of events, starting from a phase.
pub open spec fn actions_over(phase: WatcherPhase, events: Seq<WatcherEvent>) -> Seq<WatcherAction>
    decreases events.len(),
{
    if events.len() == 0 {
        Seq::empty()
    } else {
        let (next, action) = watcher_step(phase, events[0]);
        seq![action] + actions_over(next, events.drop_first())
    }
}

/// The themes that a run of watcher actions writes to the observation, in order.
pub open spec fn published(actions: Seq<WatcherAction>) -> Seq<Option<Theme>>
    decreases actions.len(),
{
    if actions.len() == 0 {
        Seq::empty()
    } else {
        let rest = published(actions.drop_first());
        match actions[0] {
            WatcherAction::Publish(theme) => seq![theme] + rest,
            _ => rest,
        }
    }
}

/// The observation's value after a run of writes.
pub open spec fn written_over(closed: bool, value: Option<Theme>, writes: Seq<Option<Theme>>) -> Option<Theme>
    decreases writes.len(),
{
    if writes.len() == 0 {
        value
    } else {
        written_over(closed, written(closed, value, writes[0]), writes.drop_first())
    }
}

proof fn lemma_settled_frames_send_nothing(
    preference: ThemePreference,
    os_theme: Option<Theme>,
    n: nat,
)
    ensures
        commands_over(frame_last(preference, os_theme), steady_frames(preference, os_theme, n)).len() == n,
        forall|i: int|
            0 <= i < n ==> (#[trigger] commands_over(
                frame_last(preference, os_theme),
                steady_frames(preference, os_theme, n),
            )[i]) is None,
        sent_count(
            commands_over(frame_last(preference, os_theme), steady_frames(preference, os_theme, n)),
        ) == 0,
    decreases n,
{
    let last = frame_last(preference, os_theme);
    if n > 0 {
        lemma_settled_frames_send_nothing(preference, os_theme, (n - 1) as nat);
        assert(steady_frames(preference, os_theme, n).drop_first() =~= steady_frames(
            preference,
            os_theme,
            (n - 1) as nat,
        ));
        let rest = commands_over(last, steady_frames(preference, os_theme, (n - 1) as nat));
        let all = commands_over(last, steady_frames(preference, os_theme, n));
        assert(all.drop_first() =~= rest);
        assert forall|i: int| 0 <= i < n implies (#[trigger] all[i]) is None by {
            if i > 0 {
                assert(all[i] == rest[i - 1]);
            }
        }
    }
}

/// Repeated frames with a fixed preference and a fixed system theme send at most
/// one command, at the first frame; from a hook that has applied nothing, exactly
/// one, carrying the preference.
pub proof fn lemma_steady_frames_send_once(
    last: Option<Theme>,
    preference: ThemePreference,
    os_theme: Option<Theme>,
    n: nat,
)
    requires
        n >= 1,
    ensures
        commands_over(last, steady_frames(preference, os_theme, n)).len() == n,
        forall|i: int|
            1 <= i < n ==> (#[trigger] commands_over(last, steady_frames(preference, os_theme, n))[i]) is None,
        sent_count(commands_over(last, steady_frames(preference, os_theme, n))) <= 1,
        last is None ==> commands_over(last, steady_frames(preference, os_theme, n))[0] == Some(
            system_theme_of(preference),
        ),
        last is None ==> sent_count(commands_over(last, steady_frames(preference, os_theme, n))) == 1,
{
    lemma_settled_frames_send_nothing(preference, os_theme, (n - 1) as nat);
    assert(steady_frames(preference, os_theme, n).drop_first() =~= steady_frames(
        preference,
        os_theme,
        (n - 1) as nat,
    ));
    let rest = commands_over(
        frame_last(preference, os_theme),
        steady_frames(preference, os_theme, (n - 1) as nat),
    );
    let all = commands_over(last, steady_frames(preference, os_theme, n));
    assert(all.drop_first() =~= rest);
    assert forall|i: int| 1 <= i < n implies (#[trigger] all[i]) is None by {
        assert(all[i] == rest[i - 1]);
    }
}

/// When the preference goes from light to dark between two frames while the
/// system theme stays the same, the second frame sends exactly one command, and
/// it carries the dark preference.
pub proof fn lemma_preference_change_sends_once(last: Option<Theme>, os_theme: Option<Theme>)
    ensures
        commands_over(
            last,
            seq![(ThemePreference::Light, os_theme), (ThemePreference::Dark, os_theme)],
        )[1] == Some(SystemTheme::Dark),
{
    let frames = seq![(ThemePreference::Light, os_theme), (ThemePreference::Dark, os_theme)];
    let rest = frames.drop_first();
    assert(rest.drop_first() =~= Seq::<(ThemePreference, Option<Theme>)>::empty());
    assert(commands_over(frame_last(ThemePreference::Light, os_theme), rest)[0] == Some(
        SystemTheme::Dark,
    ));
}

/// Two attach requests on one identity spawn at most one watcher and register
/// at most one hook; on a fresh identity of a capable platform, exactly one of each.
pub proof fn lemma_attach_twice_spawns_once(guard: GuardState, first: WatcherKind, second: WatcherKind)
    ensures
        ({
            let (g1, a1) = attach_step(guard, first);
            let (g2, a2) = attach_step(g1, second);
            &&& !(a1.spawn_watcher && a2.spawn_watcher)
            &&& !(a1.register_hook && a2.register_hook)
            &&& (guard == GuardState::Detached && first == WatcherKind::Portal) ==> (
            a1.spawn_watcher && !a2.spawn_watcher)
            &&& guard == GuardState::Detached ==> (a1.register_hook && !a2.register_hook)
        }),
{
}

proof fn lemma_stopped_stays_silent(events: Seq<WatcherEvent>)
    ensures
        actions_over(WatcherPhase::Stopped, events).len() == events.len(),
        forall|i: int|
            0 <= i < events.len() ==> #[trigger] actions_over(WatcherPhase::Stopped, events)[i]
                == WatcherAction::Stop,
        published(actions_over(WatcherPhase::Stopped, events)) == Seq::<Option<Theme>>::empty(),
    decreases events.len(),
{
    if events.len() > 0 {
        lemma_stopped_stays_silent(events.drop_first());
        let all = actions_over(WatcherPhase::Stopped, events);
        let rest = actions_over(WatcherPhase::Stopped, events.drop_first());
        assert(all.drop_first() =~= rest);
        assert forall|i: int| 0 <= i < events.len() implies #[trigger] all[i] == WatcherAction::Stop by {
            if i > 0 {
                assert(all[i] == rest[i - 1]);
            }
        }
    }
}

proof fn lemma_closed_keeps_value(value: Option<Theme>, writes: Seq<Option<Theme>>)
    ensures
        written_over(true, value, writes) == value,
    decreases writes.len(),
{
    if writes.len() > 0 {
        lemma_closed_keeps_value(value, writes.drop_first());
    }
}

/// After teardown nothing more reaches the observation: the observation is closed,
/// so pending writes leave its value as it was, and a cancelled watcher publishes
/// nothing whatever events still arrive.
pub proof fn lemma_no_write_after_teardown(
    guard: GuardState,
    value: Option<Theme>,
    pending: Seq<Option<Theme>>,
    phase: WatcherPhase,
    events: Seq<WatcherEvent>,
)
    ensures
        teardown_step(guard).0 == GuardState::TornDown,
        attach_step(teardown_step(guard).0, WatcherKind::Portal).1.spawn_watcher == false,
        written_over(true, value, pending) == value,
        forall|i: int|
            0 <= i < events.len() ==> #[trigger] actions_over(
                watcher_step(phase, WatcherEvent::Cancelled).0,
                events,
            )[i] == WatcherAction::Stop,
        published(actions_over(watcher_step(phase, WatcherEvent::Cancelled).0, events))
            == Seq::<Option<Theme>>::empty(),
{
    lemma_closed_keeps_value(value, pending);
    lemma_stopped_stays_silent(events);
}

/// Where the connection to the settings source fails, the watcher publishes
/// nothing, so the observation stays empty, and a frame that follows the system
/// resolves to the fallback (light) and sends no further command once applied.
pub proof fn lemma_connect_failure_falls_back(events: Seq<WatcherEvent>, n: nat)
    requires
        n >= 1,
    ensures
        forall|i: int|
            0 <= i < events.len() + 1 ==> #[trigger] actions_over(
                WatcherPhase::Connecting,
                seq![WatcherEvent::ConnectFailed] + events,
            )[i] == WatcherAction::Stop,
        published(actions_over(WatcherPhase::Connecting, seq![WatcherEvent::ConnectFailed] + events))
            == Seq::<Option<Theme>>::empty(),
        written_over(
            false,
            None,
            published(actions_over(WatcherPhase::Connecting, seq![WatcherEvent::ConnectFailed] + events)),
        ) is None,
        resolved(ThemePreference::System, None, FALLBACK_THEME) == Theme::Light,
        sent_count(commands_over(None, steady_frames(ThemePreference::System, None, n))) == 1,
        commands_over(None, steady_frames(ThemePreference::System, None, n))[0] == Some(
            SystemTheme::SystemDefault,
        ),
{
    let all = seq![WatcherEvent::ConnectFailed] + events;
    assert(all.drop_first() =~= events);
    lemma_stopped_stays_silent(events);
    let acts = actions_over(WatcherPhase::Connecting, all);
    let rest = actions_over(WatcherPhase::Stopped, events);
    assert(acts.drop_first() =~= rest);
    assert forall|i: int| 0 <= i < events.len() + 1 implies #[trigger] acts[i] == WatcherAction::Stop by {
        if i > 0 {
            assert(acts[i] == rest[i - 1]);
        }
    }
    assert(published(acts) == published(rest));
    lemma_steady_frames_send_once(None, ThemePreference::System, None, n);
}

} // verus!
