use cosmic_idle::{
    Action, ConfigKey, CosmicIdleConfig, Event, FadeBlackSurface, IdleNotification, IdlePurpose,
    IdleTimers, PowerMode, State, TimerChange,
};

fn config(screen_off: Option<u32>, battery: Option<u32>, ac: Option<u32>) -> CosmicIdleConfig {
    CosmicIdleConfig {
        screen_off_time: screen_off,
        suspend_on_battery_time: battery,
        suspend_on_ac_time: ac,
    }
}

fn create(purpose: IdlePurpose, generation: u64, time: u32) -> Action {
    Action::Timer(TimerChange::Create { purpose, generation, time })
}

fn destroy(purpose: IdlePurpose, generation: u64) -> Action {
    Action::Timer(TimerChange::Destroy { purpose, generation })
}

fn two_output_state() -> State {
    let mut state = State::new(config(Some(600000), Some(300000), Some(1200000)));
    assert!(state.add_output_global(1));
    assert!(state.add_output_global(2));
    state.recreate_notifications();
    state
}

fn screen_off_generation(state: &State) -> u64 {
    state.timers.screen_off.unwrap().generation
}

#[test]
fn default_config_values() {
    let c = CosmicIdleConfig::default();
    assert_eq!(c.screen_off_time, Some(900000));
    assert_eq!(c.suspend_on_battery_time, Some(900000));
    assert_eq!(c.suspend_on_ac_time, Some(1800000));
}

#[test]
fn update_keys_takes_only_the_named_settings() {
    let mut c = CosmicIdleConfig::default();
    let new = config(Some(1), None, Some(3));
    c.update_keys(&new, &vec![ConfigKey::SuspendOnBatteryTime]);
    assert_eq!(c, config(Some(900000), None, Some(1800000)));
    c.update_keys(&new, &vec![ConfigKey::ScreenOffTime, ConfigKey::SuspendOnAcTime]);
    assert_eq!(c, new);
}

#[test]
fn inhibitor_toggle_destroys_and_recreates_subscriptions() {
    let mut state = State::new(config(Some(600000), None, Some(1200000)));
    let actions = state.recreate_notifications();
    assert_eq!(
        actions,
        vec![create(IdlePurpose::ScreenOff, 0, 600000), create(IdlePurpose::Suspend, 1, 1200000)]
    );
    assert_eq!(state.timers.screen_off, Some(IdleNotification { generation: 0, time: 600000 }));
    assert_eq!(state.timers.suspend, Some(IdleNotification { generation: 1, time: 1200000 }));

    let actions = state.handle_event(Event::ScreensaverInhibit(true));
    assert_eq!(
        actions,
        vec![destroy(IdlePurpose::ScreenOff, 0), destroy(IdlePurpose::Suspend, 1)]
    );
    assert_eq!(state.timers.screen_off, None);
    assert_eq!(state.timers.suspend, None);

    let actions = state.handle_event(Event::ScreensaverInhibit(false));
    assert_eq!(
        actions,
        vec![create(IdlePurpose::ScreenOff, 2, 600000), create(IdlePurpose::Suspend, 3, 1200000)]
    );
}

#[test]
fn recompute_twice_changes_nothing_the_second_time() {
    let mut state = two_output_state();
    let timers = state.timers;
    assert!(state.recreate_notifications().is_empty());
    assert_eq!(state.timers, timers);
}

#[test]
fn timers_recompute_is_idempotent() {
    let mut t = IdleTimers::new();
    let first = t.recompute(Some(10), None);
    assert_eq!(first.changes, vec![TimerChange::Create { purpose: IdlePurpose::ScreenOff, generation: 0, time: 10 }]);
    assert!(first.screen_off_reset);
    assert!(!first.suspend_reset);
    let after = t;
    let second = t.recompute(Some(10), None);
    assert!(second.changes.is_empty());
    assert!(!second.screen_off_reset && !second.suspend_reset);
    assert_eq!(t, after);
    assert_eq!(t.purpose_of(0), Some(IdlePurpose::ScreenOff));
    assert_eq!(t.purpose_of(1), None);
}

#[test]
fn power_source_selects_suspend_timeout() {
    let mut state = State::new(config(None, Some(300000), Some(1200000)));
    state.recreate_notifications();
    assert_eq!(state.timers.suspend.map(|n| n.time), Some(1200000));
    let actions = state.handle_event(Event::OnBattery(true));
    assert_eq!(
        actions,
        vec![destroy(IdlePurpose::Suspend, 0), create(IdlePurpose::Suspend, 1, 300000)]
    );
    assert!(state.on_battery);
    // The same value again: nothing to do.
    assert!(state.handle_event(Event::OnBattery(true)).is_empty());
}

#[test]
fn config_change_resets_screen_off_state() {
    let mut state = two_output_state();
    let generation = screen_off_generation(&state);
    state.idle_event(generation, true, 0);
    let new = config(Some(60000), None, None);
    let actions = state.update_config(&new, &vec![ConfigKey::ScreenOffTime]);
    assert_eq!(
        actions,
        vec![
            destroy(IdlePurpose::ScreenOff, generation),
            create(IdlePurpose::ScreenOff, 2, 60000),
            Action::DestroyFade { output: 1 },
            Action::SetPower { output: 1, mode: PowerMode::On },
            Action::DestroyFade { output: 2 },
            Action::SetPower { output: 2, mode: PowerMode::On },
        ]
    );
    assert!(state.outputs.iter().all(|o| o.fade_surface.is_none() && o.power == PowerMode::On));
    assert_eq!(state.conf.suspend_on_ac_time, Some(1200000));
}

#[test]
fn two_outputs_fade_then_one_lock() {
    let mut state = two_output_state();
    let generation = screen_off_generation(&state);
    let actions = state.idle_event(generation, true, 1000);
    assert_eq!(
        actions,
        vec![Action::CreateFade { output: 1 }, Action::CreateFade { output: 2 }]
    );
    assert_eq!(state.outputs.iter().filter(|o| o.fade_surface.is_some()).count(), 2);

    assert_eq!(
        state.configure_fade(1, 1000),
        vec![Action::RenderFade { output: 1, progress: 0 }]
    );
    assert!(state.configure_fade(1, 1100).is_empty());
    assert_eq!(
        state.configure_fade(2, 1050),
        vec![Action::RenderFade { output: 2, progress: 50 }]
    );
    assert_eq!(
        state.frame_done(1, 2000),
        vec![Action::RenderFade { output: 1, progress: 1000 }]
    );
    // Exactly at the fade's duration it is not over yet.
    assert_eq!(
        state.frame_done(1, 3000),
        vec![Action::RenderFade { output: 1, progress: 2000 }]
    );
    let first = state.frame_done(1, 3001);
    assert_eq!(
        first,
        vec![
            Action::SetPower { output: 1, mode: PowerMode::Off },
            Action::DestroyFade { output: 1 },
        ]
    );
    let second = state.frame_done(2, 3500);
    assert_eq!(
        second,
        vec![
            Action::SetPower { output: 2, mode: PowerMode::Off },
            Action::DestroyFade { output: 2 },
            Action::SetPower { output: 1, mode: PowerMode::Off },
            Action::SetPower { output: 2, mode: PowerMode::Off },
            Action::ScheduleLock { delay: 500 },
        ]
    );
    let locks = first
        .iter()
        .chain(second.iter())
        .filter(|a| matches!(a, Action::ScheduleLock { .. }))
        .count();
    assert_eq!(locks, 1);
    assert!(state.outputs.iter().all(|o| o.power == PowerMode::Off && o.fade_surface.is_none()));
    // A late callback for a finished fade does nothing.
    assert!(state.frame_done(2, 4000).is_empty());
}

#[test]
fn resume_drops_fades_and_powers_on() {
    let mut state = two_output_state();
    let generation = screen_off_generation(&state);
    state.idle_event(generation, true, 0);
    state.frame_done(1, 2001);
    let actions = state.idle_event(generation, false, 2100);
    assert_eq!(
        actions,
        vec![
            Action::SetPower { output: 1, mode: PowerMode::On },
            Action::DestroyFade { output: 2 },
            Action::SetPower { output: 2, mode: PowerMode::On },
        ]
    );
    assert!(state.outputs.iter().all(|o| o.power == PowerMode::On && o.fade_surface.is_none()));
}

#[test]
fn idle_twice_never_doubles_fades() {
    let mut state = two_output_state();
    let generation = screen_off_generation(&state);
    state.idle_event(generation, true, 0);
    let actions = state.idle_event(generation, true, 10);
    assert_eq!(
        actions,
        vec![
            Action::DestroyFade { output: 1 },
            Action::CreateFade { output: 1 },
            Action::DestroyFade { output: 2 },
            Action::CreateFade { output: 2 },
        ]
    );
    let fading = state.outputs.iter().filter(|o| o.fade_surface.is_some()).count();
    assert!(fading <= state.outputs.len());
    assert_eq!(state.outputs[0].fade_surface, Some(FadeBlackSurface::new(10)));
}

#[test]
fn suspend_idle_suspends_and_resume_does_nothing() {
    let mut state = two_output_state();
    let generation = state.timers.suspend.unwrap().generation;
    assert_eq!(state.idle_event(generation, true, 0), vec![Action::Suspend]);
    assert!(state.idle_event(generation, false, 0).is_empty());
    assert!(state.outputs.iter().all(|o| o.fade_surface.is_none()));
}

#[test]
fn events_of_superseded_subscription_are_dropped() {
    let mut state = two_output_state();
    let old_generation = screen_off_generation(&state);
    state.handle_event(Event::ScreensaverInhibit(true));
    assert!(state.idle_event(old_generation, true, 0).is_empty());
    state.handle_event(Event::ScreensaverInhibit(false));
    assert_ne!(screen_off_generation(&state), old_generation);
    assert!(state.idle_event(old_generation, true, 0).is_empty());
    assert!(state.outputs.iter().all(|o| o.fade_surface.is_none()));
}

#[test]
fn removing_a_fading_output_tears_down_its_overlay() {
    let mut state = two_output_state();
    let generation = screen_off_generation(&state);
    state.idle_event(generation, true, 0);
    assert_eq!(state.remove_output_global(2), vec![Action::DestroyFade { output: 2 }]);
    assert_eq!(state.outputs.len(), 1);
    assert!(state.remove_output_global(2).is_empty());
    assert!(state.find_output(2).is_none());
    assert_eq!(state.find_output(1), Some(0));
}

#[test]
fn removing_an_idle_free_output_has_no_effect() {
    let mut state = two_output_state();
    assert!(state.remove_output_global(1).is_empty());
    assert_eq!(state.outputs.len(), 1);
    assert_eq!(state.outputs[0].global_name, 2);
}

#[test]
fn duplicate_output_is_ignored() {
    let mut state = two_output_state();
    assert!(!state.add_output_global(1));
    assert_eq!(state.outputs.len(), 2);
}

#[test]
fn fade_done_turns_everything_off_and_locks() {
    let mut state = two_output_state();
    let actions = state.fade_done();
    assert_eq!(
        actions,
        vec![
            Action::SetPower { output: 1, mode: PowerMode::Off },
            Action::SetPower { output: 2, mode: PowerMode::Off },
            Action::ScheduleLock { delay: 500 },
        ]
    );
    assert!(state.no_fades());
}

#[test]
fn fade_progress_is_monotonic_and_ends_after_duration() {
    let f = FadeBlackSurface::new(5000);
    let mut last = 0;
    for now in [4000u64, 5000, 5500, 6999, 7000, 7001, 9000] {
        let e = f.elapsed(now);
        assert!(e >= last);
        last = e;
    }
    assert_eq!(f.elapsed(4000), 0);
    assert_eq!(f.elapsed(6500), 1500);
    assert!(!f.is_done(7000));
    assert!(f.is_done(7001));
    assert!(f.is_done(100000));
    assert_eq!(f.update(6500), 1500);
    assert_eq!(f.update(7000), 2000);
    assert_eq!(f.update(100000), 2000);
    assert_eq!(f.update(0), 0);
}

#[test]
fn late_first_configure_draws_at_full_progress() {
    let mut state = two_output_state();
    let generation = screen_off_generation(&state);
    state.idle_event(generation, true, 0);
    assert_eq!(
        state.configure_fade(1, 5000),
        vec![Action::RenderFade { output: 1, progress: 2000 }]
    );
    assert!(state.configure_fade(7, 5000).is_empty());
}

#[test]
fn first_configure_only_once() {
    let mut f = FadeBlackSurface::new(3);
    assert!(f.configure());
    assert!(!f.configure());
    assert_eq!(f.started, 3);
}
