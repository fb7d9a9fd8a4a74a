//! The orchestrator: owns the outputs, the idle timers and the inputs of the
//! idle policy, and turns every event into the effects to carry out.

use vstd::prelude::*;
use crate::config::{ConfigKey, CosmicIdleConfig};
use crate::fade::{FadeBlackSurface, fade_finished, fade_progress};
use crate::timers::{
    IdlePurpose, IdleTimers, TimerChange, screen_off_target, suspend_target, timers_after,
    timer_changes, is_reset, current_purpose,
};

verus! {

/// Delay between screen off and locking, in ms.
pub const LOCK_SCREEN_DELAY: u64 = 500;

/// Power mode of an output.
#[derive(Clone, Copy, Debug, PartialEq, Eq, Structural)]
pub enum PowerMode {
    On,
    Off,
}

/// A display, keyed by the name of its global on the display server.
#[derive(Clone, Copy, Debug, PartialEq, Eq, Structural)]
pub struct Output {
    pub global_name: u32,
    pub power: PowerMode,
    pub fade_surface: Option<FadeBlackSurface>,
}

/// A message from a background task.
#[derive(Clone, Copy, Debug, PartialEq, Eq, Structural)]
pub enum Event {
    OnBattery(bool),
    ScreensaverInhibit(bool),
}

/// An effect for the caller to carry out, in the order given.
#[derive(Clone, Copy, Debug, PartialEq, Eq, Structural)]
pub enum Action {
    /// Create or destroy an idle-notification subscription.
    Timer(TimerChange),
    /// Create the fade-to-black overlay of an output.
    CreateFade { output: u32 },
    /// Destroy the overlay of an output.
    DestroyFade { output: u32 },
    /// Draw the next frame of an overlay, `progress` ms into its fade (never
    /// beyond its duration), and ask for a frame callback.
    RenderFade { output: u32, progress: u64 },
    /// Set the power mode of an output.
    SetPower { output: u32, mode: PowerMode },
    /// Run the lock-screen action after `delay` ms, once.
    ScheduleLock { delay: u64 },
    /// Run the suspend action, without waiting for it.
    Suspend,
}

/// Everything the idle policy decides on.
pub struct State {
    pub outputs: Vec<Output>,
    pub conf: CosmicIdleConfig,
    pub timers: IdleTimers,
    pub on_battery: bool,
    pub screensaver_inhibit: bool,
}

/// Whether some output of `outs` has the global name `name`.
pub open spec fn has_output(outs: Seq<Output>, name: u32) -> bool {
    exists|i: int| 0 <= i < outs.len() && #[trigger] outs[i].global_name == name
}

/// No two outputs share a global name.
pub open spec fn names_unique(outs: Seq<Output>) -> bool {
    forall|i: int, j: int|
        0 <= i < outs.len() && 0 <= j < outs.len() && i != j ==> #[trigger] outs[i].global_name
            != #[trigger] outs[j].global_name
}

/// How many outputs of `outs` are fading.
pub open spec fn fade_count(outs: Seq<Output>) -> nat
    decreases outs.len(),
{
    if outs.len() == 0 {
        0
    } else {
        fade_count(outs.drop_last()) + if outs.last().fade_surface.is_some() {
            1nat
        } else {
            0nat
        }
    }
}

/// Whether no output of `outs` is fading.
pub open spec fn none_fading(outs: Seq<Output>) -> bool {
    forall|i: int| 0 <= i < outs.len() ==> (#[trigger] outs[i]).fade_surface.is_none()
}

/// Whether an output agrees with the last screen-off event: while idle it is
/// fading or off, otherwise it is on and not fading.
pub open spec fn agrees_with(o: Output, is_idle: bool) -> bool {
    if is_idle {
        o.fade_surface.is_some() || o.power == PowerMode::Off
    } else {
        o.fade_surface.is_none() && o.power == PowerMode::On
    }
}

/// The effects of a screen-off event on one output: its overlay, if any, is
/// torn down first; then on idle a new overlay is created, and on resume the
/// output is powered on.
pub open spec fn screen_off_output_actions(o: Output, is_idle: bool) -> Seq<Action> {
    let teardown = if o.fade_surface.is_some() {
        seq![Action::DestroyFade { output: o.global_name }]
    } else {
        Seq::empty()
    };
    if is_idle {
        teardown.push(Action::CreateFade { output: o.global_name })
    } else {
        teardown.push(Action::SetPower { output: o.global_name, mode: PowerMode::On })
    }
}

/// The effects of a screen-off event on all outputs, in order.
pub open spec fn screen_off_actions(outs: Seq<Output>, is_idle: bool) -> Seq<Action>
    decreases outs.len(),
{
    if outs.len() == 0 {
        Seq::empty()
    } else {
        screen_off_actions(outs.drop_last(), is_idle) + screen_off_output_actions(
            outs.last(),
            is_idle,
        )
    }
}

/// One output after a screen-off event at `now`.
pub open spec fn after_screen_off(o: Output, is_idle: bool, now: u64) -> Output {
    if is_idle {
        Output {
            fade_surface: Some(FadeBlackSurface { started: now, has_first_configure: false }),
            ..o
        }
    } else {
        Output { power: PowerMode::On, fade_surface: None, ..o }
    }
}

/// The effects once every fade has completed: every output off, then the
/// lock scheduled.
pub open spec fn all_off_actions(outs: Seq<Output>) -> Seq<Action>
    decreases outs.len(),
{
    if outs.len() == 0 {
        Seq::empty()
    } else {
        all_off_actions(outs.drop_last()).push(
            Action::SetPower { output: outs.last().global_name, mode: PowerMode::Off },
        )
    }
}

/// Turns subscription changes into effects, in order.
pub open spec fn timer_actions(changes: Seq<TimerChange>) -> Seq<Action> {
    changes.map_values(|c: TimerChange| Action::Timer(c))
}

/// An output once its fade is over: off and without overlay.
pub open spec fn powered_off(o: Output) -> Output {
    Output { power: PowerMode::Off, fade_surface: None, ..o }
}

/// Every output of `outs` off and without overlay.
pub open spec fn all_off(outs: Seq<Output>) -> Seq<Output> {
    outs.map_values(|o: Output| powered_off(o))
}

/// Whether the output named `name` is fading.
pub open spec fn is_fading(outs: Seq<Output>, name: u32) -> bool {
    exists|i: int|
        0 <= i < outs.len() && #[trigger] outs[i].global_name == name
            && outs[i].fade_surface.is_some()
}

/// What a frame callback of the overlay of `before[i]` at `now` does. Before
/// the fade is over, the next frame is drawn. Once it is over, the output is
/// powered off and its overlay destroyed; if that was the last fading
/// output, every output is (again) powered off and the lock is scheduled,
/// once.
pub open spec fn frame_done_post(
    before: Seq<Output>,
    i: int,
    now: u64,
    after: Seq<Output>,
    actions: Seq<Action>,
) -> bool {
    let o = before[i];
    let f = o.fade_surface.unwrap();
    if fade_finished(f.started, now) {
        let mid = before.update(i, powered_off(o));
        let first = seq![
            Action::SetPower { output: o.global_name, mode: PowerMode::Off },
            Action::DestroyFade { output: o.global_name },
        ];
        if none_fading(mid) {
            &&& after == all_off(mid)
            &&& actions == first + all_off_actions(mid).push(
                Action::ScheduleLock { delay: LOCK_SCREEN_DELAY },
            )
        } else {
            &&& after == mid
            &&& actions == first
        }
    } else {
        &&& after == before
        &&& actions == seq![
            Action::RenderFade { output: o.global_name, progress: fade_progress(f.started, now) as u64 },
        ]
    }
}

/// What a configure of the overlay of `before[i]` at `now` does: the first
/// one draws the first frame, later ones change nothing here.
pub open spec fn configure_post(
    before: Seq<Output>,
    i: int,
    now: u64,
    after: Seq<Output>,
    actions: Seq<Action>,
) -> bool {
    let o = before[i];
    let f = o.fade_surface.unwrap();
    if !f.has_first_configure {
        &&& after == before.update(
            i,
            Output { fade_surface: Some(FadeBlackSurface { has_first_configure: true, ..f }), ..o },
        )
        &&& actions == seq![
            Action::RenderFade { output: o.global_name, progress: fade_progress(f.started, now) as u64 },
        ]
    } else {
        &&& after == before
        &&& actions.len() == 0
    }
}

/// The effects of the suspend timer's idle state: suspend on idle, nothing on
/// resume.
pub open spec fn suspend_actions(is_idle: bool) -> Seq<Action> {
    if is_idle {
        seq![Action::Suspend]
    } else {
        Seq::empty()
    }
}

/// What recomputing the subscriptions does, from outputs `outs` and timers
/// `timers`, with the inputs `inhibited`, `on_battery` and `conf`: both
/// subscriptions are brought to their targets, and where the screen-off one
/// was replaced its idle state starts over, as on a resume.
pub open spec fn recreated(
    outs: Seq<Output>,
    timers: IdleTimers,
    inhibited: bool,
    on_battery: bool,
    conf: CosmicIdleConfig,
    after: State,
    actions: Seq<Action>,
) -> bool {
    let so = screen_off_target(inhibited, conf);
    let su = suspend_target(inhibited, on_battery, conf);
    let reset = is_reset(timers.screen_off, so);
    &&& after.timers == timers_after(timers, so, su)
    &&& after.conf == conf
    &&& after.screensaver_inhibit == inhibited
    &&& after.on_battery == on_battery
    &&& after.outputs@.len() == outs.len()
    &&& forall|i: int|
        0 <= i < outs.len() ==> #[trigger] after.outputs@[i] == if reset {
            after_screen_off(outs[i], false, 0)
        } else {
            outs[i]
        }
    &&& actions == timer_actions(timer_changes(timers, so, su)) + if reset {
        screen_off_actions(outs, false)
    } else {
        Seq::empty()
    }
}

/// No more outputs fade than there are outputs.
pub proof fn lemma_fades_never_exceed_outputs(outs: Seq<Output>)
    ensures
        fade_count(outs) <= outs.len(),
    decreases outs.len(),
{
    if outs.len() > 0 {
        lemma_fades_never_exceed_outputs(outs.drop_last());
    }
}

/// While the screen is idle, frame callbacks keep every output in agreement
/// with it: each output is still fading or already off, and none is added
/// or lost.
pub proof fn lemma_frames_keep_idle_agreement(
    before: Seq<Output>,
    i: int,
    now: u64,
    after: Seq<Output>,
    actions: Seq<Action>,
)
    requires
        0 <= i < before.len(),
        before[i].fade_surface.is_some(),
        frame_done_post(before, i, now, after, actions),
        forall|j: int| 0 <= j < before.len() ==> agrees_with(#[trigger] before[j], true),
    ensures
        after.len() == before.len(),
        forall|j: int| 0 <= j < after.len() ==> agrees_with(#[trigger] after[j], true),
{
    let o = before[i];
    let mid = before.update(i, powered_off(o));
    assert forall|j: int| 0 <= j < mid.len() implies agrees_with(#[trigger] mid[j], true) by {
        if j != i {
            assert(mid[j] == before[j]);
        }
    }
}

/// While the screen is idle, configures keep every output in agreement with
/// it.
pub proof fn lemma_configures_keep_idle_agreement(
    before: Seq<Output>,
    i: int,
    now: u64,
    after: Seq<Output>,
    actions: Seq<Action>,
)
    requires
        0 <= i < before.len(),
        before[i].fade_surface.is_some(),
        configure_post(before, i, now, after, actions),
        forall|j: int| 0 <= j < before.len() ==> agrees_with(#[trigger] before[j], true),
    ensures
        after.len() == before.len(),
        forall|j: int| 0 <= j < after.len() ==> agrees_with(#[trigger] after[j], true),
{
    assert forall|j: int| 0 <= j < after.len() implies agrees_with(#[trigger] after[j], true) by {
        if j != i {
            assert(after[j] == before[j]);
        }
    }
}

/// Recomputing twice with the same inputs churns nothing the second time: no
/// subscription is destroyed or created, no effect is returned, and outputs
/// and timers stay as the first recomputation left them.
pub proof fn lemma_recreate_idempotent(
    outs: Seq<Output>,
    timers: IdleTimers,
    inhibited: bool,
    on_battery: bool,
    conf: CosmicIdleConfig,
    first: State,
    first_actions: Seq<Action>,
    second: State,
    second_actions: Seq<Action>,
)
    requires
        recreated(outs, timers, inhibited, on_battery, conf, first, first_actions),
        recreated(
            first.outputs@,
            first.timers,
            inhibited,
            on_battery,
            conf,
            second,
            second_actions,
        ),
    ensures
        second_actions.len() == 0,
        second.timers == first.timers,
        second.outputs@ == first.outputs@,
{
    let so = screen_off_target(inhibited, conf);
    let su = suspend_target(inhibited, on_battery, conf);
    crate::timers::lemma_recompute_idempotent(timers, so, su);
    assert(second.outputs@ =~= first.outputs@);
}

impl State {
    /// Outputs are keyed uniquely by their global name.
    pub open spec fn wf(&self) -> bool {
        names_unique(self.outputs@)
    }

    /// No output, no subscription yet, on AC power and not inhibited.
    pub fn new(conf: CosmicIdleConfig) -> (r: State)
        ensures
            r.wf(),
            r.outputs@.len() == 0,
            r.conf == conf,
            r.timers == (IdleTimers { screen_off: None, suspend: None, next_generation: 0 }),
            !r.on_battery,
            !r.screensaver_inhibit,
    {
        State {
            outputs: Vec::new(),
            conf,
            timers: IdleTimers::new(),
            on_battery: false,
            screensaver_inhibit: false,
        }
    }

    /// The position of the output named `name`, if there is one.
    pub fn find_output(&self, name: u32) -> (r: Option<usize>)
        ensures
            (match r {
                Some(i) => i < self.outputs@.len() && self.outputs@[i as int].global_name == name,
                None => !has_output(self.outputs@, name),
            }),
    {
        let mut i: usize = 0;
        while i < self.outputs.len()
            invariant
                i <= self.outputs@.len(),
                forall|j: int| 0 <= j < i ==> #[trigger] self.outputs@[j].global_name != name,
            decreases self.outputs@.len() - i,
        {
            if self.outputs[i].global_name == name {
                return Some(i);
            }
            i = i + 1;
        }
        None
    }

    /// Records a display that the server announced, powered on and not
    /// fading. Returns whether it is new; a name already known changes
    /// nothing.
    pub fn add_output_global(&mut self, global_name: u32) -> (added: bool)
        requires
            old(self).wf(),
        ensures
            final(self).wf(),
            added == !has_output(old(self).outputs@, global_name),
            added ==> final(self).outputs@ == old(self).outputs@.push(
                Output { global_name, power: PowerMode::On, fade_surface: None },
            ),
            !added ==> final(self).outputs@ == old(self).outputs@,
            final(self).conf == old(self).conf,
            final(self).timers == old(self).timers,
            final(self).on_battery == old(self).on_battery,
            final(self).screensaver_inhibit == old(self).screensaver_inhibit,
    {
        match self.find_output(global_name) {
            Some(_) => false,
            None => {
                self.outputs.push(Output { global_name, power: PowerMode::On, fade_surface: None });
                true
            },
        }
    }

    /// Forgets a display that the server retracted. Its overlay, if any, is
    /// torn down: that is the one effect returned.
    pub fn remove_output_global(&mut self, global_name: u32) -> (r: Vec<Action>)
        requires
            old(self).wf(),
        ensures
            final(self).wf(),
            !has_output(final(self).outputs@, global_name),
            has_output(old(self).outputs@, global_name) ==> exists|i: int|
                0 <= i < old(self).outputs@.len() && old(self).outputs@[i].global_name
                    == global_name && final(self).outputs@ == old(self).outputs@.remove(i) && r@
                    == if old(self).outputs@[i].fade_surface.is_some() {
                    seq![Action::DestroyFade { output: global_name }]
                } else {
                    Seq::<Action>::empty()
                },
            !has_output(old(self).outputs@, global_name) ==> final(self).outputs@ == old(
                self,
            ).outputs@ && r@.len() == 0,
            final(self).conf == old(self).conf,
            final(self).timers == old(self).timers,
            final(self).on_battery == old(self).on_battery,
            final(self).screensaver_inhibit == old(self).screensaver_inhibit,
    {
        let mut actions: Vec<Action> = Vec::new();
        match self.find_output(global_name) {
            Some(i) => {
                let ghost before = self.outputs@;
                let removed = self.outputs.remove(i);
                if removed.fade_surface.is_some() {
                    actions.push(Action::DestroyFade { output: global_name });
                }
                assert forall|j: int| 0 <= j < self.outputs@.len() implies #[trigger] self.outputs@[j].global_name != global_name by {
                    let bj = if j < i { j } else { j + 1 };
                    assert(self.outputs@[j] == before[bj]);
                    assert(before[bj].global_name != before[i as int].global_name);
                }
                assert forall|a: int, b: int|
                    0 <= a < self.outputs@.len() && 0 <= b < self.outputs@.len() && a != b
                    implies #[trigger] self.outputs@[a].global_name != #[trigger] self.outputs@[b].global_name by {
                    let ba = if a < i { a } else { a + 1 };
                    let bb = if b < i { b } else { b + 1 };
                    assert(self.outputs@[a] == before[ba]);
                    assert(self.outputs@[b] == before[bb]);
                }
                assert(actions@ =~= if before[i as int].fade_surface.is_some() {
                    seq![Action::DestroyFade { output: global_name }]
                } else {
                    Seq::<Action>::empty()
                });
            },
            None => {},
        }
        actions
    }

    /// Screen-off idle state changed. On idle every output starts fading to
    /// black; on resume every overlay goes at once and every output is
    /// powered on.
    pub fn update_screen_off_idle(&mut self, is_idle: bool, now: u64) -> (r: Vec<Action>)
        requires
            old(self).wf(),
        ensures
            final(self).wf(),
            final(self).outputs@.len() == old(self).outputs@.len(),
            forall|i: int|
                0 <= i < final(self).outputs@.len() ==> #[trigger] final(self).outputs@[i]
                    == after_screen_off(old(self).outputs@[i], is_idle, now),
            forall|i: int|
                0 <= i < final(self).outputs@.len() ==> agrees_with(
                    #[trigger] final(self).outputs@[i],
                    is_idle,
                ),
            r@ == screen_off_actions(old(self).outputs@, is_idle),
            final(self).conf == old(self).conf,
            final(self).timers == old(self).timers,
            final(self).on_battery == old(self).on_battery,
            final(self).screensaver_inhibit == old(self).screensaver_inhibit,
    {
        let ghost before = self.outputs@;
        let mut actions: Vec<Action> = Vec::new();
        let mut i: usize = 0;
        while i < self.outputs.len()
            invariant
                i <= self.outputs@.len(),
                self.outputs@.len() == before.len(),
                forall|j: int|
                    0 <= j < i ==> #[trigger] self.outputs@[j] == after_screen_off(
                        before[j],
                        is_idle,
                        now,
                    ),
                forall|j: int| i <= j < before.len() ==> #[trigger] self.outputs@[j] == before[j],
                actions@ == screen_off_actions(before.take(i as int), is_idle),
                self.conf == old(self).conf,
                self.timers == old(self).timers,
                self.on_battery == old(self).on_battery,
                self.screensaver_inhibit == old(self).screensaver_inhibit,
            decreases before.len() - i,
        {
            let o = self.outputs[i];
            assert(before.take(i + 1).drop_last() =~= before.take(i as int));
            assert(before.take(i + 1).last() == o);
            if o.fade_surface.is_some() {
                actions.push(Action::DestroyFade { output: o.global_name });
            }
            if is_idle {
                actions.push(Action::CreateFade { output: o.global_name });
                self.outputs[i] = Output {
                    fade_surface: Some(FadeBlackSurface::new(now)),
                    ..o
                };
            } else {
                actions.push(Action::SetPower { output: o.global_name, mode: PowerMode::On });
                self.outputs[i] = Output { power: PowerMode::On, fade_surface: None, ..o };
            }
            assert(actions@ =~= screen_off_actions(before.take(i + 1), is_idle));
            i = i + 1;
        }
        assert(before.take(before.len() as int) =~= before);
        actions
    }
    /// Whether no output is fading.
    pub fn no_fades(&self) -> (r: bool)
        ensures
            r == none_fading(self.outputs@),
    {
        let mut i: usize = 0;
        while i < self.outputs.len()
            invariant
                i <= self.outputs@.len(),
                forall|j: int| 0 <= j < i ==> (#[trigger] self.outputs@[j]).fade_surface.is_none(),
            decreases self.outputs@.len() - i,
        {
            if self.outputs[i].fade_surface.is_some() {
                return false;
            }
            i = i + 1;
        }
        true
    }

    /// Every output has finished fading: all of them go off, and the lock
    /// is scheduled after a short delay, so that the fade is visibly over
    /// before the session locks.
    pub fn fade_done(&mut self) -> (r: Vec<Action>)
        requires
            old(self).wf(),
        ensures
            final(self).wf(),
            final(self).outputs@ == all_off(old(self).outputs@),
            r@ == all_off_actions(old(self).outputs@).push(
                Action::ScheduleLock { delay: LOCK_SCREEN_DELAY },
            ),
            final(self).conf == old(self).conf,
            final(self).timers == old(self).timers,
            final(self).on_battery == old(self).on_battery,
            final(self).screensaver_inhibit == old(self).screensaver_inhibit,
    {
        let ghost before = self.outputs@;
        let mut actions: Vec<Action> = Vec::new();
        let mut i: usize = 0;
        while i < self.outputs.len()
            invariant
                i <= self.outputs@.len(),
                self.outputs@.len() == before.len(),
                forall|j: int| 0 <= j < i ==> #[trigger] self.outputs@[j] == powered_off(before[j]),
                forall|j: int| i <= j < before.len() ==> #[trigger] self.outputs@[j] == before[j],
                actions@ == all_off_actions(before.take(i as int)),
                self.conf == old(self).conf,
                self.timers == old(self).timers,
                self.on_battery == old(self).on_battery,
                self.screensaver_inhibit == old(self).screensaver_inhibit,
            decreases before.len() - i,
        {
            let o = self.outputs[i];
            assert(before.take(i + 1).drop_last() =~= before.take(i as int));
            actions.push(Action::SetPower { output: o.global_name, mode: PowerMode::Off });
            self.outputs[i] = Output { power: PowerMode::Off, fade_surface: None, ..o };
            i = i + 1;
        }
        assert(before.take(before.len() as int) =~= before);
        assert(self.outputs@ =~= all_off(before));
        actions.push(Action::ScheduleLock { delay: LOCK_SCREEN_DELAY });
        actions
    }

    /// A frame of the overlay of the output named `global_name` was shown
    /// at `now`: draw the next one, or end the fade once it is over.
    pub fn frame_done(&mut self, global_name: u32, now: u64) -> (r: Vec<Action>)
        requires
            old(self).wf(),
        ensures
            final(self).wf(),
            forall|i: int|
                0 <= i < old(self).outputs@.len() && #[trigger] old(self).outputs@[i].global_name
                    == global_name && old(self).outputs@[i].fade_surface.is_some()
                    ==> frame_done_post(old(self).outputs@, i, now, final(self).outputs@, r@),
            !is_fading(old(self).outputs@, global_name) ==> final(self).outputs@ == old(
                self,
            ).outputs@ && r@.len() == 0,
            final(self).conf == old(self).conf,
            final(self).timers == old(self).timers,
            final(self).on_battery == old(self).on_battery,
            final(self).screensaver_inhibit == old(self).screensaver_inhibit,
    {
        let ghost before = self.outputs@;
        let mut actions: Vec<Action> = Vec::new();
        let i = match self.find_output(global_name) {
            Some(i) => i,
            None => {
                return actions;
            },
        };
        let o = self.outputs[i];
        let fade = match o.fade_surface {
            Some(f) => f,
            None => {
                assert forall|k: int|
                    0 <= k < before.len() && #[trigger] before[k].global_name == global_name
                    implies before[k].fade_surface.is_none() by {
                    assert(k == i);
                }
                return actions;
            },
        };
        if fade.is_done(now) {
            self.outputs[i] = Output { power: PowerMode::Off, fade_surface: None, ..o };
            actions.push(Action::SetPower { output: global_name, mode: PowerMode::Off });
            actions.push(Action::DestroyFade { output: global_name });
            let ghost mid = before.update(i as int, powered_off(o));
            let ghost first = seq![
                Action::SetPower { output: global_name, mode: PowerMode::Off },
                Action::DestroyFade { output: global_name },
            ];
            assert(self.outputs@ =~= mid);
            assert(actions@ =~= first);
            if self.no_fades() {
                let mut rest = self.fade_done();
                actions.append(&mut rest);
                assert(actions@ =~= first + all_off_actions(mid).push(
                    Action::ScheduleLock { delay: LOCK_SCREEN_DELAY },
                ));
            }
        } else {
            actions.push(Action::RenderFade { output: global_name, progress: fade.update(now) });
            assert(self.outputs@ =~= before);
        }
        assert forall|k: int|
            0 <= k < before.len() && #[trigger] before[k].global_name == global_name
                && before[k].fade_surface.is_some()
            implies frame_done_post(before, k, now, self.outputs@, actions@) by {
            assert(k == i);
        }
        actions
    }

    /// The overlay of the output named `global_name` was configured at `now`:
    /// the first configure draws its first frame.
    pub fn configure_fade(&mut self, global_name: u32, now: u64) -> (r: Vec<Action>)
        requires
            old(self).wf(),
        ensures
            final(self).wf(),
            forall|i: int|
                0 <= i < old(self).outputs@.len() && #[trigger] old(self).outputs@[i].global_name
                    == global_name && old(self).outputs@[i].fade_surface.is_some()
                    ==> configure_post(old(self).outputs@, i, now, final(self).outputs@, r@),
            !is_fading(old(self).outputs@, global_name) ==> final(self).outputs@ == old(
                self,
            ).outputs@ && r@.len() == 0,
            final(self).conf == old(self).conf,
            final(self).timers == old(self).timers,
            final(self).on_battery == old(self).on_battery,
            final(self).screensaver_inhibit == old(self).screensaver_inhibit,
    {
        let ghost before = self.outputs@;
        let mut actions: Vec<Action> = Vec::new();
        let i = match self.find_output(global_name) {
            Some(i) => i,
            None => {
                return actions;
            },
        };
        let o = self.outputs[i];
        let mut fade = match o.fade_surface {
            Some(f) => f,
            None => {
                assert forall|k: int|
                    0 <= k < before.len() && #[trigger] before[k].global_name == global_name
                    implies before[k].fade_surface.is_none() by {
                    assert(k == i);
                }
                return actions;
            },
        };
        if fade.configure() {
            self.outputs[i] = Output { fade_surface: Some(fade), ..o };
            actions.push(Action::RenderFade { output: global_name, progress: fade.update(now) });
        }
        assert forall|k: int|
            0 <= k < before.len() && #[trigger] before[k].global_name == global_name
                && before[k].fade_surface.is_some()
            implies configure_post(before, k, now, self.outputs@, actions@) by {
            assert(k == i);
            if !o.fade_surface.unwrap().has_first_configure {
                assert(self.outputs@ =~= before.update(i as int, self.outputs@[i as int]));
            }
        }
        actions
    }

    /// Suspend idle state changed: suspend on idle. Suspend is a single
    /// action, not a held state, so a resume does nothing.
    pub fn update_suspend_idle(&self, is_idle: bool) -> (r: Vec<Action>)
        ensures
            r@ == suspend_actions(is_idle),
    {
        let mut actions: Vec<Action> = Vec::new();
        if is_idle {
            actions.push(Action::Suspend);
        }
        assert(actions@ =~= suspend_actions(is_idle));
        actions
    }

    /// Brings the idle subscriptions in line with the current inputs. A
    /// subscription is replaced only where its timeout changes; after a
    /// replacement the screen-off state starts over as "not idle", since the
    /// server reports a resume only after an idle.
    pub fn recreate_notifications(&mut self) -> (r: Vec<Action>)
        requires
            old(self).wf(),
        ensures
            final(self).wf(),
            recreated(
                old(self).outputs@,
                old(self).timers,
                old(self).screensaver_inhibit,
                old(self).on_battery,
                old(self).conf,
                *final(self),
                r@,
            ),
    {
        let screen_off_time: Option<u32> = if self.screensaver_inhibit {
            None
        } else {
            self.conf.screen_off_time
        };
        let suspend_time: Option<u32> = if self.screensaver_inhibit {
            None
        } else if self.on_battery {
            self.conf.suspend_on_battery_time
        } else {
            self.conf.suspend_on_ac_time
        };
        let update = self.timers.recompute(screen_off_time, suspend_time);
        let changes = update.changes;
        let mut actions: Vec<Action> = Vec::new();
        let mut i: usize = 0;
        while i < changes.len()
            invariant
                i <= changes@.len(),
                actions@ == timer_actions(changes@.take(i as int)),
            decreases changes@.len() - i,
        {
            actions.push(Action::Timer(changes[i]));
            assert(timer_actions(changes@.take(i + 1)) =~= timer_actions(changes@.take(i as int)).push(
                Action::Timer(changes@[i as int]),
            ));
            i = i + 1;
        }
        assert(changes@.take(changes@.len() as int) =~= changes@);
        if update.screen_off_reset {
            // The time is of no account on a resume.
            let mut resumed = self.update_screen_off_idle(false, 0);
            actions.append(&mut resumed);
        } else {
            assert(actions@ + Seq::<Action>::empty() =~= actions@);
        }
        if update.suspend_reset {
            let mut resumed = self.update_suspend_idle(false);
            assert(actions@ + resumed@ =~= actions@);
            actions.append(&mut resumed);
        }
        actions
    }

    /// An idle or resume event of the subscription of generation
    /// `generation`, at `now`. Events of a superseded subscription are
    /// dropped.
    pub fn idle_event(&mut self, generation: u64, is_idle: bool, now: u64) -> (r: Vec<Action>)
        requires
            old(self).wf(),
        ensures
            final(self).wf(),
            final(self).outputs@.len() == old(self).outputs@.len(),
            current_purpose(old(self).timers, generation) == Some(IdlePurpose::ScreenOff) ==> {
                &&& forall|i: int|
                    0 <= i < old(self).outputs@.len() ==> #[trigger] final(self).outputs@[i]
                        == after_screen_off(old(self).outputs@[i], is_idle, now)
                &&& r@ == screen_off_actions(old(self).outputs@, is_idle)
            },
            current_purpose(old(self).timers, generation) == Some(IdlePurpose::Suspend) ==> {
                &&& final(self).outputs@ == old(self).outputs@
                &&& r@ == suspend_actions(is_idle)
            },
            current_purpose(old(self).timers, generation) == None::<IdlePurpose> ==> {
                &&& final(self).outputs@ == old(self).outputs@
                &&& r@.len() == 0
            },
            final(self).conf == old(self).conf,
            final(self).timers == old(self).timers,
            final(self).on_battery == old(self).on_battery,
            final(self).screensaver_inhibit == old(self).screensaver_inhibit,
    {
        match self.timers.purpose_of(generation) {
            Some(IdlePurpose::ScreenOff) => self.update_screen_off_idle(is_idle, now),
            Some(IdlePurpose::Suspend) => self.update_suspend_idle(is_idle),
            None => Vec::new(),
        }
    }

    /// A message from a background task: the power source or the aggregate
    /// inhibition changed. Either way the subscriptions are recomputed.
    pub fn handle_event(&mut self, event: Event) -> (r: Vec<Action>)
        requires
            old(self).wf(),
        ensures
            final(self).wf(),
            final(self).on_battery == match event {
                Event::OnBattery(value) => value,
                Event::ScreensaverInhibit(_) => old(self).on_battery,
            },
            final(self).screensaver_inhibit == match event {
                Event::OnBattery(_) => old(self).screensaver_inhibit,
                Event::ScreensaverInhibit(value) => value,
            },
            recreated(
                old(self).outputs@,
                old(self).timers,
                final(self).screensaver_inhibit,
                final(self).on_battery,
                old(self).conf,
                *final(self),
                r@,
            ),
    {
        match event {
            Event::OnBattery(value) => {
                self.on_battery = value;
            },
            Event::ScreensaverInhibit(value) => {
                self.screensaver_inhibit = value;
            },
        }
        self.recreate_notifications()
    }

    /// The settings changed: the keys named in `keys` take their value from
    /// `new`, and the subscriptions are recomputed.
    pub fn update_config(&mut self, new: &CosmicIdleConfig, keys: &Vec<ConfigKey>) -> (r: Vec<Action>)
        requires
            old(self).wf(),
        ensures
            final(self).wf(),
            final(self).conf.screen_off_time == if keys@.contains(ConfigKey::ScreenOffTime) {
                new.screen_off_time
            } else {
                old(self).conf.screen_off_time
            },
            final(self).conf.suspend_on_battery_time == if keys@.contains(
                ConfigKey::SuspendOnBatteryTime,
            ) {
                new.suspend_on_battery_time
            } else {
                old(self).conf.suspend_on_battery_time
            },
            final(self).conf.suspend_on_ac_time == if keys@.contains(ConfigKey::SuspendOnAcTime) {
                new.suspend_on_ac_time
            } else {
                old(self).conf.suspend_on_ac_time
            },
            recreated(
                old(self).outputs@,
                old(self).timers,
                old(self).screensaver_inhibit,
                old(self).on_battery,
                final(self).conf,
                *final(self),
                r@,
            ),
    {
        self.conf.update_keys(new, keys);
        self.recreate_notifications()
    }
}

} // verus!
