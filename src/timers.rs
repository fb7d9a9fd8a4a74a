//! The two idle-notification subscriptions (screen off, suspend) and their
//! recomputation from the current inputs.

use vstd::prelude::*;
use crate::config::CosmicIdleConfig;

verus! {

/// What an idle notification is for.
#[derive(Clone, Copy, Debug, PartialEq, Eq, Structural)]
pub enum IdlePurpose {
    ScreenOff,
    Suspend,
}

/// A live idle-notification subscription. Each one created gets a fresh
/// generation, so that events of a superseded subscription can be told apart.
#[derive(Clone, Copy, Debug, PartialEq, Eq, Structural)]
pub struct IdleNotification {
    pub generation: u64,
    /// Timeout, in ms
    pub time: u32,
}

/// A subscription to create or destroy on the display server.
#[derive(Clone, Copy, Debug, PartialEq, Eq, Structural)]
pub enum TimerChange {
    Destroy { purpose: IdlePurpose, generation: u64 },
    Create { purpose: IdlePurpose, generation: u64, time: u32 },
}

/// Both subscriptions, and the generation that the next one created gets.
#[derive(Clone, Copy, Debug, PartialEq, Eq, Structural)]
pub struct IdleTimers {
    pub screen_off: Option<IdleNotification>,
    pub suspend: Option<IdleNotification>,
    pub next_generation: u64,
}

/// The outcome of a recomputation: the subscriptions to destroy and create,
/// in order, and for each purpose whether its subscription was replaced (so
/// that its idle state starts over as "not idle").
pub struct TimerUpdate {
    pub changes: Vec<TimerChange>,
    pub screen_off_reset: bool,
    pub suspend_reset: bool,
}

/// The screen-off timeout wanted now: none while inhibited.
pub open spec fn screen_off_target(inhibited: bool, conf: CosmicIdleConfig) -> Option<u32> {
    if inhibited {
        None
    } else {
        conf.screen_off_time
    }
}

/// The suspend timeout wanted now: none while inhibited, else the one for
/// the current power source.
pub open spec fn suspend_target(inhibited: bool, on_battery: bool, conf: CosmicIdleConfig) -> Option<
    u32,
> {
    if inhibited {
        None
    } else if on_battery {
        conf.suspend_on_battery_time
    } else {
        conf.suspend_on_ac_time
    }
}

/// The timeout of a subscription, `None` where there is none.
pub open spec fn timeout_of(n: Option<IdleNotification>) -> Option<u32> {
    match n {
        Some(x) => Some(x.time),
        None => None,
    }
}

/// The generation after `g`; it wraps round after the largest.
pub open spec fn next_gen(g: u64) -> u64 {
    if g == u64::MAX {
        0
    } else {
        (g + 1) as u64
    }
}

/// Whether a slot holding `cur` is replaced to reach `target`.
pub open spec fn is_reset(cur: Option<IdleNotification>, target: Option<u32>) -> bool {
    timeout_of(cur) != target
}

/// The slot after retargeting `cur` to `target`, a new subscription taking
/// generation `gen`.
pub open spec fn slot_after(cur: Option<IdleNotification>, target: Option<u32>, gen: u64) -> Option<
    IdleNotification,
> {
    if !is_reset(cur, target) {
        cur
    } else {
        match target {
            Some(t) => Some(IdleNotification { generation: gen, time: t }),
            None => None,
        }
    }
}

/// The generation counter after retargeting one slot.
pub open spec fn gen_after(cur: Option<IdleNotification>, target: Option<u32>, gen: u64) -> u64 {
    if is_reset(cur, target) && target.is_some() {
        next_gen(gen)
    } else {
        gen
    }
}

/// The changes that retargeting one slot asks for: none where the timeout
/// stays, else the old subscription's destruction, then the new one's
/// creation.
pub open spec fn slot_changes(
    purpose: IdlePurpose,
    cur: Option<IdleNotification>,
    target: Option<u32>,
    gen: u64,
) -> Seq<TimerChange> {
    if !is_reset(cur, target) {
        Seq::empty()
    } else {
        let destroy = match cur {
            Some(n) => seq![TimerChange::Destroy { purpose, generation: n.generation }],
            None => Seq::empty(),
        };
        let create = match target {
            Some(t) => seq![TimerChange::Create { purpose, generation: gen, time: t }],
            None => Seq::empty(),
        };
        destroy + create
    }
}

/// The timers after a recomputation towards the two targets.
pub open spec fn timers_after(t: IdleTimers, screen_off: Option<u32>, suspend: Option<u32>) -> IdleTimers {
    let g1 = gen_after(t.screen_off, screen_off, t.next_generation);
    IdleTimers {
        screen_off: slot_after(t.screen_off, screen_off, t.next_generation),
        suspend: slot_after(t.suspend, suspend, g1),
        next_generation: gen_after(t.suspend, suspend, g1),
    }
}

/// The changes of a recomputation towards the two targets: screen off first.
pub open spec fn timer_changes(t: IdleTimers, screen_off: Option<u32>, suspend: Option<u32>) -> Seq<
    TimerChange,
> {
    let g1 = gen_after(t.screen_off, screen_off, t.next_generation);
    slot_changes(IdlePurpose::ScreenOff, t.screen_off, screen_off, t.next_generation)
        + slot_changes(IdlePurpose::Suspend, t.suspend, suspend, g1)
}

/// Retargets one slot, appending the changes to `changes`; returns whether
/// the slot was replaced.
fn retarget(
    slot: &mut Option<IdleNotification>,
    purpose: IdlePurpose,
    target: Option<u32>,
    next_generation: &mut u64,
    changes: &mut Vec<TimerChange>,
) -> (reset: bool)
    ensures
        reset == is_reset(*old(slot), target),
        *final(slot) == slot_after(*old(slot), target, *old(next_generation)),
        *final(next_generation) == gen_after(*old(slot), target, *old(next_generation)),
        final(changes)@ == old(changes)@ + slot_changes(
            purpose,
            *old(slot),
            target,
            *old(next_generation),
        ),
{
    let current: Option<u32> = match slot {
        Some(n) => Some(n.time),
        None => None,
    };
    if current == target {
        assert(old(changes)@ + Seq::<TimerChange>::empty() =~= old(changes)@);
        return false;
    }
    let ghost before = changes@;
    match slot {
        Some(n) => {
            changes.push(TimerChange::Destroy { purpose, generation: n.generation });
        },
        None => {},
    }
    match target {
        Some(t) => {
            let generation = *next_generation;
            changes.push(TimerChange::Create { purpose, generation, time: t });
            *slot = Some(IdleNotification { generation, time: t });
            *next_generation = if generation == u64::MAX {
                0
            } else {
                generation + 1
            };
        },
        None => {
            *slot = None;
        },
    }
    assert(changes@ =~= before + slot_changes(purpose, *old(slot), target, *old(next_generation)));
    true
}

impl IdleTimers {
    /// No subscription yet.
    pub fn new() -> (r: IdleTimers)
        ensures
            r.screen_off.is_none(),
            r.suspend.is_none(),
            r.next_generation == 0,
    {
        IdleTimers { screen_off: None, suspend: None, next_generation: 0 }
    }

    /// Brings both subscriptions to the wanted timeouts. A subscription whose
    /// timeout differs from its target is destroyed, and a new one is created
    /// where the target is a timeout; a slot whose timeout matches is left as
    /// it is.
    pub fn recompute(&mut self, screen_off: Option<u32>, suspend: Option<u32>) -> (r: TimerUpdate)
        ensures
            *final(self) == timers_after(*old(self), screen_off, suspend),
            timeout_of(final(self).screen_off) == screen_off,
            timeout_of(final(self).suspend) == suspend,
            r.changes@ == timer_changes(*old(self), screen_off, suspend),
            r.screen_off_reset == is_reset(old(self).screen_off, screen_off),
            r.suspend_reset == is_reset(old(self).suspend, suspend),
    {
        let mut changes: Vec<TimerChange> = Vec::new();
        let screen_off_reset = retarget(
            &mut self.screen_off,
            IdlePurpose::ScreenOff,
            screen_off,
            &mut self.next_generation,
            &mut changes,
        );
        let suspend_reset = retarget(
            &mut self.suspend,
            IdlePurpose::Suspend,
            suspend,
            &mut self.next_generation,
            &mut changes,
        );
        assert(changes@ =~= timer_changes(*old(self), screen_off, suspend));
        TimerUpdate { changes, screen_off_reset, suspend_reset }
    }

    /// Which purpose, if any, the subscription of generation `generation`
    /// currently serves; `None` for a superseded one.
    pub fn purpose_of(&self, generation: u64) -> (r: Option<IdlePurpose>)
        ensures
            r == current_purpose(*self, generation),
    {
        match self.screen_off {
            Some(n) => {
                if n.generation == generation {
                    return Some(IdlePurpose::ScreenOff);
                }
            },
            None => {},
        }
        match self.suspend {
            Some(n) => {
                if n.generation == generation {
                    return Some(IdlePurpose::Suspend);
                }
            },
            None => {},
        }
        None
    }
}

/// The purpose that the live subscription of generation `generation` serves.
pub open spec fn current_purpose(t: IdleTimers, generation: u64) -> Option<IdlePurpose> {
    if t.screen_off.is_some() && t.screen_off.unwrap().generation == generation {
        Some(IdlePurpose::ScreenOff)
    } else if t.suspend.is_some() && t.suspend.unwrap().generation == generation {
        Some(IdlePurpose::Suspend)
    } else {
        None
    }
}

/// Recomputing twice towards the same targets changes nothing the second
/// time: no subscription is destroyed or created, and no idle state is reset.
pub proof fn lemma_recompute_idempotent(t: IdleTimers, screen_off: Option<u32>, suspend: Option<u32>)
    ensures
        timer_changes(timers_after(t, screen_off, suspend), screen_off, suspend) =~= Seq::<
            TimerChange,
        >::empty(),
        timers_after(timers_after(t, screen_off, suspend), screen_off, suspend) == timers_after(
            t,
            screen_off,
            suspend,
        ),
        !is_reset(timers_after(t, screen_off, suspend).screen_off, screen_off),
        !is_reset(timers_after(t, screen_off, suspend).suspend, suspend),
{
}

} // verus!
