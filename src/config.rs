//! Idle settings: the three optional timeouts, in milliseconds.

use vstd::prelude::*;

verus! {

/// Screen off after 15 minutes by default.
pub const DEFAULT_SCREEN_OFF_TIME: u32 = 15 * 60 * 1000;

/// Suspend after 15 minutes on battery by default.
pub const DEFAULT_SUSPEND_ON_BATTERY_TIME: u32 = 15 * 60 * 1000;

/// Suspend after 30 minutes on AC power by default.
pub const DEFAULT_SUSPEND_ON_AC_TIME: u32 = 30 * 60 * 1000;

/// Idle timeouts; `None` disables the corresponding action.
#[derive(Clone, Copy, Debug, PartialEq, Eq, Structural)]
pub struct CosmicIdleConfig {
    /// Screen off idle time, in ms
    pub screen_off_time: Option<u32>,
    /// Suspend idle time when on battery, in ms
    pub suspend_on_battery_time: Option<u32>,
    /// Suspend idle time when on ac, in ms
    pub suspend_on_ac_time: Option<u32>,
}

impl Default for CosmicIdleConfig {
    fn default() -> (r: Self)
        ensures
            r.screen_off_time == Some(DEFAULT_SCREEN_OFF_TIME),
            r.suspend_on_battery_time == Some(DEFAULT_SUSPEND_ON_BATTERY_TIME),
            r.suspend_on_ac_time == Some(DEFAULT_SUSPEND_ON_AC_TIME),
    {
        CosmicIdleConfig {
            screen_off_time: Some(DEFAULT_SCREEN_OFF_TIME),
            suspend_on_battery_time: Some(DEFAULT_SUSPEND_ON_BATTERY_TIME),
            suspend_on_ac_time: Some(DEFAULT_SUSPEND_ON_AC_TIME),
        }
    }
}

/// The name of one setting, as a change notification lists it.
#[derive(Clone, Copy, Debug, PartialEq, Eq, Structural)]
pub enum ConfigKey {
    ScreenOffTime,
    SuspendOnBatteryTime,
    SuspendOnAcTime,
}

impl CosmicIdleConfig {
    /// Takes over from `new` exactly the settings named in `keys`; the others
    /// keep their value.
    pub fn update_keys(&mut self, new: &CosmicIdleConfig, keys: &Vec<ConfigKey>)
        ensures
            final(self).screen_off_time == if keys@.contains(ConfigKey::ScreenOffTime) {
                new.screen_off_time
            } else {
                old(self).screen_off_time
            },
            final(self).suspend_on_battery_time == if keys@.contains(
                ConfigKey::SuspendOnBatteryTime,
            ) {
                new.suspend_on_battery_time
            } else {
                old(self).suspend_on_battery_time
            },
            final(self).suspend_on_ac_time == if keys@.contains(ConfigKey::SuspendOnAcTime) {
                new.suspend_on_ac_time
            } else {
                old(self).suspend_on_ac_time
            },
    {
        let mut i: usize = 0;
        while i < keys.len()
            invariant
                i <= keys@.len(),
                self.screen_off_time == if keys@.take(i as int).contains(ConfigKey::ScreenOffTime) {
                    new.screen_off_time
                } else {
                    old(self).screen_off_time
                },
                self.suspend_on_battery_time == if keys@.take(i as int).contains(
                    ConfigKey::SuspendOnBatteryTime,
                ) {
                    new.suspend_on_battery_time
                } else {
                    old(self).suspend_on_battery_time
                },
                self.suspend_on_ac_time == if keys@.take(i as int).contains(
                    ConfigKey::SuspendOnAcTime,
                ) {
                    new.suspend_on_ac_time
                } else {
                    old(self).suspend_on_ac_time
                },
            decreases keys@.len() - i,
        {
            let key = keys[i];
            let ghost prev = keys@.take(i as int);
            assert(keys@.take(i + 1) =~= prev.push(key));
            assert forall|k: ConfigKey| #[trigger] prev.push(key).contains(k) == (prev.contains(k) || k == key) by {
                if prev.push(key).contains(k) && k != key {
                    let j = choose|j: int| 0 <= j < prev.len() + 1 && prev.push(key)[j] == k;
                    assert(prev[j] == k);
                }
                if prev.contains(k) {
                    let j = choose|j: int| 0 <= j < prev.len() && prev[j] == k;
                    assert(prev.push(key)[j] == k);
                }
                if k == key {
                    assert(prev.push(key)[prev.len() as int] == k);
                }
            }
            match key {
                ConfigKey::ScreenOffTime => {
                    self.screen_off_time = new.screen_off_time;
                },
                ConfigKey::SuspendOnBatteryTime => {
                    self.suspend_on_battery_time = new.suspend_on_battery_time;
                },
                ConfigKey::SuspendOnAcTime => {
                    self.suspend_on_ac_time = new.suspend_on_ac_time;
                },
            }
            i = i + 1;
        }
        assert(keys@.take(keys@.len() as int) =~= keys@);
    }
}

} // verus!
