//! The persisted configuration and the statistics counters, with their
//! invariants and the rate-selection ring.

use vstd::prelude::*;

use crate::keys::{KeyCombo, KeyId};

verus! {

/// The slowest and fastest configurable rates, in actions per second.
pub const MIN_RATE: u32 = 1;

pub const MAX_RATE: u32 = 1000;

/// The rate used when the configuration cannot name one.
pub const FALLBACK_RATE: u32 = 20;

/// Lifetime and per-session action counters. Lifetime counters never
/// decrease; the session counter restarts at each session start and on an
/// explicit reset.
#[derive(Clone, Copy, Debug, PartialEq, Eq)]
pub struct Statistics {
    pub total_clicks: u64,
    pub session_clicks: u64,
    pub total_sessions: u64,
    pub last_session_start: u64,
    pub session_duration: u64,
}

impl Default for Statistics {
    fn default() -> (s: Statistics)
        ensures
            s == (Statistics {
                total_clicks: 0,
                session_clicks: 0,
                total_sessions: 0,
                last_session_start: 0,
                session_duration: 0,
            }),
    {
        Statistics {
            total_clicks: 0,
            session_clicks: 0,
            total_sessions: 0,
            last_session_start: 0,
            session_duration: 0,
        }
    }
}

impl Statistics {
    /// One successful action: both the lifetime and the session counter
    /// grow by one, held at the top of their range instead of wrapping.
    pub fn record_click(&mut self)
        ensures
            final(self).total_clicks == if old(self).total_clicks < u64::MAX {
                old(self).total_clicks + 1
            } else {
                u64::MAX as int
            },
            final(self).session_clicks == if old(self).session_clicks < u64::MAX {
                old(self).session_clicks + 1
            } else {
                u64::MAX as int
            },
            final(self).total_sessions == old(self).total_sessions,
            final(self).last_session_start == old(self).last_session_start,
            final(self).session_duration == old(self).session_duration,
    {
        if self.total_clicks < u64::MAX {
            self.total_clicks = self.total_clicks + 1;
        }
        if self.session_clicks < u64::MAX {
            self.session_clicks = self.session_clicks + 1;
        }
    }

    /// A new session begins: the session counter restarts, the lifetime
    /// session count grows by one, and the session-start stamp is taken.
    pub fn start_session(&mut self, now_secs: u64)
        ensures
            final(self).total_clicks == old(self).total_clicks,
            final(self).session_clicks == 0,
            final(self).total_sessions == if old(self).total_sessions < u64::MAX {
                old(self).total_sessions + 1
            } else {
                u64::MAX as int
            },
            final(self).last_session_start == now_secs,
            final(self).session_duration == old(self).session_duration,
    {
        if self.total_sessions < u64::MAX {
            self.total_sessions = self.total_sessions + 1;
        }
        self.session_clicks = 0;
        self.last_session_start = now_secs;
    }

    /// An explicit reset: session-scoped counters return to zero while the
    /// lifetime click counter is untouched.
    pub fn reset(&mut self)
        ensures
            final(self).total_clicks == old(self).total_clicks,
            final(self).session_clicks == 0,
            final(self).total_sessions == 0,
            final(self).last_session_start == old(self).last_session_start,
            final(self).session_duration == 0,
    {
        self.session_clicks = 0;
        self.total_sessions = 0;
        self.session_duration = 0;
    }
}

/// The persisted configuration: preset rates, the selection between them
/// and an optional custom rate, the action target, the hotkey binding, the
/// statistics, and the audio flag.
#[derive(Clone, Debug)]
pub struct Config {
    pub cps_presets: Vec<u32>,
    pub selected_preset: usize,
    pub custom_cps_value: Option<u32>,
    pub using_custom_cps: bool,
    pub selected_button: usize,
    pub toggle_keybind: Option<KeyCombo>,
    pub statistics: Statistics,
    pub sound_enabled: bool,
}

impl Config {
    /// The binding a fresh configuration carries: Ctrl+Shift+B.
    pub open spec fn default_keybind() -> KeyCombo {
        KeyCombo { ctrl: true, shift: true, alt: false, key: KeyId::Letter('B') }
    }

    /// The invariant every configuration the interface works on upholds.
    pub open spec fn wf(self) -> bool {
        &&& self.cps_presets.len() >= 1
        &&& forall|i: int|
            0 <= i < self.cps_presets.len() ==> MIN_RATE <= #[trigger] self.cps_presets[i]
                <= MAX_RATE
        &&& self.selected_preset < self.cps_presets.len()
        &&& (self.custom_cps_value matches Some(v) ==> MIN_RATE <= v <= MAX_RATE)
        &&& (self.using_custom_cps ==> self.custom_cps_value is Some)
        &&& self.selected_button < 2
        &&& (self.toggle_keybind matches Some(k) ==> k.wf())
    }

    /// The rate currently in force: the custom value when it is active,
    /// else the selected preset, else the fallback.
    pub open spec fn rate_spec(self) -> u32 {
        if self.using_custom_cps {
            match self.custom_cps_value {
                Some(v) => v,
                None => FALLBACK_RATE,
            }
        } else {
            if self.selected_preset < self.cps_presets.len() {
                self.cps_presets[self.selected_preset as int]
            } else {
                FALLBACK_RATE
            }
        }
    }

    pub fn current_cps(&self) -> (r: u32)
        ensures
            r == self.rate_spec(),
    {
        if self.using_custom_cps {
            match self.custom_cps_value {
                Some(v) => v,
                None => FALLBACK_RATE,
            }
        } else {
            if self.selected_preset < self.cps_presets.len() {
                self.cps_presets[self.selected_preset]
            } else {
                FALLBACK_RATE
            }
        }
    }

    /// The selection ring is the presets followed by the custom value when
    /// one exists; `ring_pos` is the index of the current selection on it.
    pub open spec fn ring_len(self) -> int {
        self.cps_presets.len() + if self.custom_cps_value is Some {
            1int
        } else {
            0int
        }
    }

    pub open spec fn ring_pos(self) -> int {
        if self.using_custom_cps {
            self.cps_presets.len() as int
        } else {
            self.selected_preset as int
        }
    }

    /// The configuration after moving the selection to ring position `pos`:
    /// the last ring slot is the custom value, every other slot a preset.
    pub open spec fn at_ring_pos(self, pos: int) -> Config {
        if pos == self.cps_presets.len() {
            Config { using_custom_cps: true, ..self }
        } else {
            Config { using_custom_cps: false, selected_preset: pos as usize, ..self }
        }
    }

    /// One step down the ring, wrapping at the end.
    pub open spec fn ring_next(self) -> int {
        if self.ring_pos() + 1 < self.ring_len() {
            self.ring_pos() + 1
        } else {
            0int
        }
    }

    /// One step up the ring, wrapping at the start.
    pub open spec fn ring_prev(self) -> int {
        if self.ring_pos() == 0 {
            self.ring_len() - 1
        } else {
            self.ring_pos() - 1
        }
    }

    /// Wraparound stated as modular arithmetic: the ring steps are exactly
    /// the successor and predecessor modulo the ring length.
    pub proof fn lemma_ring_steps_are_modular(self)
        requires
            self.wf(),
            self.ring_pos() < self.ring_len(),
        ensures
            self.ring_next() == (self.ring_pos() + 1) % self.ring_len(),
            self.ring_prev() == (self.ring_pos() + self.ring_len() - 1) % self.ring_len(),
    {
        let n = self.ring_len();
        let p = self.ring_pos();
        if p + 1 < n {
            vstd::arithmetic::div_mod::lemma_small_mod((p + 1) as nat, n as nat);
        } else {
            vstd::arithmetic::div_mod::lemma_mod_self_0(n);
        }
        if p == 0 {
            vstd::arithmetic::div_mod::lemma_small_mod((n - 1) as nat, n as nat);
        } else {
            vstd::arithmetic::div_mod::lemma_small_mod((p - 1) as nat, n as nat);
            assert((p + n - 1) % n == (p - 1) % n) by {
                vstd::arithmetic::div_mod::lemma_mod_add_multiples_vanish(p - 1, n);
            };
        }
    }

    /// Repairs a configuration read from storage so that the invariant
    /// holds, keeping every field the invariant already allows.
    pub fn sanitized(&self) -> (r: Config)
        ensures
            r.wf(),
            r.cps_presets@ == if self.presets_ok() {
                self.cps_presets@
            } else {
                seq![20u32, 30u32, 40u32, 50u32]
            },
            r.selected_preset == if self.selected_preset < r.cps_presets@.len() {
                self.selected_preset as int
            } else {
                0int
            },
            r.custom_cps_value == if self.custom_cps_value matches Some(v) && MIN_RATE <= v
                <= MAX_RATE {
                self.custom_cps_value
            } else {
                None::<u32>
            },
            r.using_custom_cps == (self.using_custom_cps && r.custom_cps_value is Some),
            r.selected_button == self.selected_button as int % 2,
            r.toggle_keybind == if self.toggle_keybind matches Some(k) && k.wf() {
                self.toggle_keybind
            } else {
                Some(Config::default_keybind())
            },
            r.statistics == self.statistics,
            r.sound_enabled == self.sound_enabled,
    {
        let presets: Vec<u32> = if self.presets_in_range() {
            self.cps_presets.clone()
        } else {
            let mut d: Vec<u32> = Vec::new();
            d.push(20);
            d.push(30);
            d.push(40);
            d.push(50);
            assert(d@ =~= seq![20u32, 30u32, 40u32, 50u32]);
            d
        };
        let selected_preset = if self.selected_preset < presets.len() {
            self.selected_preset
        } else {
            0
        };
        let custom_cps_value = match self.custom_cps_value {
            Some(v) => if MIN_RATE <= v && v <= MAX_RATE {
                Some(v)
            } else {
                None
            },
            None => None,
        };
        let using_custom_cps = self.using_custom_cps && custom_cps_value.is_some();
        let toggle_keybind = match self.toggle_keybind {
            Some(k) => if k.key.is_wf() {
                Some(k)
            } else {
                Some(KeyCombo { ctrl: true, shift: true, alt: false, key: KeyId::Letter('B') })
            },
            None => Some(KeyCombo { ctrl: true, shift: true, alt: false, key: KeyId::Letter('B') }),
        };
        Config {
            cps_presets: presets,
            selected_preset,
            custom_cps_value,
            using_custom_cps,
            selected_button: self.selected_button % 2,
            toggle_keybind,
            statistics: self.statistics,
            sound_enabled: self.sound_enabled,
        }
    }

    /// Whether the stored preset list can be kept as it is.
    pub open spec fn presets_ok(self) -> bool {
        self.cps_presets.len() >= 1 && forall|i: int|
            0 <= i < self.cps_presets.len() ==> MIN_RATE <= #[trigger] self.cps_presets[i]
                <= MAX_RATE
    }

    fn presets_in_range(&self) -> (r: bool)
        ensures
            r == self.presets_ok(),
    {
        if self.cps_presets.len() == 0 {
            return false;
        }
        let mut i: usize = 0;
        while i < self.cps_presets.len()
            invariant
                i <= self.cps_presets.len(),
                forall|j: int|
                    0 <= j < i ==> MIN_RATE <= #[trigger] self.cps_presets[j] <= MAX_RATE,
            decreases self.cps_presets.len() - i,
        {
            let v = self.cps_presets[i];
            if v < MIN_RATE || v > MAX_RATE {
                return false;
            }
            i = i + 1;
        }
        true
    }
}

impl Default for Config {
    fn default() -> (c: Config)
        ensures
            c.cps_presets@ == seq![20u32, 30u32, 40u32, 50u32],
            c.selected_preset == 0,
            c.custom_cps_value is None,
            !c.using_custom_cps,
            c.selected_button == 0,
            c.toggle_keybind == Some(Config::default_keybind()),
            c.statistics == (Statistics {
                total_clicks: 0,
                session_clicks: 0,
                total_sessions: 0,
                last_session_start: 0,
                session_duration: 0,
            }),
            c.sound_enabled,
            c.wf(),
    {
        let mut presets: Vec<u32> = Vec::new();
        presets.push(20);
        presets.push(30);
        presets.push(40);
        presets.push(50);
        assert(presets@ =~= seq![20u32, 30u32, 40u32, 50u32]);
        Config {
            cps_presets: presets,
            selected_preset: 0,
            custom_cps_value: None,
            using_custom_cps: false,
            selected_button: 0,
            toggle_keybind: Some(
                KeyCombo { ctrl: true, shift: true, alt: false, key: KeyId::Letter('B') },
            ),
            statistics: Statistics {
                total_clicks: 0,
                session_clicks: 0,
                total_sessions: 0,
                last_session_start: 0,
                session_duration: 0,
            },
            sound_enabled: true,
        }
    }
}

} // verus!
