//! The interface's input-mode state machine.
//!
//! Every incoming key event is interpreted against the current input mode;
//! the per-mode transition relations below state exactly what each event
//! does to the interface state and which user-visible notice it owes.

use vstd::prelude::*;

use crate::audio::AudioManager;
use crate::config::{Config, Statistics, MAX_RATE, MIN_RATE};
use crate::keys::{KeyCode, KeyCombo, KeyId, KeyInput};

verus! {

/// The rate input buffer holds at most this many digits.
pub const RATE_INPUT_MAX_DIGITS: usize = 3;

/// How long a capture request waits before keys are captured, so that the
/// chord that requested the capture can settle.
pub const CAPTURE_DEBOUNCE_MS: u64 = 800;

/// The help screen's scroll offset is bounded by this.
pub const HELP_SCROLL_MAX: usize = 20;

#[derive(Clone, Copy, Debug, PartialEq, Eq)]
pub enum InputMode {
    Normal,
    EditingCps,
    AwaitingKeybind,
    SettingKeybind,
    ShowingHelp,
}

/// A user-visible change that owes a best-effort notification.
#[derive(Clone, Copy, Debug, PartialEq, Eq)]
pub enum Notice {
    Visibility { shown: bool },
    AudioToggled { enabled: bool },
    StatsCleared,
    RateSet { rate: u32 },
    HotkeySet { combo: KeyCombo },
}

/// The interface state. The shared-state hub mirrors `show_tui`,
/// `current_cps` and `current_button` to the other threads; the values
/// here are the authoritative ones the state machine computes.
pub struct App {
    pub config: Config,
    /// Digit values (0..=9) of the rate being typed, most significant first.
    pub custom_cps_input: Vec<u8>,
    pub input_mode: InputMode,
    /// When the capture debounce began, on the process's monotonic clock.
    pub keybind_wait_start: Option<u64>,
    /// When the current session's counters were last restarted.
    pub session_start_ms: u64,
    pub show_tui: bool,
    pub current_cps: u32,
    pub current_button: usize,
    pub audio_manager: AudioManager,
    pub help_scroll: usize,
    pub should_quit: bool,
    pub needs_redraw: bool,
}

/// The numeric value of a digit buffer, most significant digit first.
pub open spec fn digits_val(s: Seq<u8>) -> nat
    decreases s.len(),
{
    if s.len() == 0 {
        0
    } else {
        (10 * digits_val(s.drop_last()) + s.last()) as nat
    }
}

pub open spec fn pow10(n: nat) -> nat
    decreases n,
{
    if n == 0 {
        1
    } else {
        10 * pow10((n - 1) as nat)
    }
}

pub open spec fn buffer_wf(s: Seq<u8>) -> bool {
    s.len() <= RATE_INPUT_MAX_DIGITS && forall|i: int| 0 <= i < s.len() ==> #[trigger] s[i] < 10
}

pub open spec fn is_digit_char(c: char) -> bool {
    48 <= c as u32 && c as u32 <= 57
}

pub open spec fn digit_of(c: char) -> u8 {
    ((c as u32) - 48) as u8
}

pub open spec fn is_ascii_letter(c: char) -> bool {
    (97 <= c as u32 && c as u32 <= 122) || (65 <= c as u32 && c as u32 <= 90)
}

pub open spec fn upper_of(c: char) -> char {
    if 97 <= c as u32 && c as u32 <= 122 {
        ((c as u32) - 32) as char
    } else {
        c
    }
}

impl App {
    /// The interface invariant: the configuration is well formed, the rate
    /// buffer holds at most three digits, the hub mirrors agree with the
    /// configuration, and the capture wait stamp exists while waiting.
    pub open spec fn wf(self) -> bool {
        &&& self.config.wf()
        &&& buffer_wf(self.custom_cps_input@)
        &&& self.current_cps == self.config.rate_spec()
        &&& self.current_button == self.config.selected_button
        &&& self.audio_manager.enabled == self.config.sound_enabled
        &&& self.help_scroll <= HELP_SCROLL_MAX
        &&& (self.input_mode == InputMode::AwaitingKeybind ==> self.keybind_wait_start is Some)
    }

    /// A fresh interface over a well-formed configuration: a new session
    /// is opened in the statistics, everything else starts at its rest
    /// state, and the hub mirrors are seeded from the configuration.
    pub fn new(config: Config, now_secs: u64) -> (r: App)
        requires
            config.wf(),
        ensures
            r.wf(),
            r.config == (Config { statistics: r.config.statistics, ..config }),
            r.config.statistics == (Statistics {
                session_clicks: 0,
                total_sessions: if config.statistics.total_sessions < u64::MAX {
                    (config.statistics.total_sessions + 1) as u64
                } else {
                    u64::MAX
                },
                last_session_start: now_secs,
                ..config.statistics
            }),
            r.custom_cps_input@ == Seq::<u8>::empty(),
            r.input_mode == InputMode::Normal,
            r.keybind_wait_start is None,
            r.session_start_ms == 0,
            r.show_tui,
            r.current_cps == config.rate_spec(),
            r.current_button == config.selected_button,
            r.audio_manager.enabled == config.sound_enabled,
            r.help_scroll == 0,
            !r.should_quit,
            r.needs_redraw,
    {
        let mut config = config;
        config.statistics.start_session(now_secs);
        let current_cps = config.current_cps();
        let current_button = config.selected_button;
        let sound_enabled = config.sound_enabled;
        App {
            config,
            custom_cps_input: Vec::new(),
            input_mode: InputMode::Normal,
            keybind_wait_start: None,
            session_start_ms: 0,
            show_tui: true,
            current_cps,
            current_button,
            audio_manager: AudioManager::new(sound_enabled),
            help_scroll: 0,
            should_quit: false,
            needs_redraw: true,
        }
    }

    pub fn get_current_cps(&self) -> (r: u32)
        ensures
            r == self.current_cps,
    {
        self.current_cps
    }

    pub fn get_current_button_text(&self) -> (r: &'static str)
        ensures
            self.config.selected_button == 1 ==> r@ == "Right Click"@,
            self.config.selected_button != 1 ==> r@ == "Left Click"@,
    {
        if self.config.selected_button == 1 {
            "Right Click"
        } else {
            "Left Click"
        }
    }

    /// Refreshes the hub's rate mirror from the configuration and asks for
    /// a redraw.
    pub fn update_cps(&mut self)
        ensures
            *final(self) == (App {
                current_cps: old(self).config.rate_spec(),
                needs_redraw: true,
                ..*old(self)
            }),
    {
        self.current_cps = self.config.current_cps();
        self.needs_redraw = true;
    }

    /// Advances the action target to the next of the two targets.
    pub fn cycle_button(&mut self)
        requires
            old(self).wf(),
        ensures
            final(self).wf(),
            *final(self) == (App {
                config: Config {
                    selected_button: ((old(self).config.selected_button + 1) % 2) as usize,
                    ..old(self).config
                },
                current_button: ((old(self).config.selected_button + 1) % 2) as usize,
                needs_redraw: true,
                ..*old(self)
            }),
    {
        self.config.selected_button = (self.config.selected_button + 1) % 2;
        self.current_button = self.config.selected_button;
        self.needs_redraw = true;
    }

    /// Moves the selection one ring slot up (towards lower indices).
    pub fn move_selection_up(&mut self)
        requires
            old(self).wf(),
        ensures
            final(self).wf(),
            *final(self) == selection_moved(*old(self), old(self).config.ring_prev()),
    {
        if self.config.using_custom_cps {
            self.config.using_custom_cps = false;
            self.config.selected_preset = self.config.cps_presets.len() - 1;
        } else {
            if self.config.selected_preset > 0 {
                self.config.selected_preset = self.config.selected_preset - 1;
            } else {
                if self.config.custom_cps_value.is_some() {
                    self.config.using_custom_cps = true;
                } else {
                    self.config.selected_preset = self.config.cps_presets.len() - 1;
                }
            }
        }
        self.update_cps();
    }

    /// Moves the selection one ring slot down (towards higher indices).
    pub fn move_selection_down(&mut self)
        requires
            old(self).wf(),
        ensures
            final(self).wf(),
            *final(self) == selection_moved(*old(self), old(self).config.ring_next()),
    {
        if self.config.using_custom_cps {
            self.config.using_custom_cps = false;
            self.config.selected_preset = 0;
        } else {
            if self.config.selected_preset + 1 < self.config.cps_presets.len() {
                self.config.selected_preset = self.config.selected_preset + 1;
            } else {
                if self.config.custom_cps_value.is_some() {
                    self.config.using_custom_cps = true;
                } else {
                    self.config.selected_preset = 0;
                }
            }
        }
        self.update_cps();
    }

    /// Folds the hub's statistics back into the configuration before it is
    /// handed to the persistence collaborator.
    pub fn merge_stats(&mut self, stats: Statistics)
        ensures
            *final(self) == (App {
                config: Config { statistics: stats, ..old(self).config },
                ..*old(self)
            }),
    {
        self.config.statistics = stats;
    }

    /// The numeric value of the rate input buffer.
    pub fn parse_buffer(&self) -> (v: u32)
        requires
            buffer_wf(self.custom_cps_input@),
        ensures
            v == digits_val(self.custom_cps_input@),
            v < 1000,
    {
        let s = &self.custom_cps_input;
        let mut v: u32 = 0;
        let mut i: usize = 0;
        proof {
            assert(s@.take(0) =~= Seq::<u8>::empty());
        }
        while i < s.len()
            invariant
                i <= s.len(),
                buffer_wf(s@),
                v == digits_val(s@.take(i as int)),
                v < pow10(i as nat),
                i <= 3,
            decreases s.len() - i,
        {
            proof {
                let t = s@.take(i + 1);
                assert(t.drop_last() =~= s@.take(i as int));
                assert(t.last() == s@[i as int]);
                assert(pow10(0) == 1);
                assert(pow10(1) == 10);
                assert(pow10(2) == 100);
                assert(pow10((i + 1) as nat) == 10 * pow10(i as nat));
                assert(s@[i as int] < 10);
            }
            v = v * 10 + s[i] as u32;
            i = i + 1;
        }
        proof {
            assert(s@.take(s@.len() as int) =~= s@);
            assert(pow10(0) == 1);
            assert(pow10(1) == 10);
            assert(pow10(2) == 100);
            assert(pow10(3) == 1000);
        }
        v
    }

    /// One key event, interpreted against the current input mode.
    pub fn handle_input(&mut self, key: KeyInput, now_ms: u64) -> (n: Option<Notice>)
        requires
            old(self).wf(),
        ensures
            final(self).wf(),
            match old(self).input_mode {
                InputMode::ShowingHelp => help_step(*old(self), *final(self), key, n),
                InputMode::Normal => normal_step(*old(self), *final(self), key, now_ms, n),
                InputMode::EditingCps => editing_step(*old(self), *final(self), key, n),
                InputMode::AwaitingKeybind => awaiting_step(*old(self), *final(self), now_ms, n),
                InputMode::SettingKeybind => setting_step(*old(self), *final(self), key, n),
            },
    {
        match self.input_mode {
            InputMode::ShowingHelp => self.handle_help_key(key),
            InputMode::Normal => self.handle_normal_key(key, now_ms),
            InputMode::EditingCps => self.handle_editing_key(key),
            InputMode::AwaitingKeybind => self.handle_awaiting(now_ms),
            InputMode::SettingKeybind => self.handle_setting_key(key),
        }
    }

    /// Time-driven transitions: the capture debounce can expire without
    /// any key arriving.
    pub fn update(&mut self, now_ms: u64)
        requires
            old(self).wf(),
        ensures
            final(self).wf(),
            if old(self).input_mode == InputMode::AwaitingKeybind {
                awaiting_step(*old(self), *final(self), now_ms, None::<Notice>)
            } else {
                *final(self) == *old(self)
            },
    {
        match self.input_mode {
            InputMode::AwaitingKeybind => {
                let _ = self.handle_awaiting(now_ms);
            }
            _ => (),
        }
    }

    pub fn handle_help_key(&mut self, key: KeyInput) -> (n: Option<Notice>)
        requires
            old(self).wf(),
        ensures
            final(self).wf(),
            help_step(*old(self), *final(self), key, n),
    {
        match key.code {
            KeyCode::Char(c) => {
                if c == '?' || c == 'q' {
                    self.input_mode = InputMode::Normal;
                    self.needs_redraw = true;
                } else if c == 'j' {
                    if self.help_scroll < HELP_SCROLL_MAX {
                        self.help_scroll = self.help_scroll + 1;
                        self.needs_redraw = true;
                    }
                } else if c == 'k' {
                    if self.help_scroll > 0 {
                        self.help_scroll = self.help_scroll - 1;
                        self.needs_redraw = true;
                    }
                }
            }
            KeyCode::Esc => {
                self.input_mode = InputMode::Normal;
                self.needs_redraw = true;
            }
            KeyCode::Down => {
                if self.help_scroll < HELP_SCROLL_MAX {
                    self.help_scroll = self.help_scroll + 1;
                    self.needs_redraw = true;
                }
            }
            KeyCode::Up => {
                if self.help_scroll > 0 {
                    self.help_scroll = self.help_scroll - 1;
                    self.needs_redraw = true;
                }
            }
            _ => (),
        }
        None
    }

    pub fn handle_normal_key(&mut self, key: KeyInput, now_ms: u64) -> (n: Option<Notice>)
        requires
            old(self).wf(),
        ensures
            final(self).wf(),
            normal_step(*old(self), *final(self), key, now_ms, n),
    {
        match key.code {
            KeyCode::Char(c) => {
                if c == 'q' {
                    self.should_quit = true;
                    None
                } else if c == '?' {
                    self.input_mode = InputMode::ShowingHelp;
                    self.help_scroll = 0;
                    self.needs_redraw = true;
                    None
                } else if c == 'h' {
                    self.show_tui = !self.show_tui;
                    Some(Notice::Visibility { shown: self.show_tui })
                } else if c == 'j' {
                    self.move_selection_down();
                    None
                } else if c == 'k' {
                    self.move_selection_up();
                    None
                } else if c == 'e' {
                    self.input_mode = InputMode::EditingCps;
                    self.custom_cps_input.clear();
                    self.needs_redraw = true;
                    None
                } else if c == 's' {
                    self.input_mode = InputMode::AwaitingKeybind;
                    self.keybind_wait_start = Some(now_ms);
                    self.needs_redraw = true;
                    None
                } else if c == 'm' {
                    self.audio_manager.toggle_sound();
                    self.config.sound_enabled = self.audio_manager.enabled;
                    self.needs_redraw = true;
                    Some(Notice::AudioToggled { enabled: self.audio_manager.enabled })
                } else if c == 'r' {
                    self.session_start_ms = now_ms;
                    self.needs_redraw = true;
                    Some(Notice::StatsCleared)
                } else {
                    None
                }
            }
            KeyCode::Down => {
                self.move_selection_down();
                None
            }
            KeyCode::Up => {
                self.move_selection_up();
                None
            }
            KeyCode::Tab => {
                self.cycle_button();
                None
            }
            _ => None,
        }
    }

    pub fn handle_editing_key(&mut self, key: KeyInput) -> (n: Option<Notice>)
        requires
            old(self).wf(),
        ensures
            final(self).wf(),
            editing_step(*old(self), *final(self), key, n),
    {
        match key.code {
            KeyCode::Enter => {
                let v = self.parse_buffer();
                let committed = MIN_RATE <= v && v <= MAX_RATE;
                if committed {
                    self.config.custom_cps_value = Some(v);
                    self.config.using_custom_cps = true;
                    self.update_cps();
                }
                self.input_mode = InputMode::Normal;
                self.needs_redraw = true;
                if committed {
                    Some(Notice::RateSet { rate: v })
                } else {
                    None
                }
            }
            KeyCode::Char(c) => {
                if (c as u32) >= 48 && (c as u32) <= 57 {
                    if self.custom_cps_input.len() < RATE_INPUT_MAX_DIGITS {
                        let d = ((c as u32) - 48) as u8;
                        self.custom_cps_input.push(d);
                        self.needs_redraw = true;
                    }
                }
                None
            }
            KeyCode::Backspace => {
                let _ = self.custom_cps_input.pop();
                self.needs_redraw = true;
                None
            }
            KeyCode::Esc => {
                self.input_mode = InputMode::Normal;
                self.custom_cps_input.clear();
                self.needs_redraw = true;
                None
            }
            _ => None,
        }
    }

    pub fn handle_awaiting(&mut self, now_ms: u64) -> (n: Option<Notice>)
        requires
            old(self).wf(),
        ensures
            final(self).wf(),
            awaiting_step(*old(self), *final(self), now_ms, n),
    {
        match self.keybind_wait_start {
            Some(ws) => {
                if now_ms >= ws && now_ms - ws > CAPTURE_DEBOUNCE_MS {
                    self.input_mode = InputMode::SettingKeybind;
                    self.keybind_wait_start = None;
                    self.needs_redraw = true;
                }
            }
            None => (),
        }
        None
    }

    pub fn handle_setting_key(&mut self, key: KeyInput) -> (n: Option<Notice>)
        requires
            old(self).wf(),
        ensures
            final(self).wf(),
            setting_step(*old(self), *final(self), key, n),
    {
        match key.code {
            KeyCode::Esc => {
                self.input_mode = InputMode::Normal;
                self.needs_redraw = true;
                None
            }
            KeyCode::Char(c) => {
                let code = c as u32;
                if (code >= 97 && code <= 122) || (code >= 65 && code <= 90) {
                    let up: char = if code >= 97 {
                        (((code) - 32) as u8) as char
                    } else {
                        c
                    };
                    proof {
                        assert(up == upper_of(c));
                    }
                    let combo = KeyCombo {
                        ctrl: key.ctrl,
                        shift: key.shift,
                        alt: key.alt,
                        key: KeyId::Letter(up),
                    };
                    self.config.toggle_keybind = Some(combo);
                    self.input_mode = InputMode::Normal;
                    self.needs_redraw = true;
                    Some(Notice::HotkeySet { combo })
                } else {
                    None
                }
            }
            KeyCode::F(m) => {
                if 1 <= m && m <= 12 {
                    let combo = KeyCombo {
                        ctrl: key.ctrl,
                        shift: key.shift,
                        alt: key.alt,
                        key: KeyId::Function(m),
                    };
                    self.config.toggle_keybind = Some(combo);
                    self.input_mode = InputMode::Normal;
                    self.needs_redraw = true;
                    Some(Notice::HotkeySet { combo })
                } else {
                    None
                }
            }
            _ => None,
        }
    }
}

/// The interface after a selection move to ring position `pos`.
pub open spec fn selection_moved(pre: App, pos: int) -> App {
    App {
        config: pre.config.at_ring_pos(pos),
        current_cps: pre.config.at_ring_pos(pos).rate_spec(),
        needs_redraw: true,
        ..pre
    }
}

/// What a key event does on the help screen: the help toggle, quit key or
/// escape leave it; the scroll keys move the bounded offset.
pub open spec fn help_step(pre: App, post: App, key: KeyInput, n: Option<Notice>) -> bool {
    n is None && match key.code {
        KeyCode::Char(c) => if c == '?' || c == 'q' {
            post == App { input_mode: InputMode::Normal, needs_redraw: true, ..pre }
        } else if c == 'j' {
            help_scrolled_down(pre, post)
        } else if c == 'k' {
            help_scrolled_up(pre, post)
        } else {
            post == pre
        },
        KeyCode::Esc => post == App { input_mode: InputMode::Normal, needs_redraw: true, ..pre },
        KeyCode::Down => help_scrolled_down(pre, post),
        KeyCode::Up => help_scrolled_up(pre, post),
        _ => post == pre,
    }
}

pub open spec fn help_scrolled_down(pre: App, post: App) -> bool {
    if pre.help_scroll < HELP_SCROLL_MAX {
        post == App { help_scroll: (pre.help_scroll + 1) as usize, needs_redraw: true, ..pre }
    } else {
        post == pre
    }
}

pub open spec fn help_scrolled_up(pre: App, post: App) -> bool {
    if pre.help_scroll > 0 {
        post == App { help_scroll: (pre.help_scroll - 1) as usize, needs_redraw: true, ..pre }
    } else {
        post == pre
    }
}

/// What a key event does in normal mode.
pub open spec fn normal_step(
    pre: App,
    post: App,
    key: KeyInput,
    now_ms: u64,
    n: Option<Notice>,
) -> bool {
    match key.code {
        KeyCode::Char(c) => if c == 'q' {
            post == App { should_quit: true, ..pre } && n is None
        } else if c == '?' {
            post == App {
                input_mode: InputMode::ShowingHelp,
                help_scroll: 0,
                needs_redraw: true,
                ..pre
            } && n is None
        } else if c == 'h' {
            post == App { show_tui: !pre.show_tui, ..pre } && n == Some(
                Notice::Visibility { shown: !pre.show_tui },
            )
        } else if c == 'j' {
            post == selection_moved(pre, pre.config.ring_next()) && n is None
        } else if c == 'k' {
            post == selection_moved(pre, pre.config.ring_prev()) && n is None
        } else if c == 'e' {
            post == App {
                input_mode: InputMode::EditingCps,
                custom_cps_input: post.custom_cps_input,
                needs_redraw: true,
                ..pre
            } && post.custom_cps_input@ == Seq::<u8>::empty() && n is None
        } else if c == 's' {
            post == App {
                input_mode: InputMode::AwaitingKeybind,
                keybind_wait_start: Some(now_ms),
                needs_redraw: true,
                ..pre
            } && n is None
        } else if c == 'm' {
            post == App {
                audio_manager: AudioManager { enabled: !pre.config.sound_enabled },
                config: Config { sound_enabled: !pre.config.sound_enabled, ..pre.config },
                needs_redraw: true,
                ..pre
            } && n == Some(Notice::AudioToggled { enabled: !pre.config.sound_enabled })
        } else if c == 'r' {
            post == App { session_start_ms: now_ms, needs_redraw: true, ..pre } && n == Some(
                Notice::StatsCleared,
            )
        } else {
            post == pre && n is None
        },
        KeyCode::Down => post == selection_moved(pre, pre.config.ring_next()) && n is None,
        KeyCode::Up => post == selection_moved(pre, pre.config.ring_prev()) && n is None,
        KeyCode::Tab => post == App {
            config: Config {
                selected_button: ((pre.config.selected_button + 1) % 2) as usize,
                ..pre.config
            },
            current_button: ((pre.config.selected_button + 1) % 2) as usize,
            needs_redraw: true,
            ..pre
        } && n is None,
        _ => post == pre && n is None,
    }
}

/// What a key event does while a rate is being typed: digits append up to
/// the cap, backspace removes, enter commits exactly the in-range values,
/// escape discards.
pub open spec fn editing_step(pre: App, post: App, key: KeyInput, n: Option<Notice>) -> bool {
    match key.code {
        KeyCode::Enter => {
            let v = digits_val(pre.custom_cps_input@);
            if MIN_RATE <= v && v <= MAX_RATE {
                post == App {
                    config: Config {
                        custom_cps_value: Some(v as u32),
                        using_custom_cps: true,
                        ..pre.config
                    },
                    current_cps: v as u32,
                    input_mode: InputMode::Normal,
                    needs_redraw: true,
                    ..pre
                } && n == Some(Notice::RateSet { rate: v as u32 })
            } else {
                post == App { input_mode: InputMode::Normal, needs_redraw: true, ..pre }
                    && n is None
            }
        },
        KeyCode::Char(c) => if is_digit_char(c) && pre.custom_cps_input@.len()
            < RATE_INPUT_MAX_DIGITS {
            post == App { custom_cps_input: post.custom_cps_input, needs_redraw: true, ..pre }
                && post.custom_cps_input@ == pre.custom_cps_input@.push(digit_of(c)) && n is None
        } else {
            post == pre && n is None
        },
        KeyCode::Backspace => post == App {
            custom_cps_input: post.custom_cps_input,
            needs_redraw: true,
            ..pre
        } && post.custom_cps_input@ == (if pre.custom_cps_input@.len() > 0 {
            pre.custom_cps_input@.drop_last()
        } else {
            pre.custom_cps_input@
        }) && n is None,
        KeyCode::Esc => post == App {
            input_mode: InputMode::Normal,
            custom_cps_input: post.custom_cps_input,
            needs_redraw: true,
            ..pre
        } && post.custom_cps_input@ == Seq::<u8>::empty() && n is None,
        _ => post == pre && n is None,
    }
}

/// While the capture debounce runs, keys are ignored entirely — nothing is
/// captured and the binding is untouched; once the debounce window has
/// passed, capture mode begins, whatever keys arrived meanwhile.
pub open spec fn awaiting_step(pre: App, post: App, now_ms: u64, n: Option<Notice>) -> bool {
    n is None && match pre.keybind_wait_start {
        Some(ws) => if now_ms >= ws && now_ms - ws > CAPTURE_DEBOUNCE_MS {
            post == App {
                input_mode: InputMode::SettingKeybind,
                keybind_wait_start: None,
                needs_redraw: true,
                ..pre
            }
        } else {
            post == pre
        },
        None => post == pre,
    }
}

/// What a key event does during capture: a letter or function key,
/// together with the modifiers held with it, becomes the binding; escape
/// cancels; anything else is ignored.
pub open spec fn setting_step(pre: App, post: App, key: KeyInput, n: Option<Notice>) -> bool {
    match key.code {
        KeyCode::Esc => post == App { input_mode: InputMode::Normal, needs_redraw: true, ..pre }
            && n is None,
        KeyCode::Char(c) => if is_ascii_letter(c) {
            captured(pre, post, key, KeyId::Letter(upper_of(c)), n)
        } else {
            post == pre && n is None
        },
        KeyCode::F(m) => if 1 <= m && m <= 12 {
            captured(pre, post, key, KeyId::Function(m), n)
        } else {
            post == pre && n is None
        },
        _ => post == pre && n is None,
    }
}

/// The binding is overwritten atomically with the captured combination.
pub open spec fn captured(
    pre: App,
    post: App,
    key: KeyInput,
    id: KeyId,
    n: Option<Notice>,
) -> bool {
    let combo = KeyCombo { ctrl: key.ctrl, shift: key.shift, alt: key.alt, key: id };
    post == App {
        config: Config { toggle_keybind: Some(combo), ..pre.config },
        input_mode: InputMode::Normal,
        needs_redraw: true,
        ..pre
    } && n == Some(Notice::HotkeySet { combo })
}

} // verus!
