//! Shaping of key events: what a key press means to the engines, to the text
//! field that has the focus, to the key repeater and to the keyboard's LEDs.

use super::glfw::{glfw_key, map_key};
use vstd::prelude::*;

verus! {

/// How a keyboard is laid out and how its keys repeat.
#[derive(Clone, Debug, Eq, PartialEq)]
pub struct KeyboardConfig {
    /// The rules file to use.
    ///
    /// The rules file describes how to interpret the values of the model, layout, variant and
    /// options fields.
    pub rules: String,
    /// The keyboard model by which to interpret keycodes and LEDs.
    pub model: String,
    /// A comma separated list of layouts (languages) to include in the keymap.
    pub layout: String,
    /// A comma separated list of variants, one per layout, which may modify or augment the
    /// respective layout in various ways.
    pub variant: String,
    /// A comma separated list of options, through which the user specifies non-layout related
    /// preferences, like which key combinations are used for switching layouts, or which key is the
    /// Compose key.
    pub options: Option<String>,
    /// The rate at which to repeat key press events.
    pub rate: i32,
    /// The delay after which key press events should be repeated when being held.
    pub delay: i32,
}

/// Milliseconds between two repetitions of a key that is held.
pub const REPEAT_RATE: i32 = 50;

/// Milliseconds for which a key is held before it repeats.
pub const REPEAT_DELAY: i32 = 1000;

impl Default for KeyboardConfig {
    /// The system's default layout: every name is empty, which leaves the
    /// choice to the keymap compiler.
    fn default() -> (config: Self)
        ensures
            config.rules@.len() == 0,
            config.model@.len() == 0,
            config.layout@.len() == 0,
            config.variant@.len() == 0,
            config.options is None,
            config.rate == REPEAT_RATE,
            config.delay == REPEAT_DELAY,
    {
        KeyboardConfig {
            rules: String::new(),
            model: String::new(),
            layout: String::new(),
            variant: String::new(),
            options: None,
            rate: REPEAT_RATE,
            delay: REPEAT_DELAY,
        }
    }
}

/// Whether a key went down or came up.
#[derive(Clone, Copy, Debug, PartialEq, Eq)]
pub enum KeyState {
    Released,
    Pressed,
}

/// The modifiers that are effective after a key event.
#[derive(Clone, Copy, Debug, PartialEq, Eq)]
pub struct Modifiers {
    pub shift: bool,
    pub ctrl: bool,
    pub alt: bool,
    pub logo: bool,
    pub caps_lock: bool,
    pub num_lock: bool,
}

/// Whether a key event tells of a key going down or coming up.
#[derive(Clone, Copy, Debug, PartialEq, Eq)]
pub enum KeyActionType {
    Keyup,
    Keydown,
}

/// A key event as the engines are told of it. The toolkit of the key code is
/// GLFW, the keymap of the scan code is that of Linux.
#[derive(Clone, Copy, Debug, PartialEq, Eq)]
pub struct KeyAction {
    pub key_code: i32,
    pub scan_code: i32,
    pub modifiers: i32,
    pub kind: KeyActionType,
}

/// The LEDs of a keyboard.
#[derive(Clone, Copy, Debug, PartialEq, Eq)]
pub struct Leds {
    pub caps_lock: bool,
    pub num_lock: bool,
}

/// What the key repeater is told after a key event.
#[derive(Clone, Copy, Debug, PartialEq, Eq)]
pub enum KeyRepeatAction {
    /// A key that repeats went down.
    Pressed { code: u32 },
    /// A key came up.
    Released { code: u32 },
    /// Whatever repeats is to stop.
    Stop,
}

/// Everything that follows from one key event.
#[derive(Clone, Copy, Debug, PartialEq, Eq)]
pub struct KeyDispatch {
    /// What every engine is told.
    pub action: KeyAction,
    /// Whether the text that the key produced goes to the text field that has
    /// the focus.
    pub text: bool,
    /// What the key repeater is told.
    pub repeat: KeyRepeatAction,
    /// What the LEDs of the keyboards show.
    pub leds: Leds,
}

/// The scan code of a key is its raw code plus this offset.
pub const SCANCODE_OFFSET: u32 = 8;

/// The largest raw code that has a scan code: beyond it, the raw code plus the
/// offset is no number of thirty-two bits.
pub const MAX_RAWCODE: u32 = 0xffff_fff7;

/// The scan code as the engines are told it: the raw code plus the offset, as
/// a signed number of thirty-two bits with the same bits. Up to `i32::MAX`
/// that is the sum itself; above, it is the sum less two to the power of 32.
pub open spec fn scan_code_of(rawcode: u32) -> int {
    if rawcode + SCANCODE_OFFSET <= i32::MAX {
        rawcode + SCANCODE_OFFSET
    } else {
        rawcode + SCANCODE_OFFSET - 0x1_0000_0000
    }
}

/// One if the modifier is active, zero if not.
pub open spec fn bit(active: bool) -> int {
    if active {
        1
    } else {
        0
    }
}

/// The modifiers as a number: shift counts 1, control 2, alt 4, logo 8, caps
/// lock 16 and num lock 32.
pub open spec fn modifier_mask(m: Modifiers) -> int {
    bit(m.shift) + 2 * bit(m.ctrl) + 4 * bit(m.alt) + 8 * bit(m.logo) + 16 * bit(m.caps_lock) + 32
        * bit(m.num_lock)
}

/// The modifiers as the number that engines are told.
pub fn modifier_bits(m: &Modifiers) -> (mask: i32)
    ensures
        mask == modifier_mask(*m),
        0 <= mask < 64,
{
    let shift: i32 = if m.shift { 1 } else { 0 };
    let ctrl: i32 = if m.ctrl { 1 } else { 0 };
    let alt: i32 = if m.alt { 1 } else { 0 };
    let logo: i32 = if m.logo { 1 } else { 0 };
    let caps: i32 = if m.caps_lock { 1 } else { 0 };
    let num: i32 = if m.num_lock { 1 } else { 0 };
    let mask: i32 = shift | ctrl << 1 | alt << 2 | logo << 3 | caps << 4 | num << 5;
    assert(mask == shift + 2 * ctrl + 4 * alt + 8 * logo + 16 * caps + 32 * num) by (bit_vector)
        requires
            0 <= shift <= 1,
            0 <= ctrl <= 1,
            0 <= alt <= 1,
            0 <= logo <= 1,
            0 <= caps <= 1,
            0 <= num <= 1,
            mask == shift | ctrl << 1 | alt << 2 | logo << 3 | caps << 4 | num << 5,
    ;
    mask
}

/// Whether the character is a control code: one of U+0000 to U+001F or of
/// U+007F to U+009F.
pub open spec fn is_control(c: char) -> bool {
    c as u32 <= 0x1f || 0x7f <= c as u32 <= 0x9f
}

/// Whether a key event inserts text: the key went down and produced text, none
/// of it a control code.
pub open spec fn inserts_text(content: Seq<char>, keystate: KeyState) -> bool {
    &&& content.len() > 0
    &&& keystate is Pressed
    &&& forall|i: int| 0 <= i < content.len() ==> !is_control(content[i])
}

/// Whether the text that a key produced goes to the text field.
pub fn is_text_input(content: &str, keystate: KeyState) -> (text: bool)
    ensures
        text == inserts_text(content@, keystate),
{
    match keystate {
        KeyState::Released => {
            return false;
        },
        KeyState::Pressed => {},
    }
    let n = content.unicode_len();
    if n == 0 {
        return false;
    }
    let mut i: usize = 0;
    while i < n
        invariant
            i <= n,
            n == content@.len(),
            forall|j: int| 0 <= j < i ==> !is_control(content@[j]),
        decreases n - i,
    {
        let c = content.get_char(i);
        let code = c as u32;
        if code <= 0x1f || (0x7f <= code && code <= 0x9f) {
            return false;
        }
        i += 1;
    }
    true
}

/// What the engines are told of a key event.
pub open spec fn key_action_of(rawcode: u32, keystate: KeyState, modifiers: Modifiers, key: i32)
    -> KeyAction {
    KeyAction {
        key_code: key,
        scan_code: scan_code_of(rawcode) as i32,
        modifiers: modifier_mask(modifiers) as i32,
        kind: match keystate {
            KeyState::Released => KeyActionType::Keyup,
            KeyState::Pressed => KeyActionType::Keydown,
        },
    }
}

/// What the key repeater is told of a key event: a key that came up is
/// released; a key that went down repeats if the keymap says so, and stops
/// whatever repeats if not.
pub open spec fn repeat_action_of(rawcode: u32, keystate: KeyState, repeats: bool)
    -> KeyRepeatAction {
    match keystate {
        KeyState::Released => KeyRepeatAction::Released { code: rawcode },
        KeyState::Pressed => if repeats {
            KeyRepeatAction::Pressed { code: rawcode }
        } else {
            KeyRepeatAction::Stop
        },
    }
}

/// What the LEDs show: caps lock and num lock as the modifiers have them while
/// a layout is active, and nothing while none is.
pub open spec fn leds_of(active: bool, modifiers: Modifiers) -> Leds {
    Leds { caps_lock: active && modifiers.caps_lock, num_lock: active && modifiers.num_lock }
}

/// The keyboard of a seat: the layout that is active, and the engine whose text
/// field has the focus. An engine is known by the identifier that the embedding
/// program gave it.
#[derive(Debug, PartialEq, Eq)]
pub struct KeyboardManager {
    pub current_config: Option<KeyboardConfig>,
    pub text_target: Option<usize>,
    /// Number of keyboards on the seat.
    pub keyboards: usize,
}

impl KeyboardManager {
    /// A keyboard without a layout, with the focus on no engine.
    pub fn new() -> (keyboard: KeyboardManager)
        ensures
            keyboard.current_config is None,
            keyboard.text_target is None,
            keyboard.keyboards == 0,
    {
        KeyboardManager { current_config: None, text_target: None, keyboards: 0 }
    }

    /// Makes sure that a layout is active: where none is, the default one
    /// becomes active.
    ///
    /// Returns whether the layout changed. The caller then compiles the keymap
    /// of the new layout and tells the key repeater to stop.
    pub fn select_layout(&mut self) -> (changed: bool)
        ensures
            changed == old(self).current_config is None,
            final(self).current_config is Some,
            !changed ==> *final(self) == *old(self),
            final(self).text_target == old(self).text_target,
            final(self).keyboards == old(self).keyboards,
            changed ==> {
                let config = final(self).current_config->Some_0;
                &&& config.rules@.len() == 0
                &&& config.model@.len() == 0
                &&& config.layout@.len() == 0
                &&& config.variant@.len() == 0
                &&& config.options is None
                &&& config.rate == REPEAT_RATE
                &&& config.delay == REPEAT_DELAY
            },
    {
        if self.current_config.is_none() {
            self.current_config = Some(KeyboardConfig::default());
            true
        } else {
            false
        }
    }

    /// Shapes a key event. `modifiers` and `content` are the effective
    /// modifiers and the text of the key after the event, `repeats` is whether
    /// the keymap lets the key repeat.
    ///
    /// There is nothing to dispatch while no layout is active, nor for a raw
    /// code beyond [`MAX_RAWCODE`].
    pub fn key(
        &self,
        rawcode: u32,
        keystate: KeyState,
        modifiers: &Modifiers,
        content: &str,
        repeats: bool,
    ) -> (dispatch: Option<KeyDispatch>)
        ensures
            dispatch is Some <==> self.current_config is Some && rawcode <= MAX_RAWCODE,
            dispatch is Some ==> dispatch->Some_0 == (KeyDispatch {
                action: key_action_of(rawcode, keystate, *modifiers, glfw_key(rawcode)),
                text: inserts_text(content@, keystate),
                repeat: repeat_action_of(rawcode, keystate, repeats),
                leds: leds_of(true, *modifiers),
            }),
    {
        if self.current_config.is_none() {
            return None;
        }
        let (action, text) = match key_event(rawcode, keystate, modifiers, content) {
            Some(event) => event,
            None => {
                return None;
            },
        };
        let repeat = match keystate {
            KeyState::Released => KeyRepeatAction::Released { code: rawcode },
            KeyState::Pressed => if repeats {
                KeyRepeatAction::Pressed { code: rawcode }
            } else {
                KeyRepeatAction::Stop
            },
        };
        Some(KeyDispatch { action, text, repeat, leds: self.update_leds(modifiers) })
    }

    /// Takes note that the set of keyboards changed, and says what the LEDs of
    /// each of them are to show.
    pub fn update_devices(&mut self, keyboards: usize, modifiers: &Modifiers) -> (leds: Leds)
        ensures
            final(self).keyboards == keyboards,
            final(self).current_config == old(self).current_config,
            final(self).text_target == old(self).text_target,
            leds == leds_of(old(self).current_config is Some, *modifiers),
    {
        self.keyboards = keyboards;
        self.update_leds(modifiers)
    }

    /// What the LEDs of the keyboards are to show after a key event.
    pub fn update_leds(&self, modifiers: &Modifiers) -> (leds: Leds)
        ensures
            leds == leds_of(self.current_config is Some, *modifiers),
    {
        if self.current_config.is_some() {
            Leds { caps_lock: modifiers.caps_lock, num_lock: modifiers.num_lock }
        } else {
            Leds { caps_lock: false, num_lock: false }
        }
    }

    /// Gives the focus to the text field of `engine`.
    pub fn set_text_target(&mut self, engine: usize)
        ensures
            final(self).text_target == Some(engine),
            final(self).current_config == old(self).current_config,
            final(self).keyboards == old(self).keyboards,
    {
        self.text_target = Some(engine);
    }

    /// Takes the focus from the text field of `engine`. Nothing changes if
    /// another engine has it.
    pub fn clear_text_target(&mut self, engine: usize)
        ensures
            final(self).text_target == if old(self).text_target == Some(engine) {
                None
            } else {
                old(self).text_target
            },
            final(self).current_config == old(self).current_config,
            final(self).keyboards == old(self).keyboards,
    {
        if let Some(current) = self.text_target {
            if current == engine {
                self.text_target = None;
            }
        }
    }
}

/// What a key event means to the engines and to the text field, whatever the
/// layout: the key action, and whether the key's text is inserted. `None` for
/// a raw code beyond [`MAX_RAWCODE`], which has no scan code.
pub fn key_event(rawcode: u32, keystate: KeyState, modifiers: &Modifiers, content: &str) -> (event:
    Option<(KeyAction, bool)>)
    ensures
        event is Some <==> rawcode <= MAX_RAWCODE,
        event is Some ==> event->Some_0 == (
            key_action_of(rawcode, keystate, *modifiers, glfw_key(rawcode)),
            inserts_text(content@, keystate),
        ),
        event is Some ==> event->Some_0.0.scan_code == scan_code_of(rawcode),
        event is Some ==> 0 <= event->Some_0.0.modifiers < 64,
        event is Some && rawcode + 8 <= i32::MAX ==> event->Some_0.0.scan_code == rawcode + 8,
{
    if rawcode > MAX_RAWCODE {
        return None;
    }
    let scancode: u32 = rawcode + SCANCODE_OFFSET;
    let scan_code: i32 = #[verifier::truncate] (scancode as i32);
    assert(scan_code == if scancode <= 0x7fff_ffffu32 {
        scancode as int
    } else {
        scancode - 0x1_0000_0000
    }) by (bit_vector)
        requires
            scan_code == scancode as i32,
    ;
    let action = KeyAction {
        key_code: map_key(rawcode),
        scan_code,
        modifiers: modifier_bits(modifiers),
        kind: match keystate {
            KeyState::Released => KeyActionType::Keyup,
            KeyState::Pressed => KeyActionType::Keydown,
        },
    };
    Some((action, is_text_input(content, keystate)))
}

/// What the key repeater does next.
#[derive(Clone, Copy, Debug, PartialEq, Eq)]
pub enum RepeatStep {
    /// Wait for the next [`KeyRepeatAction`]: without a limit where `timeout`
    /// is `None`, else for at most so many milliseconds.
    Wait { timeout: Option<u64> },
    /// Send the key with this raw code to the engines once more, as pressed.
    Emit { code: u32 },
}

/// The key repeater: which key repeats, and when it is due next. Times are
/// milliseconds on one clock.
#[derive(Clone, Copy, Debug, PartialEq, Eq)]
pub struct KeyRepeater {
    /// The raw code of the key that repeats.
    pub repeat: Option<u32>,
    /// When the key is due next.
    pub next_send: u64,
    /// Whether the key was sent since the repeater last waited.
    pub emitted: bool,
}

/// The time `by` milliseconds after `now`, or the end of the clock.
pub open spec fn later(now: u64, by: u64) -> u64 {
    if now + by > u64::MAX {
        u64::MAX
    } else {
        (now + by) as u64
    }
}

fn add_saturating(now: u64, by: u64) -> (r: u64)
    ensures
        r == later(now, by),
{
    if now > u64::MAX - by {
        u64::MAX
    } else {
        now + by
    }
}

impl KeyRepeater {
    /// This repeater with `code` as the key that repeats, first due after the
    /// delay.
    pub open spec fn holding(self, code: u32, now: u64) -> KeyRepeater {
        KeyRepeater {
            repeat: Some(code),
            next_send: later(now, REPEAT_DELAY as u64),
            emitted: false,
        }
    }

    /// This repeater with no key that repeats.
    pub open spec fn idle(self) -> KeyRepeater {
        KeyRepeater { repeat: None, emitted: false, ..self }
    }

    /// The repeater after it was told `action` at the time `now`.
    ///
    /// A key that goes down takes the place of the key that repeats, unless it
    /// is that key. A key that comes up ends the repetition if it is the key
    /// that repeats. A stop ends the repetition.
    pub open spec fn told(self, action: KeyRepeatAction, now: u64) -> KeyRepeater {
        match action {
            KeyRepeatAction::Pressed { code } => if self.repeat == Some(code) {
                self
            } else {
                self.holding(code, now)
            },
            KeyRepeatAction::Released { code } => if self.repeat == Some(code) {
                self.idle()
            } else {
                self
            },
            KeyRepeatAction::Stop => if self.repeat is Some {
                self.idle()
            } else {
                self
            },
        }
    }

    /// The repeater, and what it does, at the time `now`.
    ///
    /// Without a key that repeats it waits without a limit. A key that is due
    /// is sent, and is due again after the repeat rate. After sending, the
    /// repeater waits before it sends again, if only for no time at all: what
    /// it is told has precedence over what it has to send.
    pub open spec fn polled(self, now: u64) -> (KeyRepeater, RepeatStep) {
        match self.repeat {
            None => (self, RepeatStep::Wait { timeout: None }),
            Some(code) => if !self.emitted && self.next_send <= now {
                (
                    KeyRepeater {
                        next_send: later(now, REPEAT_RATE as u64),
                        emitted: true,
                        ..self
                    },
                    RepeatStep::Emit { code },
                )
            } else {
                (
                    KeyRepeater { emitted: false, ..self },
                    RepeatStep::Wait {
                        timeout: Some(
                            if self.next_send <= now {
                                0u64
                            } else {
                                (self.next_send - now) as u64
                            },
                        ),
                    },
                )
            },
        }
    }

    /// A repeater with no key that repeats.
    pub fn new() -> (repeater: KeyRepeater)
        ensures
            repeater == (KeyRepeater { repeat: None, next_send: 0, emitted: false }),
    {
        KeyRepeater { repeat: None, next_send: 0, emitted: false }
    }

    /// Takes what the repeater is told at the time `now`.
    pub fn on_action(&mut self, action: KeyRepeatAction, now: u64)
        ensures
            *final(self) == old(self).told(action, now),
    {
        match action {
            KeyRepeatAction::Pressed { code } => {
                let same = match self.repeat {
                    Some(current) => current == code,
                    None => false,
                };
                if !same {
                    self.repeat = Some(code);
                    self.next_send = add_saturating(now, REPEAT_DELAY as u64);
                    self.emitted = false;
                }
            },
            KeyRepeatAction::Released { code } => {
                let same = match self.repeat {
                    Some(current) => current == code,
                    None => false,
                };
                if same {
                    self.repeat = None;
                    self.emitted = false;
                }
            },
            KeyRepeatAction::Stop => {
                if self.repeat.is_some() {
                    self.repeat = None;
                    self.emitted = false;
                }
            },
        }
    }

    /// Says what to do at the time `now`.
    pub fn poll(&mut self, now: u64) -> (step: RepeatStep)
        ensures
            (*final(self), step) == old(self).polled(now),
    {
        match self.repeat {
            None => RepeatStep::Wait { timeout: None },
            Some(code) => {
                if !self.emitted && self.next_send <= now {
                    self.next_send = add_saturating(now, REPEAT_RATE as u64);
                    self.emitted = true;
                    RepeatStep::Emit { code }
                } else {
                    self.emitted = false;
                    let timeout: u64 = if self.next_send <= now {
                        0
                    } else {
                        self.next_send - now
                    };
                    RepeatStep::Wait { timeout: Some(timeout) }
                }
            },
        }
    }
}

/// A key that is held repeats for the first time when the delay has passed,
/// not before, and is then due again after the repeat rate.
pub proof fn lemma_held_key_repeats(r: KeyRepeater, code: u32, pressed_at: u64, now: u64)
    requires
        r.repeat != Some(code),
        pressed_at + REPEAT_DELAY + REPEAT_RATE <= u64::MAX,
        pressed_at <= now <= pressed_at + REPEAT_DELAY,
    ensures
        ({
            let held = r.told(KeyRepeatAction::Pressed { code }, pressed_at);
            let (next, step) = held.polled(now);
            &&& now < pressed_at + REPEAT_DELAY ==> step == (RepeatStep::Wait {
                timeout: Some((pressed_at + REPEAT_DELAY - now) as u64),
            })
            &&& now == pressed_at + REPEAT_DELAY ==> step == (RepeatStep::Emit { code })
                && next.next_send == now + REPEAT_RATE && next.polled(now).1 == (RepeatStep::Wait {
                timeout: Some(REPEAT_RATE as u64),
            })
        }),
{
}

/// Once the key that repeats has come up, or the repeater was told to stop,
/// nothing is sent: the repeater waits, without a limit, until a key goes down.
pub proof fn lemma_released_key_is_silent(r: KeyRepeater, code: u32, at: u64, now: u64)
    requires
        r.repeat == Some(code),
    ensures
        r.told(KeyRepeatAction::Released { code }, at).polled(now).1 == (RepeatStep::Wait {
            timeout: None,
        }),
        r.told(KeyRepeatAction::Stop, at).polled(now).1 == (RepeatStep::Wait { timeout: None }),
{
}

} // verus!
