//! A Linux key event as the engine's key snapshot.
//!
//! IBus hands an engine `(keysym, keycode, state)`: the X11 keysym the
//! layout produced for the press (already shifted / Caps-Locked — `A` for
//! Shift+a), the hardware keycode, and the modifier mask. IBus sends the
//! evdev code; [`RawKeyEvent`] holds the X keycode (evdev + 8), and
//! [`RawKeyEvent::from_ibus`] converts at the IBus boundary.
//!
//! Only presses reach the classifier: a release and a bare modifier press
//! answer `None`, which the engine turns into "not handled" so the client
//! processes the key itself.

pub mod keysym;
pub mod state;

use crate::text::char_to_string;
use vstd::prelude::*;

verus! {

/// X keycode = evdev code + 8, on every X server and Wayland compositor.
pub const EVDEV_TO_X_KEYCODE: u32 = 8;

/// A key as the framework delivers it, with the keycode in X terms.
#[derive(Clone, Copy, Debug, PartialEq, Eq, Structural)]
pub struct RawKeyEvent {
    pub keyval: u32,
    /// The X keycode, never the evdev code.
    pub keycode: u32,
    pub state: u32,
}

impl RawKeyEvent {
    /// The three numbers of IBus `ProcessKeyEvent`, whose keycode is the
    /// evdev code. A client that sends no keycode (0) keeps none.
    pub fn from_ibus(keyval: u32, evdev_keycode: u32, state: u32) -> (event: Self)
        requires
            evdev_keycode + EVDEV_TO_X_KEYCODE <= u32::MAX,
        ensures
            event.keyval == keyval,
            event.state == state,
            event.keycode == if evdev_keycode == 0 {
                0
            } else {
                evdev_keycode + EVDEV_TO_X_KEYCODE
            },
    {
        let keycode = if evdev_keycode == 0 {
            0
        } else {
            evdev_keycode + EVDEV_TO_X_KEYCODE
        };
        RawKeyEvent { keyval, keycode, state }
    }
}

/// The modifiers the classifier reads.
#[derive(Clone, Copy, Debug, PartialEq, Eq, Structural, Default)]
pub struct KeyModifiers {
    pub shift: bool,
    pub control: bool,
    pub alt: bool,
    pub win: bool,
}

impl KeyModifiers {
    /// No modifier held.
    pub fn none() -> (modifiers: Self)
        ensures
            !modifiers.shift && !modifiers.control && !modifiers.alt && !modifiers.win,
    {
        KeyModifiers { shift: false, control: false, alt: false, win: false }
    }

    /// Shift alone.
    pub fn shift_only() -> (modifiers: Self)
        ensures
            modifiers.shift && !modifiers.control && !modifiers.alt && !modifiers.win,
    {
        KeyModifiers { shift: true, control: false, alt: false, win: false }
    }

    /// Control alone.
    pub fn control_only() -> (modifiers: Self)
        ensures
            !modifiers.shift && modifiers.control && !modifiers.alt && !modifiers.win,
    {
        KeyModifiers { shift: false, control: true, alt: false, win: false }
    }

    /// Alt alone.
    pub fn alt_only() -> (modifiers: Self)
        ensures
            !modifiers.shift && !modifiers.control && modifiers.alt && !modifiers.win,
    {
        KeyModifiers { shift: false, control: false, alt: true, win: false }
    }

    /// These modifiers and `other`'s together.
    pub fn with(self, other: Self) -> (modifiers: Self)
        ensures
            modifiers.shift == (self.shift || other.shift),
            modifiers.control == (self.control || other.control),
            modifiers.alt == (self.alt || other.alt),
            modifiers.win == (self.win || other.win),
    {
        KeyModifiers {
            shift: self.shift || other.shift,
            control: self.control || other.control,
            alt: self.alt || other.alt,
            win: self.win || other.win,
        }
    }

    /// Whether no modifier is held.
    pub fn is_empty(self) -> (empty: bool)
        ensures
            empty == (!self.shift && !self.control && !self.alt && !self.win),
    {
        !self.shift && !self.control && !self.alt && !self.win
    }
}

/// The modifier mask, decoded.
#[derive(Clone, Copy, Debug, PartialEq, Eq, Structural)]
pub struct KeyState {
    pub modifiers: KeyModifiers,
    pub is_release: bool,
}

/// What the mask says: Shift, Control, Alt (Mod1), the Windows key (Mod4
/// or Super) and the release bit. Lock is not a modifier the core tracks.
pub open spec fn decoded(mask: u32) -> KeyState {
    KeyState {
        modifiers: KeyModifiers {
            shift: mask & state::SHIFT != 0,
            control: mask & state::CONTROL != 0,
            alt: mask & state::MOD1 != 0,
            win: mask & (state::MOD4 | state::SUPER) != 0,
        },
        is_release: mask & state::RELEASE != 0,
    }
}

impl KeyState {
    pub fn decode(mask: u32) -> (key_state: Self)
        ensures
            key_state == decoded(mask),
    {
        KeyState {
            modifiers: KeyModifiers {
                shift: mask & state::SHIFT != 0,
                control: mask & state::CONTROL != 0,
                alt: mask & state::MOD1 != 0,
                win: mask & (state::MOD4 | state::SUPER) != 0,
            },
            is_release: mask & state::RELEASE != 0,
        }
    }
}

/// The navigation keys the classifier names.
#[derive(Clone, Copy, Debug, PartialEq, Eq, Structural)]
pub enum NavigationKey {
    LeftArrow,
    RightArrow,
    UpArrow,
    DownArrow,
    PageUp,
    PageDown,
}

/// A key press as the classifier reads it.
#[derive(Clone, Debug, PartialEq, Eq)]
pub struct KeyEventSnapshot {
    pub characters: Option<String>,
    pub characters_ignoring_modifiers: Option<String>,
    /// The Windows virtual-key code of the number row and `;`, else none.
    pub key_code: Option<u16>,
    pub modifiers: KeyModifiers,
    pub is_named_special_key: bool,
    pub navigation_key: Option<NavigationKey>,
}

/// The characters of an optional string.
pub open spec fn text_of(text: Option<String>) -> Option<Seq<char>> {
    match text {
        Some(s) => Some(s@),
        None => None,
    }
}

impl KeyEventSnapshot {
    /// Escape with no modifier held.
    pub fn is_bare_escape(&self) -> (bare: bool)
        ensures
            bare == (text_of(self.characters) == Some(seq!['\u{1B}']) && !self.modifiers.shift
                && !self.modifiers.control && !self.modifiers.alt && !self.modifiers.win),
    {
        let escape = match &self.characters {
            Some(text) => {
                let chars = crate::text::chars_of(text.as_str());
                chars.len() == 1 && chars[0] == '\u{1B}'
            },
            None => false,
        };
        proof {
            if let Some(text) = &self.characters {
                if text@ == seq!['\u{1B}'] {
                    assert(text@.len() == 1);
                }
                if text@.len() == 1 && text@[0] == '\u{1B}' {
                    assert(text@ =~= seq!['\u{1B}']);
                }
            }
        }
        escape && self.modifiers.is_empty()
    }
}

/// Names what `xkeysym::Keysym::key_char` answers: the character a keysym
/// types, following `xkb_keysym_to_utf32` over the crate's keysym tables.
pub uninterp spec fn keysym_char(keysym: u32) -> Option<char>;

/// `xkeysym::Keysym::key_char`. Its source maps the Latin-1 keysyms
/// (0x20–0x7e, 0xa0–0xff) one to one to the character with that code;
/// keypad Space to a space; the special keysyms it lists (BackSpace to
/// Clear, the keypad operators and digits, Return, Escape, Delete, keypad
/// Tab, Enter and Equal) to their low seven bits; a directly encoded code
/// point (0x0100_0000 + c) to `c`, a surrogate to nothing. The remaining
/// keysyms go through the crate's table, which is not stated here: it is
/// named by [`keysym_char`].
#[verifier::external_body]
fn key_char(keysym: u32) -> (c: Option<char>)
    ensures
        c == keysym_char(keysym),
        (0x20 <= keysym <= 0x7e || 0xa0 <= keysym <= 0xff) ==> c == Some(keysym as char),
        keysym == 0xff80 ==> c == Some(' '),
        (0xff08 <= keysym <= 0xff0b || 0xffaa <= keysym <= 0xffb9 || keysym == 0xff0d || keysym
            == 0xff1b || keysym == 0xffff || keysym == 0xff89 || keysym == 0xff8d || keysym
            == 0xffbd) ==> c == Some((keysym % 0x80) as char),
        0x0100_d800 <= keysym <= 0x0100_dfff ==> c is None,
        (0x0100_0000 <= keysym <= 0x0110_ffff && !(0x0100_d800 <= keysym <= 0x0100_dfff)) ==> c
            == Some((keysym - 0x0100_0000) as char),
{
    xkeysym::Keysym::new(keysym).key_char()
}

/// Shift, Control, Alt / Meta, Super / Hyper, the locks — a press that
/// types nothing and classifies nothing.
pub open spec fn is_modifier(keysym: u32) -> bool {
    keysym == keysym::SHIFT_L || keysym == keysym::SHIFT_R || keysym == keysym::CONTROL_L
        || keysym == keysym::CONTROL_R || keysym == keysym::CAPS_LOCK || keysym
        == keysym::SHIFT_LOCK || keysym == keysym::META_L || keysym == keysym::META_R || keysym
        == keysym::ALT_L || keysym == keysym::ALT_R || keysym == keysym::SUPER_L || keysym
        == keysym::SUPER_R || keysym == keysym::HYPER_L || keysym == keysym::HYPER_R || keysym
        == keysym::NUM_LOCK || keysym == keysym::SCROLL_LOCK || keysym
        == keysym::ISO_LEVEL3_SHIFT || keysym == keysym::ISO_LEVEL5_SHIFT || keysym
        == keysym::MODE_SWITCH
}

fn is_modifier_keysym(keysym: u32) -> (modifier: bool)
    ensures
        modifier == is_modifier(keysym),
{
    keysym == keysym::SHIFT_L || keysym == keysym::SHIFT_R || keysym == keysym::CONTROL_L
        || keysym == keysym::CONTROL_R || keysym == keysym::CAPS_LOCK || keysym
        == keysym::SHIFT_LOCK || keysym == keysym::META_L || keysym == keysym::META_R || keysym
        == keysym::ALT_L || keysym == keysym::ALT_R || keysym == keysym::SUPER_L || keysym
        == keysym::SUPER_R || keysym == keysym::HYPER_L || keysym == keysym::HYPER_R || keysym
        == keysym::NUM_LOCK || keysym == keysym::SCROLL_LOCK || keysym
        == keysym::ISO_LEVEL3_SHIFT || keysym == keysym::ISO_LEVEL5_SHIFT || keysym
        == keysym::MODE_SWITCH
}

/// The control characters Return, Tab, Escape, Backspace and forward
/// Delete are spelled as, so the shared intent table reads them the same
/// way on every desktop.
pub open spec fn fixed_control_char(keysym: u32) -> Option<char> {
    if keysym == keysym::RETURN || keysym == keysym::KP_ENTER {
        Some('\r')
    } else if keysym == keysym::TAB || keysym == keysym::ISO_LEFT_TAB {
        Some('\t')
    } else if keysym == keysym::ESCAPE {
        Some('\u{1B}')
    } else if keysym == keysym::BACKSPACE {
        Some('\u{8}')
    } else if keysym == keysym::DELETE || keysym == keysym::KP_DELETE {
        Some('\u{7F}')
    } else {
        None
    }
}

fn fixed_control_character(keysym: u32) -> (c: Option<char>)
    ensures
        c == fixed_control_char(keysym),
{
    if keysym == keysym::RETURN || keysym == keysym::KP_ENTER {
        Some('\r')
    } else if keysym == keysym::TAB || keysym == keysym::ISO_LEFT_TAB {
        Some('\t')
    } else if keysym == keysym::ESCAPE {
        Some('\u{1B}')
    } else if keysym == keysym::BACKSPACE {
        Some('\u{8}')
    } else if keysym == keysym::DELETE || keysym == keysym::KP_DELETE {
        Some('\u{7F}')
    } else {
        None
    }
}

pub open spec fn navigation_of(keysym: u32) -> Option<NavigationKey> {
    if keysym == keysym::LEFT || keysym == keysym::KP_LEFT {
        Some(NavigationKey::LeftArrow)
    } else if keysym == keysym::RIGHT || keysym == keysym::KP_RIGHT {
        Some(NavigationKey::RightArrow)
    } else if keysym == keysym::UP || keysym == keysym::KP_UP {
        Some(NavigationKey::UpArrow)
    } else if keysym == keysym::DOWN || keysym == keysym::KP_DOWN {
        Some(NavigationKey::DownArrow)
    } else if keysym == keysym::PAGE_UP || keysym == keysym::KP_PAGE_UP {
        Some(NavigationKey::PageUp)
    } else if keysym == keysym::PAGE_DOWN || keysym == keysym::KP_PAGE_DOWN {
        Some(NavigationKey::PageDown)
    } else {
        None
    }
}

fn navigation_key(keysym: u32) -> (key: Option<NavigationKey>)
    ensures
        key == navigation_of(keysym),
{
    if keysym == keysym::LEFT || keysym == keysym::KP_LEFT {
        Some(NavigationKey::LeftArrow)
    } else if keysym == keysym::RIGHT || keysym == keysym::KP_RIGHT {
        Some(NavigationKey::RightArrow)
    } else if keysym == keysym::UP || keysym == keysym::KP_UP {
        Some(NavigationKey::UpArrow)
    } else if keysym == keysym::DOWN || keysym == keysym::KP_DOWN {
        Some(NavigationKey::DownArrow)
    } else if keysym == keysym::PAGE_UP || keysym == keysym::KP_PAGE_UP {
        Some(NavigationKey::PageUp)
    } else if keysym == keysym::PAGE_DOWN || keysym == keysym::KP_PAGE_DOWN {
        Some(NavigationKey::PageDown)
    } else {
        None
    }
}

/// Keys the platform names rather than types: navigation, Home / End /
/// Insert / forward Delete and their keypad twins, Begin, Menu, Pause,
/// Print, SysReq, Break and the function keys F1–F35.
pub open spec fn is_named_special(keysym: u32) -> bool {
    navigation_of(keysym) is Some || keysym == keysym::HOME || keysym == keysym::END || keysym
        == keysym::INSERT || keysym == keysym::DELETE || keysym == keysym::KP_HOME || keysym
        == keysym::KP_END || keysym == keysym::KP_INSERT || keysym == keysym::KP_DELETE || keysym
        == keysym::BEGIN || keysym == keysym::MENU || keysym == keysym::PAUSE || keysym
        == keysym::PRINT || keysym == keysym::SYS_REQ || keysym == keysym::BREAK || (keysym::F1
        <= keysym <= keysym::F35)
}

fn is_named_special_keysym(keysym: u32) -> (named: bool)
    ensures
        named == is_named_special(keysym),
{
    navigation_key(keysym).is_some() || keysym == keysym::HOME || keysym == keysym::END
        || keysym == keysym::INSERT || keysym == keysym::DELETE || keysym == keysym::KP_HOME
        || keysym == keysym::KP_END || keysym == keysym::KP_INSERT || keysym
        == keysym::KP_DELETE || keysym == keysym::BEGIN || keysym == keysym::MENU || keysym
        == keysym::PAUSE || keysym == keysym::PRINT || keysym == keysym::SYS_REQ || keysym
        == keysym::BREAK || (keysym::F1 <= keysym && keysym <= keysym::F35)
}

/// The X keycode of the `1`…`9`, `0` row and the `;` key, as the Windows
/// virtual-key codes the shared chord and slot-key tables are written in;
/// other keys carry no code.
pub open spec fn virtual_key_of(keycode: u32) -> Option<u16> {
    if 10 <= keycode <= 18 {
        Some((0x31 + (keycode - 10)) as u16)
    } else if keycode == 19 {
        Some(0x30)
    } else if keycode == 47 {
        Some(0xBA)
    } else {
        None
    }
}

pub fn virtual_key_code(keycode: u32) -> (code: Option<u16>)
    ensures
        code == virtual_key_of(keycode),
{
    if 10 <= keycode && keycode <= 18 {
        Some(0x31 + (keycode - 10) as u16)
    } else if keycode == 19 {
        Some(0x30)
    } else if keycode == 47 {
        Some(0xBA)
    } else {
        None
    }
}

/// The characters a keysym types: its fixed control character, else the
/// character the keysym table gives it.
pub open spec fn characters_of(keysym: u32) -> Option<Seq<char>> {
    match fixed_control_char(keysym) {
        Some(c) => Some(seq![c]),
        None => match keysym_char(keysym) {
            Some(c) => Some(seq![c]),
            None => None,
        },
    }
}

/// Whether `event` reaches the classifier: a press of a key that is not a
/// bare modifier.
pub open spec fn is_classified(event: RawKeyEvent) -> bool {
    !decoded(event.state).is_release && !is_modifier(event.keyval)
}

/// The snapshot for a press, or `None` for a release or a bare modifier.
/// Both character fields hold what the keysym types: X keeps a Control
/// chord's keysym as the letter.
pub fn snapshot(event: RawKeyEvent) -> (result: Option<KeyEventSnapshot>)
    ensures
        result is Some <==> is_classified(event),
        result matches Some(s) ==> {
            &&& text_of(s.characters) == characters_of(event.keyval)
            &&& text_of(s.characters_ignoring_modifiers) == characters_of(event.keyval)
            &&& s.key_code == virtual_key_of(event.keycode)
            &&& s.modifiers == decoded(event.state).modifiers
            &&& s.is_named_special_key == is_named_special(event.keyval)
            &&& s.navigation_key == navigation_of(event.keyval)
        },
        result matches Some(s) ==> (0x20 <= event.keyval <= 0x7e ==> text_of(s.characters) == Some(
            seq![event.keyval as char],
        )),
        result matches Some(s) ==> (10 <= event.keycode <= 18 ==> s.key_code == Some(
            (event.keycode + 0x27) as u16,
        )),
        result matches Some(s) ==> (event.keycode == 19 ==> s.key_code == Some(0x30u16)),
{
    let key_state = KeyState::decode(event.state);
    if key_state.is_release {
        return None;
    }
    let keysym = event.keyval;
    if is_modifier_keysym(keysym) {
        return None;
    }
    let c = match fixed_control_character(keysym) {
        Some(c) => Some(c),
        None => key_char(keysym),
    };
    let characters = match c {
        Some(c) => Some(char_to_string(c)),
        None => None,
    };
    let ignoring = match c {
        Some(c) => Some(char_to_string(c)),
        None => None,
    };
    Some(
        KeyEventSnapshot {
            characters,
            characters_ignoring_modifiers: ignoring,
            key_code: virtual_key_code(event.keycode),
            modifiers: key_state.modifiers,
            is_named_special_key: is_named_special_keysym(keysym),
            navigation_key: navigation_key(keysym),
        },
    )
}

/// A release is never a key for the classifier, whatever else the mask or
/// the keysym says.
pub proof fn lemma_release_is_not_an_event(event: RawKeyEvent)
    requires
        event.state & state::RELEASE != 0,
    ensures
        !is_classified(event),
{
}

/// Caps Lock alone changes no tracked modifier: a mask with only the Lock
/// bit decodes as no modifier held.
pub proof fn lemma_lock_is_not_a_modifier()
    ensures
        decoded(state::LOCK).modifiers == (KeyModifiers {
            shift: false,
            control: false,
            alt: false,
            win: false,
        }),
        !decoded(state::LOCK).is_release,
{
    assert(state::LOCK & state::SHIFT == 0) by (bit_vector);
    assert(state::LOCK & state::CONTROL == 0) by (bit_vector);
    assert(state::LOCK & state::MOD1 == 0) by (bit_vector);
    assert(state::LOCK & (state::MOD4 | state::SUPER) == 0) by (bit_vector);
    assert(state::LOCK & state::RELEASE == 0) by (bit_vector);
}

/// The IBus keycode conversion and the virtual-key table agree: IBus's
/// evdev `KEY_1`…`KEY_9` (2…10), `KEY_0` (11) and `KEY_SEMICOLON` (39)
/// carry the Windows codes of `1`…`9`, `0` and `;`.
pub proof fn lemma_ibus_number_row(evdev: u32)
    requires
        2 <= evdev <= 11 || evdev == 39,
    ensures
        virtual_key_of((evdev + EVDEV_TO_X_KEYCODE) as u32) is Some,
        evdev <= 10 ==> virtual_key_of((evdev + EVDEV_TO_X_KEYCODE) as u32) == Some(
            (0x31 + (evdev - 2)) as u16,
        ),
        evdev == 11 ==> virtual_key_of((evdev + EVDEV_TO_X_KEYCODE) as u32) == Some(0x30u16),
        evdev == 39 ==> virtual_key_of((evdev + EVDEV_TO_X_KEYCODE) as u32) == Some(0xBAu16),
{
}

} // verus!
