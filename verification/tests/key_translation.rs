use taigikeyboard::key_translation::{keysym, state};
use taigikeyboard::key_translation::{
    snapshot, virtual_key_code, KeyEventSnapshot, KeyModifiers, KeyState, NavigationKey,
    RawKeyEvent,
};
use xkeysym::key;

fn press(keyval: u32, keycode: u32, state: u32) -> Option<KeyEventSnapshot> {
    snapshot(RawKeyEvent {
        keyval,
        keycode,
        state,
    })
}

#[test]
fn a_letter_types_itself_with_no_modifier() {
    let snapshot = press(key::a, 38, 0).unwrap();
    assert_eq!(snapshot.characters.as_deref(), Some("a"));
    assert_eq!(snapshot.characters_ignoring_modifiers.as_deref(), Some("a"));
    assert_eq!(snapshot.modifiers, KeyModifiers::none());
    assert!(!snapshot.is_named_special_key);
    assert_eq!(snapshot.key_code, None);
}

#[test]
fn shift_and_caps_lock_arrive_as_the_uppercase_keysym() {
    let shifted = press(key::A, 38, state::SHIFT).unwrap();
    assert_eq!(shifted.characters.as_deref(), Some("A"));
    assert_eq!(shifted.modifiers, KeyModifiers::shift_only());
    let locked = press(key::A, 38, state::LOCK).unwrap();
    assert_eq!(locked.characters.as_deref(), Some("A"));
    assert_eq!(locked.modifiers, KeyModifiers::none());
}

#[test]
fn control_alt_super_map_to_the_core_modifiers() {
    let snapshot = press(key::s, 39, state::CONTROL | state::MOD1).unwrap();
    assert_eq!(
        snapshot.modifiers,
        KeyModifiers {
            shift: false,
            control: true,
            alt: true,
            win: false
        }
    );
    assert_eq!(snapshot.characters.as_deref(), Some("s"));
    assert_eq!(snapshot.characters_ignoring_modifiers.as_deref(), Some("s"));
    assert!(press(key::s, 39, state::SUPER).unwrap().modifiers.win);
    assert!(press(key::s, 39, state::MOD4).unwrap().modifiers.win);
}

#[test]
fn releases_and_bare_modifiers_are_not_events() {
    assert_eq!(press(key::a, 38, state::RELEASE), None);
    assert_eq!(press(key::Shift_L, 50, 0), None);
    assert_eq!(press(key::Control_L, 37, 0), None);
    assert_eq!(press(key::Caps_Lock, 66, 0), None);
}

#[test]
fn the_fixed_control_characters_match_the_windows_spelling() {
    assert_eq!(
        press(key::Return, 36, 0).unwrap().characters.as_deref(),
        Some("\r")
    );
    assert_eq!(
        press(key::KP_Enter, 104, 0).unwrap().characters.as_deref(),
        Some("\r")
    );
    assert_eq!(
        press(key::Tab, 23, 0).unwrap().characters.as_deref(),
        Some("\t")
    );
    let escape = press(key::Escape, 9, 0).unwrap();
    assert_eq!(escape.characters.as_deref(), Some("\u{1B}"));
    assert!(escape.is_bare_escape());
    assert_eq!(
        press(key::BackSpace, 22, 0).unwrap().characters.as_deref(),
        Some("\u{8}")
    );
    let delete = press(key::Delete, 119, 0).unwrap();
    assert_eq!(delete.characters.as_deref(), Some("\u{7F}"));
    assert!(delete.is_named_special_key);
}

#[test]
fn navigation_keys_are_named_and_carry_no_characters() {
    let left = press(key::Left, 113, 0).unwrap();
    assert_eq!(left.navigation_key, Some(NavigationKey::LeftArrow));
    assert!(left.is_named_special_key);
    assert_eq!(left.characters, None);
    assert_eq!(
        press(key::Page_Down, 117, 0).unwrap().navigation_key,
        Some(NavigationKey::PageDown)
    );
    assert_eq!(
        press(key::KP_Up, 80, 0).unwrap().navigation_key,
        Some(NavigationKey::UpArrow)
    );
    let home = press(key::Home, 110, 0).unwrap();
    assert!(home.is_named_special_key);
    assert_eq!(home.navigation_key, None);
    assert!(press(key::F5, 71, 0).unwrap().is_named_special_key);
}

#[test]
fn the_number_row_and_semicolon_carry_the_windows_virtual_key_codes() {
    let hash = press(key::numbersign, 12, state::SHIFT).unwrap();
    assert_eq!(hash.characters.as_deref(), Some("#"));
    assert_eq!(hash.key_code, Some(0x33));
    assert_eq!(press(key::_0, 19, 0).unwrap().key_code, Some(0x30));
    assert_eq!(
        press(key::colon, 47, state::SHIFT).unwrap().key_code,
        Some(0xBA)
    );
    assert_eq!(press(key::q, 24, 0).unwrap().key_code, None);
}

#[test]
fn an_ibus_keycode_is_the_evdev_code_and_gains_eight() {
    let hash = snapshot(RawKeyEvent::from_ibus(key::numbersign, 4, state::SHIFT)).unwrap();
    assert_eq!(hash.key_code, Some(0x33));
    let v = snapshot(RawKeyEvent::from_ibus(key::V, 47, state::SHIFT)).unwrap();
    assert_eq!(v.key_code, None);
    let colon = snapshot(RawKeyEvent::from_ibus(key::colon, 39, state::SHIFT)).unwrap();
    assert_eq!(colon.key_code, Some(0xBA));
    assert_eq!(RawKeyEvent::from_ibus(key::a, 0, 0).keycode, 0);
}

#[test]
fn space_and_punctuation_type_their_character() {
    assert_eq!(
        press(key::space, 65, 0).unwrap().characters.as_deref(),
        Some(" ")
    );
    assert_eq!(
        press(key::comma, 59, 0).unwrap().characters.as_deref(),
        Some(",")
    );
    assert_eq!(
        press(key::grave, 49, 0).unwrap().characters.as_deref(),
        Some("`")
    );
}

#[test]
fn a_keysym_beyond_latin1_types_through_the_keysym_tables() {
    // U+20AC EURO SIGN as a Unicode keysym, and the legacy Hebrew alef.
    let euro = press(0x0100_20AC, 26, 0).unwrap();
    assert_eq!(euro.characters.as_deref(), Some("\u{20AC}"));
    let alef = press(0x0ce0, 26, 0).unwrap();
    assert_eq!(alef.characters.as_deref(), Some("\u{5D0}"));
}

#[test]
fn escape_under_a_modifier_is_not_bare() {
    let escape = press(key::Escape, 9, state::CONTROL).unwrap();
    assert!(!escape.is_bare_escape());
}

#[test]
fn the_mask_decodes_each_bit() {
    let decoded = KeyState::decode(state::SHIFT | state::RELEASE);
    assert!(decoded.is_release);
    assert!(decoded.modifiers.shift);
    assert!(!decoded.modifiers.control);
    assert!(KeyState::decode(state::LOCK).modifiers.is_empty());
}

#[test]
fn the_number_row_codes_run_one_to_nine_then_zero() {
    assert_eq!(virtual_key_code(10), Some(0x31));
    assert_eq!(virtual_key_code(18), Some(0x39));
    assert_eq!(virtual_key_code(19), Some(0x30));
    assert_eq!(virtual_key_code(9), None);
    assert_eq!(virtual_key_code(20), None);
}

#[test]
fn modifiers_combine_field_by_field() {
    let both = KeyModifiers::control_only().with(KeyModifiers::alt_only());
    assert!(both.control && both.alt && !both.shift && !both.win);
    assert!(!both.is_empty());
}

#[test]
fn the_keysym_numbers_are_the_ones_xkeysym_names() {
    assert_eq!(keysym::BACKSPACE, key::BackSpace);
    assert_eq!(keysym::TAB, key::Tab);
    assert_eq!(keysym::RETURN, key::Return);
    assert_eq!(keysym::PAUSE, key::Pause);
    assert_eq!(keysym::SCROLL_LOCK, key::Scroll_Lock);
    assert_eq!(keysym::SYS_REQ, key::Sys_Req);
    assert_eq!(keysym::ESCAPE, key::Escape);
    assert_eq!(keysym::HOME, key::Home);
    assert_eq!(keysym::LEFT, key::Left);
    assert_eq!(keysym::UP, key::Up);
    assert_eq!(keysym::RIGHT, key::Right);
    assert_eq!(keysym::DOWN, key::Down);
    assert_eq!(keysym::PAGE_UP, key::Page_Up);
    assert_eq!(keysym::PAGE_DOWN, key::Page_Down);
    assert_eq!(keysym::END, key::End);
    assert_eq!(keysym::BEGIN, key::Begin);
    assert_eq!(keysym::PRINT, key::Print);
    assert_eq!(keysym::INSERT, key::Insert);
    assert_eq!(keysym::MENU, key::Menu);
    assert_eq!(keysym::BREAK, key::Break);
    assert_eq!(keysym::MODE_SWITCH, key::Mode_switch);
    assert_eq!(keysym::NUM_LOCK, key::Num_Lock);
    assert_eq!(keysym::KP_ENTER, key::KP_Enter);
    assert_eq!(keysym::KP_HOME, key::KP_Home);
    assert_eq!(keysym::KP_LEFT, key::KP_Left);
    assert_eq!(keysym::KP_UP, key::KP_Up);
    assert_eq!(keysym::KP_RIGHT, key::KP_Right);
    assert_eq!(keysym::KP_DOWN, key::KP_Down);
    assert_eq!(keysym::KP_PAGE_UP, key::KP_Page_Up);
    assert_eq!(keysym::KP_PAGE_DOWN, key::KP_Page_Down);
    assert_eq!(keysym::KP_END, key::KP_End);
    assert_eq!(keysym::KP_INSERT, key::KP_Insert);
    assert_eq!(keysym::KP_DELETE, key::KP_Delete);
    assert_eq!(keysym::F1, key::F1);
    assert_eq!(keysym::F35, key::F35);
    assert_eq!(keysym::SHIFT_L, key::Shift_L);
    assert_eq!(keysym::SHIFT_R, key::Shift_R);
    assert_eq!(keysym::CONTROL_L, key::Control_L);
    assert_eq!(keysym::CONTROL_R, key::Control_R);
    assert_eq!(keysym::CAPS_LOCK, key::Caps_Lock);
    assert_eq!(keysym::SHIFT_LOCK, key::Shift_Lock);
    assert_eq!(keysym::META_L, key::Meta_L);
    assert_eq!(keysym::META_R, key::Meta_R);
    assert_eq!(keysym::ALT_L, key::Alt_L);
    assert_eq!(keysym::ALT_R, key::Alt_R);
    assert_eq!(keysym::SUPER_L, key::Super_L);
    assert_eq!(keysym::SUPER_R, key::Super_R);
    assert_eq!(keysym::HYPER_L, key::Hyper_L);
    assert_eq!(keysym::HYPER_R, key::Hyper_R);
    assert_eq!(keysym::DELETE, key::Delete);
    assert_eq!(keysym::ISO_LEVEL3_SHIFT, key::ISO_Level3_Shift);
    assert_eq!(keysym::ISO_LEVEL5_SHIFT, key::ISO_Level5_Shift);
    assert_eq!(keysym::ISO_LEFT_TAB, key::ISO_Left_Tab);
}
