//! The tray button's menu on Windows, as numbers and words: the command id
//! of each row and the script letter the tray shows. Drawing the menu is
//! the shell's.

use crate::recorder::ShortcutAction;
use vstd::prelude::*;

verus! {

/// Menu command ids. A dismissed menu answers 0, so no row may be 0.
pub const MENU_OPEN_SETTINGS: u32 = 1;

pub const MENU_CHECK_FOR_UPDATES: u32 = 2;

/// The about page's one doorway.
pub const MENU_ABOUT: u32 = 5;

/// The id of the menu row standing for the romanization toggle.
pub const MENU_TOGGLE_ROMANIZATION: u32 = 3;

/// The id of the menu row standing for the candidate display cycle.
pub const MENU_CYCLE_CANDIDATE_DISPLAY: u32 = 4;

/// The script being typed.
#[derive(Clone, Copy, Debug, PartialEq, Eq, Structural)]
pub enum LanguageMode {
    Taigi,
    English,
}

/// The global shortcut a menu id stands for, `None` for the other rows.
pub open spec fn shortcut_of_menu_id(id: u32) -> Option<ShortcutAction> {
    if id == MENU_TOGGLE_ROMANIZATION {
        Some(ShortcutAction::ToggleRomanization)
    } else if id == MENU_CYCLE_CANDIDATE_DISPLAY {
        Some(ShortcutAction::CycleCandidateDisplayMode)
    } else {
        None
    }
}

pub fn shortcut_for_menu_id(id: u32) -> (action: Option<ShortcutAction>)
    ensures
        action == shortcut_of_menu_id(id),
{
    if id == MENU_TOGGLE_ROMANIZATION {
        Some(ShortcutAction::ToggleRomanization)
    } else if id == MENU_CYCLE_CANDIDATE_DISPLAY {
        Some(ShortcutAction::CycleCandidateDisplayMode)
    } else {
        None
    }
}

/// What the tray shows when it draws text instead of the icon: the script
/// being typed, in one character.
pub fn tray_text(mode: LanguageMode) -> (text: &'static str)
    ensures
        mode == LanguageMode::Taigi ==> text@ == "台"@,
        mode == LanguageMode::English ==> text@ == "英"@,
{
    match mode {
        LanguageMode::Taigi => "台",
        LanguageMode::English => "英",
    }
}

/// No menu row is 0 (a dismissed menu), and the rows' ids are distinct, so
/// no row can print one action and fire another.
pub proof fn lemma_menu_ids_are_distinct()
    ensures
        MENU_OPEN_SETTINGS != 0 && MENU_CHECK_FOR_UPDATES != 0 && MENU_ABOUT != 0
            && MENU_TOGGLE_ROMANIZATION != 0 && MENU_CYCLE_CANDIDATE_DISPLAY != 0,
        shortcut_of_menu_id(MENU_OPEN_SETTINGS) is None,
        shortcut_of_menu_id(MENU_CHECK_FOR_UPDATES) is None,
        shortcut_of_menu_id(MENU_ABOUT) is None,
        shortcut_of_menu_id(0) is None,
        MENU_OPEN_SETTINGS != MENU_CHECK_FOR_UPDATES && MENU_OPEN_SETTINGS != MENU_ABOUT
            && MENU_OPEN_SETTINGS != MENU_TOGGLE_ROMANIZATION && MENU_OPEN_SETTINGS
            != MENU_CYCLE_CANDIDATE_DISPLAY,
        MENU_CHECK_FOR_UPDATES != MENU_ABOUT && MENU_CHECK_FOR_UPDATES != MENU_TOGGLE_ROMANIZATION
            && MENU_CHECK_FOR_UPDATES != MENU_CYCLE_CANDIDATE_DISPLAY,
        MENU_ABOUT != MENU_TOGGLE_ROMANIZATION && MENU_ABOUT != MENU_CYCLE_CANDIDATE_DISPLAY,
        MENU_TOGGLE_ROMANIZATION != MENU_CYCLE_CANDIDATE_DISPLAY,
{
}

} // verus!
