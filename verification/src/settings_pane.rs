//! The settings window's panes, by the raw spelling the launch contract
//! and the settings file use, and the command-line flags of that contract.

use crate::text::str_eq;
use vstd::prelude::*;

verus! {

/// `--pane <raw>`: open the window on that pane.
pub const PANE_FLAG: &'static str = "--pane";

/// `--check-now`: run the manual update check on arrival.
pub const CHECK_NOW_FLAG: &'static str = "--check-now";

/// `--check-updates`: the windowless background check (no Linux window
/// behaviour).
pub const CHECK_UPDATES_FLAG: &'static str = "--check-updates";

/// `--prewarm`: start hidden to warm caches (no Linux behaviour).
pub const PREWARM_FLAG: &'static str = "--prewarm";

#[derive(Clone, Copy, Debug, PartialEq, Eq, Structural)]
pub enum SettingsPane {
    General,
    Appearance,
    Shortcuts,
    DictionarySources,
    CustomDictionary,
    FontManagement,
    About,
}

/// The raw spelling of each pane.
pub open spec fn raw_spelling(pane: SettingsPane) -> Seq<char> {
    match pane {
        SettingsPane::General => "general"@,
        SettingsPane::Appearance => "appearance"@,
        SettingsPane::Shortcuts => "shortcuts"@,
        SettingsPane::DictionarySources => "dictionarySources"@,
        SettingsPane::CustomDictionary => "customDictionary"@,
        SettingsPane::FontManagement => "fontManagement"@,
        SettingsPane::About => "about"@,
    }
}

/// The pane a raw spelling names, `None` for an unknown one.
pub open spec fn pane_from_raw(raw: Seq<char>) -> Option<SettingsPane> {
    if raw == "general"@ {
        Some(SettingsPane::General)
    } else if raw == "appearance"@ {
        Some(SettingsPane::Appearance)
    } else if raw == "shortcuts"@ {
        Some(SettingsPane::Shortcuts)
    } else if raw == "dictionarySources"@ {
        Some(SettingsPane::DictionarySources)
    } else if raw == "customDictionary"@ {
        Some(SettingsPane::CustomDictionary)
    } else if raw == "fontManagement"@ {
        Some(SettingsPane::FontManagement)
    } else if raw == "about"@ {
        Some(SettingsPane::About)
    } else {
        None
    }
}

impl SettingsPane {
    pub fn raw(self) -> (raw: &'static str)
        ensures
            raw@ == raw_spelling(self),
    {
        match self {
            SettingsPane::General => "general",
            SettingsPane::Appearance => "appearance",
            SettingsPane::Shortcuts => "shortcuts",
            SettingsPane::DictionarySources => "dictionarySources",
            SettingsPane::CustomDictionary => "customDictionary",
            SettingsPane::FontManagement => "fontManagement",
            SettingsPane::About => "about",
        }
    }

    pub fn from_raw(raw: &str) -> (pane: Option<Self>)
        ensures
            pane == pane_from_raw(raw@),
    {
        if str_eq(raw, "general") {
            Some(SettingsPane::General)
        } else if str_eq(raw, "appearance") {
            Some(SettingsPane::Appearance)
        } else if str_eq(raw, "shortcuts") {
            Some(SettingsPane::Shortcuts)
        } else if str_eq(raw, "dictionarySources") {
            Some(SettingsPane::DictionarySources)
        } else if str_eq(raw, "customDictionary") {
            Some(SettingsPane::CustomDictionary)
        } else if str_eq(raw, "fontManagement") {
            Some(SettingsPane::FontManagement)
        } else if str_eq(raw, "about") {
            Some(SettingsPane::About)
        } else {
            None
        }
    }
}

/// Every pane's raw spelling reads back as that pane: the spellings are
/// distinct.
pub proof fn lemma_raw_round_trips(pane: SettingsPane)
    ensures
        pane_from_raw(raw_spelling(pane)) == Some(pane),
{
    reveal_strlit("general");
    reveal_strlit("appearance");
    reveal_strlit("shortcuts");
    reveal_strlit("dictionarySources");
    reveal_strlit("customDictionary");
    reveal_strlit("fontManagement");
    reveal_strlit("about");
    assert("general"@.len() == 7);
    assert("appearance"@.len() == 10);
    assert("shortcuts"@.len() == 9);
    assert("dictionarySources"@.len() == 17);
    assert("customDictionary"@.len() == 16);
    assert("fontManagement"@.len() == 14);
    assert("about"@.len() == 5);
    assert("general"@[0] != "about"@[0]);
    assert("dictionarySources"@[0] != "shortcuts"@[0]);
}

} // verus!
