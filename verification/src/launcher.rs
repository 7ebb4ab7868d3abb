//! The command lines the engine opens the settings window with, and the
//! opening itself through a spawn function the caller supplies. The
//! spelling is the shared launch contract, so the engine and the settings
//! binary cannot drift on it: what these build, `LaunchOptions::parse`
//! reads back (see the laws below).

use crate::cli::{parse_spec, views_of};
use crate::settings_pane::{
    pane_from_raw, raw_spelling, lemma_raw_round_trips, SettingsPane, CHECK_NOW_FLAG, PANE_FLAG,
};
use vstd::prelude::*;

verus! {

/// The arguments for the settings window on `pane` (a raw pane spelling)
/// or, without one, wherever the user left it.
pub fn open_settings_arguments(pane: Option<&str>) -> (arguments: Vec<String>)
    ensures
        views_of(arguments@) == match pane {
            Some(p) => seq![PANE_FLAG@, p@],
            None => Seq::<Seq<char>>::empty(),
        },
{
    let mut arguments: Vec<String> = Vec::new();
    if let Some(pane) = pane {
        arguments.push(String::from_str(PANE_FLAG));
        arguments.push(String::from_str(pane));
    }
    assert(views_of(arguments@) =~= match pane {
        Some(p) => seq![PANE_FLAG@, p@],
        None => Seq::<Seq<char>>::empty(),
    });
    arguments
}

/// The menu's update check: the window on the general pane, running the
/// manual check there.
pub fn check_for_updates_arguments() -> (arguments: Vec<String>)
    ensures
        views_of(arguments@) == seq![PANE_FLAG@, raw_spelling(SettingsPane::General), CHECK_NOW_FLAG@],
{
    let mut arguments: Vec<String> = Vec::new();
    arguments.push(String::from_str(PANE_FLAG));
    arguments.push(String::from_str(SettingsPane::General.raw()));
    arguments.push(String::from_str(CHECK_NOW_FLAG));
    assert(views_of(arguments@) =~= seq![
        PANE_FLAG@,
        raw_spelling(SettingsPane::General),
        CHECK_NOW_FLAG@,
    ]);
    arguments
}

/// Opens the settings window at `binary` on `pane` (or wherever the user
/// left it) by handing `spawn` the binary and the arguments; answers
/// whether `spawn` could start it.
pub fn open_settings_at(
    binary: &str,
    pane: Option<&str>,
    spawn: impl FnOnce(&str, Vec<String>) -> bool,
) -> (started: bool)
    requires
        forall|program: &str, arguments: Vec<String>| spawn.requires((program, arguments)),
    ensures
        exists|arguments: Vec<String>|
            {
                &&& #[trigger] spawn.ensures((binary, arguments), started)
                &&& views_of(arguments@) == match pane {
                    Some(p) => seq![PANE_FLAG@, p@],
                    None => Seq::<Seq<char>>::empty(),
                }
            },
{
    let arguments = open_settings_arguments(pane);
    let ghost handed = arguments;
    let started = spawn(binary, arguments);
    assert(spawn.ensures((binary, handed), started));
    started
}

/// The menu's update check, by handing `spawn` the binary and the
/// arguments; answers whether `spawn` could start it.
pub fn check_for_updates_at(binary: &str, spawn: impl FnOnce(&str, Vec<String>) -> bool) -> (started: bool)
    requires
        forall|program: &str, arguments: Vec<String>| spawn.requires((program, arguments)),
    ensures
        exists|arguments: Vec<String>|
            {
                &&& #[trigger] spawn.ensures((binary, arguments), started)
                &&& views_of(arguments@) == seq![
                    PANE_FLAG@,
                    raw_spelling(SettingsPane::General),
                    CHECK_NOW_FLAG@,
                ]
            },
{
    let arguments = check_for_updates_arguments();
    let ghost handed = arguments;
    let started = spawn(binary, arguments);
    assert(spawn.ensures((binary, handed), started));
    started
}

/// The launch contract round-trips: the settings window reads the pane the
/// engine asked for, with no check.
pub proof fn lemma_open_settings_round_trips(pane: SettingsPane)
    ensures
        parse_spec(seq![PANE_FLAG@, raw_spelling(pane)]) == Ok::<
            (Option<SettingsPane>, bool),
            Seq<char>,
        >((Some(pane), false)),
{
    lemma_raw_round_trips(pane);
    reveal_strlit("--pane");
    reveal_strlit("--check-now");
    reveal_strlit("--check-updates");
    reveal_strlit("--prewarm");
    let args = seq![PANE_FLAG@, raw_spelling(pane)];
    assert(args[0] == PANE_FLAG@);
    assert(pane_from_raw(args[1]) == Some(pane));
    assert(crate::cli::parse_from(args, 2, Some(pane), false) == Ok::<
        (Option<SettingsPane>, bool),
        Seq<char>,
    >((Some(pane), false)));
}

/// A window opened with no pane reads no pane and no check.
pub proof fn lemma_open_settings_without_pane()
    ensures
        parse_spec(Seq::<Seq<char>>::empty()) == Ok::<(Option<SettingsPane>, bool), Seq<char>>(
            (None, false),
        ),
{
}

/// The menu's update check arrives as the general pane with the check.
pub proof fn lemma_check_for_updates_round_trips()
    ensures
        parse_spec(seq![PANE_FLAG@, raw_spelling(SettingsPane::General), CHECK_NOW_FLAG@])
            == Ok::<(Option<SettingsPane>, bool), Seq<char>>(
            (Some(SettingsPane::General), true),
        ),
{
    lemma_raw_round_trips(SettingsPane::General);
    reveal_strlit("--pane");
    reveal_strlit("--check-now");
    reveal_strlit("general");
    let args = seq![PANE_FLAG@, raw_spelling(SettingsPane::General), CHECK_NOW_FLAG@];
    assert(args[0] == PANE_FLAG@);
    assert(args[2] == CHECK_NOW_FLAG@);
    assert(args[2] != PANE_FLAG@);
    assert(crate::cli::parse_from(args, 2, Some(SettingsPane::General), false) == crate::cli::parse_from(args, 3, Some(SettingsPane::General), true));
}

} // verus!
