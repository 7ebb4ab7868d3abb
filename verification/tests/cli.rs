use taigikeyboard::cli::{LaunchOptions, UnsupportedFlag};
use taigikeyboard::launcher::{check_for_updates_arguments, open_settings_arguments};
use taigikeyboard::settings_pane::SettingsPane;

fn parse(arguments: &[&str]) -> Result<LaunchOptions, UnsupportedFlag> {
    LaunchOptions::parse(arguments.iter().map(|s| (*s).to_owned()).collect())
}

#[test]
fn the_launcher_contract_round_trips() {
    // open_settings(Some("about")) spawns `--pane about`.
    assert_eq!(
        parse(&["--pane", "about"]).unwrap().pane,
        Some(SettingsPane::About)
    );
    assert_eq!(parse(&[]).unwrap(), LaunchOptions::default());
    assert_eq!(parse(&["--pane", "bogus"]).unwrap().pane, None);
    assert_eq!(parse(&["--pane"]).unwrap().pane, None);
}

#[test]
fn the_menu_check_arrives_on_general() {
    // check_for_updates() spawns `--pane general --check-now`.
    let options = parse(&["--pane", "general", "--check-now"]).unwrap();
    assert_eq!(options.pane, Some(SettingsPane::General));
    assert!(options.check_now);
    assert!(!parse(&["--pane", "about"]).unwrap().check_now);
}

#[test]
fn the_flags_without_linux_behaviour_are_refused_by_name() {
    let error = parse(&["--check-updates"]).unwrap_err();
    assert_eq!(error, UnsupportedFlag("--check-updates".into()));
    assert!(error.message().contains("--check-updates"));
    assert!(parse(&["--prewarm"]).is_err());
}

#[test]
fn the_refusal_names_the_accepted_flags() {
    let error = parse(&["--prewarm"]).unwrap_err();
    assert_eq!(
        error.message(),
        "`--prewarm` is not supported on Linux; only `--pane <pane>` and `--check-now` are accepted"
    );
}

#[test]
fn unknown_arguments_are_ignored_and_a_later_pane_wins() {
    let options = parse(&["--ibus", "--pane", "general", "--pane", "shortcuts"]).unwrap();
    assert_eq!(options.pane, Some(SettingsPane::Shortcuts));
    assert!(!options.check_now);
    // A refused flag after a good pane still refuses the whole line.
    assert!(parse(&["--pane", "about", "--check-updates"]).is_err());
}

#[test]
fn the_engine_side_builds_what_the_window_reads() {
    let arguments = open_settings_arguments(Some("about"));
    assert_eq!(arguments, vec!["--pane".to_owned(), "about".to_owned()]);
    assert_eq!(LaunchOptions::parse(arguments).unwrap().pane, Some(SettingsPane::About));
    assert!(open_settings_arguments(None).is_empty());
    let check = check_for_updates_arguments();
    assert_eq!(check, vec!["--pane", "general", "--check-now"]);
    let options = LaunchOptions::parse(check).unwrap();
    assert_eq!(options.pane, Some(SettingsPane::General));
    assert!(options.check_now);
}

#[test]
fn every_pane_spelling_reads_back() {
    for pane in [
        SettingsPane::General,
        SettingsPane::Appearance,
        SettingsPane::Shortcuts,
        SettingsPane::DictionarySources,
        SettingsPane::CustomDictionary,
        SettingsPane::FontManagement,
        SettingsPane::About,
    ] {
        assert_eq!(SettingsPane::from_raw(pane.raw()), Some(pane));
    }
    assert_eq!(SettingsPane::General.raw(), "general");
    assert_eq!(SettingsPane::from_raw("General"), None);
}
