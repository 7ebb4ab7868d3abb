use std::collections::HashMap;
use taigikeyboard::locale::{system_locale_from, system_locale_with, tag_of};

fn env(pairs: &[(&str, &str)]) -> impl Fn(&str) -> Option<String> {
    let map: HashMap<String, String> = pairs
        .iter()
        .map(|(key, value)| ((*key).to_owned(), (*value).to_owned()))
        .collect();
    move |name| map.get(name).cloned()
}

fn some(text: &str) -> Option<String> {
    Some(text.to_owned())
}

#[test]
fn lc_all_wins_then_lc_messages_then_lang() {
    assert_eq!(
        system_locale_with(env(&[
            ("LANG", "ja_JP.UTF-8"),
            ("LC_MESSAGES", "en_US.UTF-8")
        ])),
        "en-US"
    );
    assert_eq!(
        system_locale_with(env(&[("LC_ALL", "zh_TW.UTF-8"), ("LANG", "en_US.UTF-8")])),
        "zh-TW"
    );
    assert_eq!(system_locale_with(env(&[("LANG", "ja_JP.UTF-8")])), "ja-JP");
}

#[test]
fn an_empty_variable_is_skipped_and_c_means_no_language() {
    assert_eq!(
        system_locale_with(env(&[("LC_ALL", ""), ("LANG", "en_GB.UTF-8")])),
        "en-GB"
    );
    assert_eq!(system_locale_with(env(&[("LANG", "C.UTF-8")])), "");
    assert_eq!(system_locale_with(env(&[("LANG", "POSIX")])), "");
    assert_eq!(system_locale_with(env(&[])), "");
}

#[test]
fn the_three_values_decide_in_order() {
    assert_eq!(
        system_locale_from(some("zh_TW.UTF-8"), some("en_US.UTF-8"), some("ja_JP.UTF-8")),
        "zh-TW"
    );
    assert_eq!(system_locale_from(some(""), None, some("en_GB.UTF-8")), "en-GB");
    assert_eq!(system_locale_from(None, None, None), "");
}

#[test]
fn the_modifier_and_codeset_are_dropped() {
    assert_eq!(tag_of("sr_RS@latin"), "sr-RS");
    assert_eq!(tag_of("nan_TW.UTF-8@latin"), "nan-TW");
    assert_eq!(tag_of("de"), "de");
    assert_eq!(tag_of("C"), "");
}
