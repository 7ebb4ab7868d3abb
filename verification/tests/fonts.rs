use taigikeyboard::fonts::{displayed_name, family_lines, file_families, judge_copy, ImportOutcome};

#[test]
fn a_name_with_a_comma_stays_one_family() {
    assert_eq!(family_lines("A, B\nC\n\n"), vec!["A, B", "C"]);
}

#[test]
fn an_added_row_shows_its_file_name_without_the_extension() {
    assert_eq!(displayed_name("jf-openhuninn-2.1.ttf"), "jf-openhuninn-2.1");
    assert_eq!(displayed_name("源樣明體.otf"), "源樣明體");
    assert_eq!(displayed_name("noextension"), "noextension");
}

#[test]
fn family_lines_are_trimmed_and_blank_lines_dropped() {
    assert_eq!(
        family_lines("  Iansui \r\n\t\n\u{3000}源樣明體\u{3000}"),
        vec!["Iansui", "源樣明體"]
    );
    assert!(family_lines("").is_empty());
    assert!(family_lines("\n \n").is_empty());
}

#[test]
fn only_the_last_extension_is_dropped() {
    assert_eq!(displayed_name("a.b.c"), "a.b");
    assert_eq!(displayed_name(".hidden"), "");
    assert_eq!(displayed_name("trailing."), "trailing");
}

#[test]
fn a_file_with_no_typeface_or_a_refused_query_is_an_error() {
    assert_eq!(
        file_families(Ok("\n \n".to_owned())),
        Err("fontconfig found no typeface in the file".to_owned())
    );
    assert_eq!(
        file_families(Err("fc-query refused the file: bad".to_owned())),
        Err("fc-query refused the file: bad".to_owned())
    );
    assert_eq!(
        file_families(Ok("Iansui\nIansui Regular\n".to_owned())),
        Ok(vec!["Iansui".to_owned(), "Iansui Regular".to_owned()])
    );
}

#[test]
fn a_copy_of_an_installed_family_is_taken_back_out() {
    let installed = family_lines("DejaVu Sans\nIansui\n");
    assert_eq!(
        judge_copy(
            &installed,
            Ok(vec!["Other".to_owned(), "Iansui".to_owned()]),
            "iansui.ttf".to_owned()
        ),
        (Ok(ImportOutcome::AlreadyInstalled), false)
    );
    assert_eq!(
        judge_copy(
            &installed,
            Ok(vec!["jf open 粉圓".to_owned()]),
            "jf-openhuninn-2.1.ttf".to_owned()
        ),
        (
            Ok(ImportOutcome::Added("jf-openhuninn-2.1.ttf".to_owned())),
            true
        )
    );
    assert_eq!(
        judge_copy(
            &installed,
            Err("fontconfig found no typeface in the file".to_owned()),
            "notes.txt".to_owned()
        ),
        (
            Err("fontconfig found no typeface in the file".to_owned()),
            false
        )
    );
}
