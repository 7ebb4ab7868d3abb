use taigikeyboard::key_translation::KeyModifiers;
use taigikeyboard::recorder::{
    ChordRejection, ComposingAction, ComposingKeyChord, Recorded, RecordedPress, Recorder,
    RecorderOutcome, RecorderTarget, RecorderTier, ShortcutAction,
};

/// A stand-in for the shared chord evaluation: a repeat is ignored, a bare
/// Escape blurs, a press without Control, Alt or the Windows key is
/// refused, anything else is recorded.
fn evaluate(_tier: RecorderTier, press: RecordedPress) -> RecorderOutcome {
    if press.is_repeat {
        return RecorderOutcome::Ignored;
    }
    let key = press.key.unwrap_or_default();
    if key == "\u{1B}" && press.modifiers.is_empty() {
        return RecorderOutcome::Blurred;
    }
    if !(press.modifiers.control || press.modifiers.alt || press.modifiers.win) {
        return RecorderOutcome::Refused(ChordRejection(0));
    }
    RecorderOutcome::Recorded(ComposingKeyChord {
        key,
        modifiers: press.modifiers,
    })
}

fn press(key: &str, modifiers: KeyModifiers) -> RecordedPress {
    RecordedPress {
        key: Some(key.to_owned()),
        modifiers,
        key_code: None,
        is_repeat: false,
    }
}

#[test]
fn a_chord_ends_the_recording_and_its_key_stays_swallowed_until_released() {
    let mut recorder = Recorder::default();
    let target = RecorderTarget::Global(ShortcutAction::ShowTelexGuide);
    recorder.start(target);
    let chord = KeyModifiers::control_only().with(KeyModifiers::alt_only());
    assert!(matches!(
        recorder.press(45, press("k", chord), evaluate),
        Recorded::Store(t, _) if t == target
    ));
    assert!(recorder.target.is_none());
    assert!(recorder.swallows(45), "the held key is still owed a release");
    assert!(!recorder.swallows(46));
    assert_eq!(
        recorder.press(45, press("k", chord), evaluate),
        Recorded::Nothing
    );
    recorder.release(45);
    assert!(!recorder.swallows(45));
}

#[test]
fn a_repeat_is_the_keycode_not_the_keysym_and_escape_blurs() {
    let mut recorder = Recorder::default();
    let target = RecorderTarget::Global(ShortcutAction::ShowTelexGuide);
    recorder.start(target);
    assert_eq!(
        recorder.press(38, press("a", KeyModifiers::none()), evaluate),
        Recorded::Nothing
    );
    assert!(recorder.rejection.is_some(), "a bare letter is refused");
    recorder.rejection = None;
    assert_eq!(
        recorder.press(38, press("a", KeyModifiers::shift_only()), evaluate),
        Recorded::Nothing
    );
    assert!(
        recorder.rejection.is_none(),
        "a repeat is ignored, not judged"
    );
    recorder.release(38);
    assert!(recorder.is_recording(target));
    assert_eq!(
        recorder.press(9, press("\u{1B}", KeyModifiers::none()), evaluate),
        Recorded::Nothing
    );
    assert!(!recorder.is_recording(target), "Escape blurs");
}

#[test]
fn the_recorded_chord_is_stored_on_the_composing_row() {
    let mut recorder = Recorder::default();
    let target = RecorderTarget::Composing(ComposingAction(2));
    assert_eq!(target.tier(), RecorderTier::Composing);
    recorder.start(target);
    let chord = KeyModifiers::control_only();
    assert_eq!(
        recorder.press(30, press("a", chord), evaluate),
        Recorded::Store(
            target,
            ComposingKeyChord {
                key: "a".to_owned(),
                modifiers: chord
            }
        )
    );
    assert!(!recorder.stop(), "the recording already ended");
}

#[test]
fn with_no_row_recording_a_press_is_nothing_and_only_held() {
    let mut recorder = Recorder::default();
    assert!(!recorder.swallows(20));
    assert_eq!(
        recorder.press(20, press("x", KeyModifiers::control_only()), evaluate),
        Recorded::Nothing
    );
    assert!(recorder.swallows(20));
    assert!(recorder.rejection.is_none());
    recorder.start(RecorderTarget::Global(ShortcutAction::ToggleRomanization));
    assert!(recorder.stop());
    assert_eq!(
        RecorderTarget::Global(ShortcutAction::ToggleRomanization).tier(),
        RecorderTier::Global
    );
}
