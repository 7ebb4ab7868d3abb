//! The shortcut recorder's state and its targets: which row is recording,
//! what the last press was refused for, and which keys are held. The
//! judgement of a press (is it a chord, is it refused, does it blur the
//! row) is the shared chord evaluation, handed to [`Recorder::press`] as a
//! function; this is the state around it.

use crate::key_translation::KeyModifiers;
use std::collections::HashSet;
use vstd::prelude::*;

verus! {

broadcast use vstd::std_specs::hash::group_hash_axioms;

/// The registry a recorded chord is written to.
#[derive(Clone, Copy, Debug, PartialEq, Eq, Structural)]
pub enum RecorderTier {
    Global,
    Composing,
}

/// The global shortcuts a row can record.
#[derive(Clone, Copy, Debug, PartialEq, Eq, Structural)]
pub enum ShortcutAction {
    ToggleRomanization,
    CycleCandidateDisplayMode,
    OpenLastSettingsPane,
    ShowTelexGuide,
}

/// A composing-key action, by its position in the composing registry.
#[derive(Clone, Copy, Debug, PartialEq, Eq, Structural)]
pub struct ComposingAction(pub u8);

/// Which row is recording, and so which registry it writes to.
#[derive(Clone, Copy, Debug, PartialEq, Eq, Structural)]
pub enum RecorderTarget {
    Global(ShortcutAction),
    Composing(ComposingAction),
}

pub open spec fn tier_of(target: RecorderTarget) -> RecorderTier {
    match target {
        RecorderTarget::Global(_) => RecorderTier::Global,
        RecorderTarget::Composing(_) => RecorderTier::Composing,
    }
}

impl RecorderTarget {
    pub fn tier(self) -> (tier: RecorderTier)
        ensures
            tier == tier_of(self),
    {
        match self {
            RecorderTarget::Global(_) => RecorderTier::Global,
            RecorderTarget::Composing(_) => RecorderTier::Composing,
        }
    }
}

/// A recorded chord: the key and the modifiers held with it.
#[derive(Clone, Debug, PartialEq, Eq)]
pub struct ComposingKeyChord {
    pub key: String,
    pub modifiers: KeyModifiers,
}

/// Why a press was refused, by the chord evaluation's reason code.
#[derive(Clone, Copy, Debug, PartialEq, Eq, Structural)]
pub struct ChordRejection(pub u8);

/// One press as the recorder hands it to the chord evaluation.
#[derive(Clone, Debug, PartialEq, Eq)]
pub struct RecordedPress {
    pub key: Option<String>,
    pub modifiers: KeyModifiers,
    pub key_code: Option<u16>,
    /// The key is already held: an autorepeat, never judged as a chord.
    pub is_repeat: bool,
}

/// The chord evaluation's verdict on a press.
#[derive(Clone, Debug, PartialEq, Eq)]
pub enum RecorderOutcome {
    Recorded(ComposingKeyChord),
    Refused(ChordRejection),
    /// Escape: the row is left as it was.
    Blurred,
    /// A repeat or a bare modifier: nothing to judge.
    Ignored,
}

/// What the window does after a press.
#[derive(Clone, Debug, PartialEq, Eq)]
pub enum Recorded {
    /// Nothing to write; the field may need redrawing.
    Nothing,
    /// The chord to store on the row that was recording.
    Store(RecorderTarget, ComposingKeyChord),
}

/// The window's recording state.
#[derive(Debug)]
pub struct Recorder {
    pub target: Option<RecorderTarget>,
    pub rejection: Option<ChordRejection>,
    /// The physical keys held down (keycodes — the keysym of a repeat can
    /// change when a modifier joins it), so a repeat is marked as such, and
    /// a key the recorder consumed stays swallowed until its release even
    /// after the recording ended.
    pub held: HashSet<u32>,
}

impl Default for Recorder {
    fn default() -> (recorder: Self)
        ensures
            recorder.recording() is None,
            recorder.refusal() is None,
            recorder.held_keys() == Set::<u32>::empty(),
    {
        Recorder { target: None, rejection: None, held: HashSet::new() }
    }
}

/// The press as judged: marked a repeat when its key was already held.
pub open spec fn judged_press(press: RecordedPress, repeat: bool) -> RecordedPress {
    RecordedPress { is_repeat: repeat, ..press }
}

impl Recorder {
    /// The keycodes held down.
    pub open spec fn held_keys(&self) -> Set<u32> {
        self.held@
    }

    /// The row recording, if any.
    pub open spec fn recording(&self) -> Option<RecorderTarget> {
        self.target
    }

    /// The refusal shown for the last press, if any.
    pub open spec fn refusal(&self) -> Option<ChordRejection> {
        self.rejection
    }

    /// Records on `target`, with no refusal shown; the held keys are kept.
    pub fn start(&mut self, target: RecorderTarget)
        ensures
            final(self).recording() == Some(target),
            final(self).refusal() is None,
            final(self).held_keys() == old(self).held_keys(),
    {
        self.target = Some(target);
        self.rejection = None;
    }

    /// Ends the recording; the keys still held stay owed their release.
    /// Answers whether a row was recording.
    pub fn stop(&mut self) -> (was_recording: bool)
        ensures
            was_recording == old(self).recording() is Some,
            final(self).recording() is None,
            final(self).refusal() is None,
            final(self).held_keys() == old(self).held_keys(),
    {
        let was_recording = self.target.is_some();
        self.target = None;
        self.rejection = None;
        was_recording
    }

    pub fn is_recording(&self, target: RecorderTarget) -> (recording: bool)
        ensures
            recording == (self.recording() == Some(target)),
    {
        match self.target {
            Some(current) => current == target,
            None => false,
        }
    }

    /// Whether a press of `keycode` is the recorder's: every press while a
    /// row records, and the repeats of a key it consumed until released.
    pub fn swallows(&self, keycode: u32) -> (swallowed: bool)
        ensures
            swallowed == (self.recording() is Some || self.held_keys().contains(keycode)),
    {
        self.target.is_some() || self.held.contains(&keycode)
    }

    /// One press of `keycode`, judged by `evaluate` (the shared chord
    /// evaluation, given the recording row's tier) when a row records. The
    /// key joins the held keys; a key already held is a repeat. A recorded
    /// chord ends the recording and is returned for the row; a refusal is
    /// kept to show; Escape (blurred) ends the recording with nothing to
    /// store; an ignored press changes nothing.
    pub fn press(
        &mut self,
        keycode: u32,
        press: RecordedPress,
        evaluate: impl FnOnce(RecorderTier, RecordedPress) -> RecorderOutcome,
    ) -> (recorded: Recorded)
        requires
            forall|tier: RecorderTier, p: RecordedPress| evaluate.requires((tier, p)),
        ensures
            final(self).held_keys() == old(self).held_keys().insert(keycode),
            old(self).recording() is None ==> {
                &&& recorded == Recorded::Nothing
                &&& final(self).recording() is None
                &&& final(self).refusal() == old(self).refusal()
            },
            old(self).recording() matches Some(target) ==> exists|outcome: RecorderOutcome|
                {
                    &&& #[trigger] evaluate.ensures(
                        (
                            tier_of(target),
                            judged_press(press, old(self).held_keys().contains(keycode)),
                        ),
                        outcome,
                    )
                    &&& match outcome {
                        RecorderOutcome::Recorded(chord) => {
                            &&& recorded == Recorded::Store(target, chord)
                            &&& final(self).recording() is None
                            &&& final(self).refusal() is None
                        },
                        RecorderOutcome::Refused(reason) => {
                            &&& recorded == Recorded::Nothing
                            &&& final(self).recording() == Some(target)
                            &&& final(self).refusal() == Some(reason)
                        },
                        RecorderOutcome::Blurred => {
                            &&& recorded == Recorded::Nothing
                            &&& final(self).recording() is None
                            &&& final(self).refusal() is None
                        },
                        RecorderOutcome::Ignored => {
                            &&& recorded == Recorded::Nothing
                            &&& final(self).recording() == Some(target)
                            &&& final(self).refusal() == old(self).refusal()
                        },
                    }
                },
    {
        let is_repeat = !self.held.insert(keycode);
        let press = RecordedPress { is_repeat, ..press };
        let target = match self.target {
            Some(target) => target,
            None => return Recorded::Nothing,
        };
        let outcome = evaluate(target.tier(), press);
        match outcome {
            RecorderOutcome::Recorded(chord) => {
                self.stop();
                Recorded::Store(target, chord)
            },
            RecorderOutcome::Refused(reason) => {
                self.rejection = Some(reason);
                Recorded::Nothing
            },
            RecorderOutcome::Blurred => {
                self.stop();
                Recorded::Nothing
            },
            RecorderOutcome::Ignored => Recorded::Nothing,
        }
    }

    /// The key is up: it is no longer owed a release.
    pub fn release(&mut self, keycode: u32)
        ensures
            final(self).held_keys() == old(self).held_keys().remove(keycode),
            final(self).recording() == old(self).recording(),
            final(self).refusal() == old(self).refusal(),
    {
        self.held.remove(&keycode);
    }
}

/// A key the recorder saw pressed stays swallowed until it is released,
/// whether or not a row is still recording: pressing holds it, releasing
/// frees it.
pub proof fn lemma_held_until_released(held: Set<u32>, keycode: u32, other: u32)
    requires
        other != keycode,
    ensures
        held.insert(keycode).contains(keycode),
        !held.insert(keycode).remove(keycode).contains(keycode),
        held.insert(keycode).remove(keycode).contains(other) == held.contains(other),
{
}

} // verus!
