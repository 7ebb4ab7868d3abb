//! One key, end to end, as the signals the daemon should get: what the
//! engine object remembers between keys (the candidate list, its
//! highlight, whether the daemon shows our lookup table, the auto-space
//! swap promised to the next key) and how each key, panel click, panel
//! navigation and session end changes it.
//!
//! The composing engine itself (appending text, committing, fetching the
//! candidates) runs outside this module; each step here takes what that
//! work reported and decides the rest: which signals follow, what the list
//! and its highlight become, and whether the key was consumed.

use crate::selection::{effective_direction, target_of, CandidateNavigation, LookupSelection};
use vstd::prelude::*;

verus! {

/// `IBUS_CAP_SURROUNDING_TEXT`: the client lets the engine delete text
/// before the caret.
pub const CAP_SURROUNDING_TEXT: u32 = 32;

/// The slot keys a page holds — nine on both key sets.
pub const PAGE_SIZE: usize = 9;

/// One cell of the candidate list: the leading script, and the other
/// script (合用) when the cell shows both.
#[derive(Clone, Debug, PartialEq, Eq)]
pub struct CandidateCell {
    pub text: String,
    pub annotation: Option<String>,
    /// The candidate can be committed in the other script (a flip on a
    /// cell without one does nothing).
    pub has_other_script: bool,
}

/// The lookup table as the panel draws it.
#[derive(Clone, Debug, PartialEq, Eq)]
pub struct LookupTableContent {
    pub candidates: Vec<String>,
    pub labels: Vec<String>,
    pub cursor: u32,
    pub cursor_visible: bool,
    pub page_size: u32,
    pub vertical: bool,
}

/// A signal for the daemon.
#[derive(Clone, Debug, PartialEq, Eq)]
pub enum Emit {
    Preedit { text: String, cursor: u32 },
    ClearPreedit,
    Commit(String),
    DeleteSurroundingText { offset: i32, chars: u32 },
    LookupTable(LookupTableContent),
    HideLookupTable,
}

/// How the panel draws the list: as a column or a row, and the label of
/// each page position (the slot keys).
#[derive(Clone, Debug, PartialEq, Eq)]
pub struct PanelStyle {
    pub vertical: bool,
    pub labels: Vec<String>,
}

/// What one engine object remembers between keys.
#[derive(Debug)]
pub struct EngineState {
    /// The fetched list's cells, display order.
    pub candidates: Vec<CandidateCell>,
    /// The highlight and page over `candidates`.
    pub selection: LookupSelection,
    /// The auto-space swap promised to the next key.
    pub armed_auto_space: bool,
    /// The client's `SetCapabilities` mask.
    pub capabilities: u32,
    /// Whether the daemon currently shows a lookup table of ours.
    pub is_table_shown: bool,
}

impl Default for EngineState {
    /// No list, nothing armed, no capability known, no table shown.
    fn default() -> (state: Self)
        ensures
            state.well_formed(),
            state.shows_table_while_listed(),
            state.candidates@.len() == 0,
            !state.armed_auto_space,
            state.capabilities == 0,
            !state.is_table_shown,
    {
        EngineState::new()
    }
}

impl EngineState {
    /// The highlight describes the list: one selection cell per candidate
    /// cell, nine per page.
    pub open spec fn well_formed(&self) -> bool {
        &&& self.selection.well_formed()
        &&& self.selection.spec_count() == self.candidates@.len()
        &&& self.selection.spec_page_size() == PAGE_SIZE
    }

    /// The daemon shows a table of ours exactly while there is a list. A
    /// fresh state holds it, every key, panel action and session end keeps
    /// it (see their contracts), and `run_key` and `end_session` restore it
    /// whatever came before.
    pub open spec fn shows_table_while_listed(&self) -> bool {
        self.is_table_shown == (self.candidates@.len() > 0)
    }

    pub fn new() -> (state: Self)
        ensures
            state.well_formed(),
            state.shows_table_while_listed(),
            state.candidates@.len() == 0,
            !state.armed_auto_space,
            state.capabilities == 0,
            !state.is_table_shown,
    {
        EngineState {
            candidates: Vec::new(),
            selection: LookupSelection::new(0, PAGE_SIZE),
            armed_auto_space: false,
            capabilities: 0,
            is_table_shown: false,
        }
    }

    pub fn can_delete_surrounding(&self) -> (can_delete: bool)
        ensures
            can_delete == (self.capabilities & CAP_SURROUNDING_TEXT != 0),
    {
        self.capabilities & CAP_SURROUNDING_TEXT != 0
    }

    /// Drops the list and its highlight.
    pub fn clear_list(&mut self)
        ensures
            final(self).well_formed(),
            final(self).candidates@.len() == 0,
            final(self).selection.spec_selected() == 0,
            final(self).armed_auto_space == old(self).armed_auto_space,
            final(self).capabilities == old(self).capabilities,
            final(self).is_table_shown == old(self).is_table_shown,
    {
        self.candidates = Vec::new();
        self.selection = LookupSelection::new(0, PAGE_SIZE);
    }

    /// A freshly fetched list, highlighted on its first cell.
    pub fn set_list(&mut self, cells: Vec<CandidateCell>)
        ensures
            final(self).well_formed(),
            final(self).candidates@ == cells@,
            final(self).selection.spec_selected() == 0,
            final(self).armed_auto_space == old(self).armed_auto_space,
            final(self).capabilities == old(self).capabilities,
            final(self).is_table_shown == old(self).is_table_shown,
    {
        let count = cells.len();
        self.candidates = cells;
        self.selection = LookupSelection::new(count, PAGE_SIZE);
    }
}


/// The text the panel draws for a cell: the leading script, then the
/// other script after a space.
pub open spec fn cell_display(cell: CandidateCell) -> Seq<char> {
    match cell.annotation {
        Some(annotation) => cell.text@ + seq![' '] + annotation@,
        None => cell.text@,
    }
}

/// `content` is the table for `state` drawn in `style`: every cell's
/// text, the labels, the highlighted cell as the cursor (0 for none), nine
/// cells a page, the cursor shown.
pub open spec fn is_table_of(
    content: LookupTableContent,
    state: EngineState,
    style: PanelStyle,
) -> bool {
    &&& content.candidates@.len() == state.candidates@.len()
    &&& forall|i: int|
        0 <= i < state.candidates@.len() ==> #[trigger] content.candidates@[i]@ == cell_display(
            state.candidates@[i],
        )
    &&& content.labels@ == style.labels@
    &&& content.cursor == (if state.candidates@.len() > 0 {
        state.selection.spec_selected() as u32
    } else {
        0u32
    })
    &&& content.cursor_visible
    &&& content.page_size == PAGE_SIZE as u32
    &&& content.vertical == style.vertical
}

fn display_text(cell: &CandidateCell) -> (text: String)
    ensures
        text@ == cell_display(*cell),
{
    match &cell.annotation {
        Some(annotation) => {
            let mut text = cell.text.clone();
            crate::text::push_char(&mut text, ' ');
            text.concat(annotation.as_str())
        },
        None => cell.text.clone(),
    }
}

fn copy_strings(strings: &Vec<String>) -> (copy: Vec<String>)
    ensures
        copy@ == strings@,
{
    let mut copy: Vec<String> = Vec::new();
    let mut i: usize = 0;
    while i < strings.len()
        invariant
            i <= strings@.len(),
            copy@ == strings@.take(i as int),
        decreases strings@.len() - i,
    {
        copy.push(strings[i].clone());
        assert(copy@ =~= strings@.take(i + 1));
        i = i + 1;
    }
    assert(strings@.take(strings@.len() as int) =~= strings@);
    copy
}

/// The cells as the panel draws them; labels are the slot keys, one per
/// page position.
pub fn table_content(state: &EngineState, style: &PanelStyle) -> (content: LookupTableContent)
    requires
        state.well_formed(),
    ensures
        is_table_of(content, *state, *style),
{
    let mut candidates: Vec<String> = Vec::new();
    let mut i: usize = 0;
    while i < state.candidates.len()
        invariant
            i <= state.candidates@.len(),
            candidates@.len() == i,
            forall|j: int|
                0 <= j < i ==> #[trigger] candidates@[j]@ == cell_display(state.candidates@[j]),
        decreases state.candidates@.len() - i,
    {
        candidates.push(display_text(&state.candidates[i]));
        i = i + 1;
    }
    proof {
        crate::selection::lemma_sizes(state.selection);
    }
    let cursor = match state.selection.selected_index() {
        Some(index) => index as u32,
        None => 0,
    };
    assert(cursor == (if state.candidates@.len() > 0 {
        state.selection.spec_selected() as u32
    } else {
        0u32
    }));
    let labels = copy_strings(&style.labels);
    assert(labels@ == style.labels@);
    LookupTableContent {
        candidates,
        labels,
        cursor,
        cursor_visible: true,
        page_size: PAGE_SIZE as u32,
        vertical: style.vertical,
    }
}

/// The lookup table as the list now stands — shown (or updated in place)
/// when there is a list, taken down when there is none and ours is shown,
/// left alone otherwise. Appended after the composing signals.
pub fn present_list(state: &mut EngineState, style: &PanelStyle, emits: &mut Vec<Emit>)
    requires
        old(state).well_formed(),
    ensures
        final(state).well_formed(),
        final(state).candidates == old(state).candidates,
        final(state).selection == old(state).selection,
        final(state).armed_auto_space == old(state).armed_auto_space,
        final(state).capabilities == old(state).capabilities,
        final(state).is_table_shown == (old(state).candidates@.len() > 0),
        old(state).candidates@.len() == 0 ==> final(emits)@ == if old(state).is_table_shown {
            old(emits)@.push(Emit::HideLookupTable)
        } else {
            old(emits)@
        },
        old(state).candidates@.len() > 0 ==> (final(emits)@.len() == old(emits)@.len() + 1
            && final(emits)@.take(old(emits)@.len() as int) == old(emits)@ && (final(emits)@.last() matches Emit::LookupTable(content) && is_table_of(content, *old(state), *style))),
{
    if state.candidates.len() == 0 {
        if state.is_table_shown {
            emits.push(Emit::HideLookupTable);
            state.is_table_shown = false;
        }
        return ;
    }
    let content = table_content(state, style);
    let ghost before = emits@;
    emits.push(Emit::LookupTable(content));
    assert(emits@.take(before.len() as int) =~= before);
    state.is_table_shown = true;
}

/// What a key did.
#[derive(Clone, Debug, PartialEq, Eq)]
pub struct KeyReply {
    /// `true` = consumed; `false` = the client processes the key itself.
    pub handled: bool,
    pub emits: Vec<Emit>,
}

/// A caret move inside the composition.
#[derive(Clone, Copy, Debug, PartialEq, Eq, Structural)]
pub enum CaretDirection {
    Backward,
    Forward,
}

/// What the key classifier made of a key.
#[derive(Clone, Debug, PartialEq, Eq)]
pub enum KeyIntent {
    Input(String),
    TelexKey(String),
    DeleteBackward,
    Commit,
    Cancel,
    CommitThenInsert(String),
    CommitThenPassThrough,
    PassThrough,
    CommitHighlightedCandidate,
    /// Space: the highlighted cell's other script.
    CommitAlternateScript,
    SelectCandidateSlot { slot: usize, flip: bool },
    Navigate(CandidateNavigation),
    MoveCaret(CaretDirection),
}

/// The pass-through keys this input method consumes: punctuation it
/// writes itself (full-width, or the width-flip chord), and attaching
/// punctuation right after an auto space, which it swaps in front of the
/// space — only when the swap is armed, the client lets it delete, and
/// auto space is on. A key that types nothing is never consumed.
pub open spec fn pass_through_consumes(
    types_text: bool,
    writes_punctuation: bool,
    attaching_punctuation: bool,
    auto_space_enabled: bool,
    armed: bool,
    can_delete: bool,
) -> bool {
    types_text && (writes_punctuation || (armed && can_delete && attaching_punctuation
        && auto_space_enabled))
}

/// Whether a pass-through key is this input method's, from what the
/// punctuation policy says of the text it types.
pub fn pass_through_may_consume(
    state: &EngineState,
    types_text: bool,
    writes_punctuation: bool,
    attaching_punctuation: bool,
    auto_space_enabled: bool,
) -> (consumes: bool)
    ensures
        consumes == pass_through_consumes(
            types_text,
            writes_punctuation,
            attaching_punctuation,
            auto_space_enabled,
            state.armed_auto_space,
            state.capabilities & CAP_SURROUNDING_TEXT != 0,
        ),
{
    if !types_text {
        return false;
    }
    if writes_punctuation {
        return true;
    }
    state.armed_auto_space && state.can_delete_surrounding() && attaching_punctuation
        && auto_space_enabled
}

/// Whether a key is consumed before any composing work: a pass-through
/// key only when it is one of ours, a commit-then-pass-through only while
/// composing, every other intent always.
pub open spec fn would_consume(intent: KeyIntent, is_composing: bool, consumes_pass_through: bool) -> bool {
    match intent {
        KeyIntent::PassThrough => consumes_pass_through,
        KeyIntent::CommitThenPassThrough => is_composing,
        _ => true,
    }
}

/// Whether the key's work runs: every consumed key, and a
/// commit-then-pass-through always (it finishes a composition even when
/// the key itself goes on to the client).
pub open spec fn runs_key(intent: KeyIntent, is_composing: bool, consumes_pass_through: bool) -> bool {
    would_consume(intent, is_composing, consumes_pass_through)
        || intent is CommitThenPassThrough
}

/// How a key starts: answered "not handled" at once, or run, with the
/// signals already due.
#[derive(Clone, Debug, PartialEq, Eq)]
pub enum KeyStart {
    Unhandled(KeyReply),
    Run(Vec<Emit>),
}

/// The start of a key. A list the user switched off since the last key
/// comes down HERE, before the key is read: a Return classified against a
/// list still up would pick a candidate the user asked never to see. Then
/// the key either is not ours (the client processes it) or runs.
pub fn process_key(
    state: &mut EngineState,
    intent: &KeyIntent,
    is_composing: bool,
    consumes_pass_through: bool,
    candidate_window_enabled: bool,
) -> (start: KeyStart)
    requires
        old(state).well_formed(),
    ensures
        final(state).well_formed(),
        old(state).shows_table_while_listed() ==> final(state).shows_table_while_listed(),
        final(state).armed_auto_space == old(state).armed_auto_space,
        final(state).capabilities == old(state).capabilities,
        ({
            let clears = !candidate_window_enabled && old(state).candidates@.len() > 0;
            let due = if clears {
                seq![Emit::HideLookupTable]
            } else {
                Seq::<Emit>::empty()
            };
            &&& clears ==> final(state).candidates@.len() == 0 && !final(state).is_table_shown
                && final(state).selection.spec_selected() == 0
            &&& !clears ==> final(state).candidates == old(state).candidates
                && final(state).selection == old(state).selection
                && final(state).is_table_shown == old(state).is_table_shown
            &&& if runs_key(*intent, is_composing, consumes_pass_through) {
                start matches KeyStart::Run(emits) && emits@ == due
            } else {
                start matches KeyStart::Unhandled(reply) && !reply.handled && reply.emits@ == due
            }
        }),
{
    let mut emits: Vec<Emit> = Vec::new();
    if !candidate_window_enabled && state.candidates.len() > 0 {
        state.clear_list();
        emits.push(Emit::HideLookupTable);
        state.is_table_shown = false;
    }
    let consumes = match intent {
        KeyIntent::PassThrough => consumes_pass_through,
        KeyIntent::CommitThenPassThrough => is_composing,
        _ => true,
    };
    let finishes = match intent {
        KeyIntent::CommitThenPassThrough => true,
        _ => false,
    };
    if !consumes && !finishes {
        return KeyStart::Unhandled(KeyReply { handled: false, emits });
    }
    KeyStart::Run(emits)
}

/// What the composing work did to the candidate list.
#[derive(Clone, Debug, PartialEq, Eq)]
pub enum ListUpdate {
    Keep,
    Clear,
    Replace(Vec<CandidateCell>),
}

/// A refetch after the composition changed: with the candidate window
/// setting off nothing is fetched (`fetch` need not even be callable
/// then), not merely not shown; otherwise what `fetch` answers (`None`:
/// the engine has no list).
pub fn refreshed_list(
    candidate_window_enabled: bool,
    fetch: impl FnOnce() -> Option<Vec<CandidateCell>>,
) -> (update: ListUpdate)
    requires
        candidate_window_enabled ==> fetch.requires(()),
    ensures
        !candidate_window_enabled ==> update == ListUpdate::Clear,
        candidate_window_enabled ==> exists|fetched: Option<Vec<CandidateCell>>|
            {
                &&& #[trigger] fetch.ensures((), fetched)
                &&& update == match fetched {
                    Some(cells) => ListUpdate::Replace(cells),
                    None => ListUpdate::Clear,
                }
            },
{
    if !candidate_window_enabled {
        return ListUpdate::Clear;
    }
    let fetched = fetch();
    let ghost answer = fetched;
    let update = match fetched {
        Some(cells) => ListUpdate::Replace(cells),
        None => ListUpdate::Clear,
    };
    assert(fetch.ensures((), answer));
    update
}

/// How the engine took a committed candidate.
#[derive(Clone, Copy, Debug, PartialEq, Eq, Structural)]
pub enum CandidateCommitOutcome {
    /// The composition is finished.
    Finalized,
    /// A segment was fixed; the composition goes on.
    Nailed,
    Ignored,
    Unavailable,
}

/// The list after a candidate commit: gone when the composition is
/// finished, refetched otherwise.
pub fn committed_candidate_list(outcome: CandidateCommitOutcome, refreshed: ListUpdate) -> (update: ListUpdate)
    ensures
        outcome == CandidateCommitOutcome::Finalized ==> update == ListUpdate::Clear,
        outcome != CandidateCommitOutcome::Finalized ==> update == refreshed,
{
    match outcome {
        CandidateCommitOutcome::Finalized => ListUpdate::Clear,
        _ => refreshed,
    }
}

/// The cell a candidate-committing intent commits, and whether in the
/// other script: the highlighted cell, or the slot key's cell on the
/// current page. `None` for any other intent, for a key aimed at no cell,
/// and for a flip on a cell with no other script (still consumed).
pub open spec fn candidate_target_of(state: EngineState, intent: KeyIntent) -> Option<(usize, bool)> {
    match aimed_cell(state, intent) {
        Some((cell, flip)) => if !flip || state.candidates@[cell as int].has_other_script {
            Some((cell, flip))
        } else {
            None
        },
        None => None,
    }
}

/// The cell a candidate-committing intent aims at, and whether in the
/// other script, before asking whether the cell has that script.
pub open spec fn aimed_cell(state: EngineState, intent: KeyIntent) -> Option<(usize, bool)> {
    match intent {
        KeyIntent::CommitHighlightedCandidate => if state.candidates@.len() > 0 {
            Some((state.selection.spec_selected() as usize, false))
        } else {
            None
        },
        KeyIntent::CommitAlternateScript => if state.candidates@.len() > 0 {
            Some((state.selection.spec_selected() as usize, true))
        } else {
            None
        },
        KeyIntent::SelectCandidateSlot { slot, flip } => match crate::selection::slot_index_of(
            state.selection.spec_count(),
            state.selection.spec_page_size(),
            state.selection.spec_selected(),
            slot as nat,
        ) {
            Some(index) => Some((index as usize, flip)),
            None => None,
        },
        _ => None,
    }
}

pub fn candidate_target(state: &EngineState, intent: &KeyIntent) -> (target: Option<(usize, bool)>)
    requires
        state.well_formed(),
    ensures
        target == candidate_target_of(*state, *intent),
        target matches Some((cell, _)) ==> cell < state.candidates@.len(),
{
    let aimed = aimed(state, intent);
    match aimed {
        Some((cell, flip)) => if !flip || state.candidates[cell].has_other_script {
            Some((cell, flip))
        } else {
            None
        },
        None => None,
    }
}

fn aimed(state: &EngineState, intent: &KeyIntent) -> (target: Option<(usize, bool)>)
    requires
        state.well_formed(),
    ensures
        target == aimed_cell(*state, *intent),
        target matches Some((cell, _)) ==> cell < state.candidates@.len(),
{
    match intent {
        KeyIntent::CommitHighlightedCandidate => match state.selection.selected_index() {
            Some(index) => Some((index, false)),
            None => None,
        },
        KeyIntent::CommitAlternateScript => match state.selection.selected_index() {
            Some(index) => Some((index, true)),
            None => None,
        },
        KeyIntent::SelectCandidateSlot { slot, flip } => match state.selection.candidate_index_for_key_slot(*slot) {
            Some(index) => Some((index, *flip)),
            None => None,
        },
        _ => None,
    }
}

/// The trailing space after a commit, and the swap armed on it: emitted
/// only when the key put text in the document, the auto-space policy
/// allows it here, and that text takes a space.
pub fn append_auto_space(committed: bool, policy_allows: bool, takes_space: bool, emits: &mut Vec<Emit>) -> (armed: bool)
    ensures
        armed == (committed && policy_allows && takes_space),
        armed ==> (final(emits)@.len() == old(emits)@.len() + 1 && final(emits)@.take(old(emits)@.len() as int) == old(emits)@
            && (final(emits)@.last() matches Emit::Commit(space) && space@ == seq![' '])),
        !armed ==> final(emits)@ == old(emits)@,
{
    if !committed || !policy_allows || !takes_space {
        return false;
    }
    let ghost before = emits@;
    emits.push(Emit::Commit(crate::text::char_to_string(' ')));
    assert(emits@.take(before.len() as int) =~= before);
    true
}

/// The auto-space swap for attaching punctuation written right after an
/// auto space: tried (by calling `swap`, which deletes the space and writes
/// the punctuation and the space after it) only when the swap is armed,
/// the text attaches and auto space is on. Answers whether the swap was
/// made; the caller then re-arms it for the next key.
pub fn swap_auto_space(
    armed_swap: bool,
    attaching_punctuation: bool,
    auto_space_enabled: bool,
    swap: impl FnOnce() -> bool,
) -> (swapped: bool)
    requires
        armed_swap && attaching_punctuation && auto_space_enabled ==> swap.requires(()),
    ensures
        !(armed_swap && attaching_punctuation && auto_space_enabled) ==> !swapped,
        armed_swap && attaching_punctuation && auto_space_enabled ==> swap.ensures((), swapped),
{
    if !armed_swap || !attaching_punctuation || !auto_space_enabled {
        return false;
    }
    swap()
}

/// What a pass-through key's text became.
#[derive(Clone, Debug, PartialEq, Eq)]
pub enum PassThroughWrite {
    /// The auto-space swap wrote it in front of the space.
    Swapped,
    /// Punctuation this input method writes itself: the client cannot map
    /// a key it types.
    Punctuation(String),
    /// The client types it (or the key types nothing).
    Client,
}

/// A pass-through key: one that types nothing goes to the client; else a
/// swap that happened wrote it; else the punctuation this input method
/// writes for it (`punctuation`, the policy's answer); else the client
/// types it.
pub fn pass_through_write(types_text: bool, swapped: bool, punctuation: Option<String>) -> (write:
    PassThroughWrite)
    ensures
        !types_text ==> write == PassThroughWrite::Client,
        types_text && swapped ==> write == PassThroughWrite::Swapped,
        types_text && !swapped ==> write == match punctuation {
            Some(text) => PassThroughWrite::Punctuation(text),
            None => PassThroughWrite::Client,
        },
{
    if !types_text {
        return PassThroughWrite::Client;
    }
    if swapped {
        return PassThroughWrite::Swapped;
    }
    match punctuation {
        Some(text) => PassThroughWrite::Punctuation(text),
        None => PassThroughWrite::Client,
    }
}

/// What the composing work reported for one key.
#[derive(Clone, Debug, PartialEq, Eq)]
pub struct KeyOutcome {
    /// The work's signals, in order (preedit, commits, deletions).
    pub emits: Vec<Emit>,
    /// What the work did to the list: the refetch after the composition
    /// changed, or the result of a candidate commit.
    pub list: ListUpdate,
    /// For a pass-through key: what its text became
    /// ([`pass_through_write`]); `Client` for every other intent.
    pub pass_through: PassThroughWrite,
    /// The work left a trailing auto space the next key may swap.
    pub arm_swap: bool,
}

/// Whether the key was consumed: a commit-then-pass-through never is, a
/// pass-through only when this input method wrote its text (the swap or
/// its own punctuation), every other intent always (a slot chord aimed at
/// an empty slot included).
pub open spec fn key_handled(intent: KeyIntent, write: PassThroughWrite) -> bool {
    match intent {
        KeyIntent::CommitThenPassThrough => false,
        KeyIntent::PassThrough => !(write is Client),
        _ => true,
    }
}

/// Whether the intent ends the composition, and with it the list.
pub open spec fn clears_list(intent: KeyIntent) -> bool {
    intent is Commit || intent is Cancel || intent is CommitThenInsert
        || intent is CommitThenPassThrough
}

/// Whether the intent's work refetches (or, for a candidate commit,
/// replaces) the list.
pub open spec fn updates_list(intent: KeyIntent) -> bool {
    intent is Input || intent is TelexKey || intent is DeleteBackward
        || intent is CommitHighlightedCandidate || intent is CommitAlternateScript
        || intent is SelectCandidateSlot
}

/// The candidate cells after a list update.
pub open spec fn cells_after(cells: Seq<CandidateCell>, update: ListUpdate) -> Seq<CandidateCell> {
    match update {
        ListUpdate::Keep => cells,
        ListUpdate::Clear => Seq::empty(),
        ListUpdate::Replace(new_cells) => new_cells@,
    }
}

/// Whether the key's composing work runs: every intent but a navigation
/// (which only moves the highlight) and a candidate commit aimed at no
/// cell (consumed all the same, with nothing done).
pub open spec fn does_work(state: EngineState, intent: KeyIntent) -> bool {
    match intent {
        KeyIntent::Navigate(_) => false,
        KeyIntent::CommitHighlightedCandidate | KeyIntent::CommitAlternateScript
        | KeyIntent::SelectCandidateSlot { .. } => candidate_target_of(state, intent) is Some,
        _ => true,
    }
}

/// Whether the intent's work can leave a trailing auto space for the next
/// key to swap: the auto space after an explicit or a candidate commit,
/// the one a commit-then-insert leaves, and a pass-through key's swap.
/// Typing, deleting, cancelling, a commit-then-pass-through, navigating
/// and moving the caret never arm it.
pub open spec fn may_arm(intent: KeyIntent) -> bool {
    intent is Commit || intent is CommitThenInsert || intent is PassThrough
        || intent is CommitHighlightedCandidate || intent is CommitAlternateScript
        || intent is SelectCandidateSlot
}

/// Whether the key leaves a new list, highlighted on its first cell (or
/// none at all).
pub open spec fn resets_list(state: EngineState, intent: KeyIntent, list: ListUpdate) -> bool {
    clears_list(intent) || (updates_list(intent) && does_work(state, intent) && !(list is Keep))
}

/// The work's signals, when the work runs.
pub open spec fn work_emits(state: EngineState, intent: KeyIntent, emits: Seq<Emit>) -> Seq<Emit> {
    if does_work(state, intent) {
        emits
    } else {
        Seq::empty()
    }
}

/// The composing engine's call a key's work is.
#[derive(Clone, Debug, PartialEq, Eq)]
pub enum ComposingCall {
    Append(String),
    TelexKey(String),
    DeleteBackward,
    CommitComposition,
    CancelComposition,
    CommitThenInsert(String),
    /// The commit that finishes a composition before the key goes on.
    CommitThenPassThrough,
    /// The key's text typed outside a composition: the swap, punctuation
    /// this input method writes, or nothing (the client types it).
    PassThrough,
    /// The candidate behind cell `cell`, in its own script or the other.
    CommitCandidate { cell: usize, flip: bool },
    MoveCaret(CaretDirection),
}

/// The call for `intent`, `None` when no work runs (a navigation, a
/// candidate commit aimed at no cell).
pub open spec fn composing_call_of(state: EngineState, intent: KeyIntent) -> Option<ComposingCall> {
    match intent {
        KeyIntent::Input(text) => Some(ComposingCall::Append(text)),
        KeyIntent::TelexKey(key) => Some(ComposingCall::TelexKey(key)),
        KeyIntent::DeleteBackward => Some(ComposingCall::DeleteBackward),
        KeyIntent::Commit => Some(ComposingCall::CommitComposition),
        KeyIntent::Cancel => Some(ComposingCall::CancelComposition),
        KeyIntent::CommitThenInsert(text) => Some(ComposingCall::CommitThenInsert(text)),
        KeyIntent::CommitThenPassThrough => Some(ComposingCall::CommitThenPassThrough),
        KeyIntent::PassThrough => Some(ComposingCall::PassThrough),
        KeyIntent::Navigate(_) => None,
        KeyIntent::MoveCaret(direction) => Some(ComposingCall::MoveCaret(direction)),
        _ => match candidate_target_of(state, intent) {
            Some((cell, flip)) => Some(ComposingCall::CommitCandidate { cell, flip }),
            None => None,
        },
    }
}

/// Which composing call a key runs, before [`run_key`] takes its result:
/// the text to append or insert, the commit, the candidate cell to commit
/// (the highlight, or the slot key's cell on the current page), or none.
pub fn composing_call(state: &EngineState, intent: &KeyIntent) -> (call: Option<ComposingCall>)
    requires
        state.well_formed(),
    ensures
        call == composing_call_of(*state, *intent),
        call is Some <==> does_work(*state, *intent),
        call matches Some(ComposingCall::CommitCandidate { cell, .. }) ==> cell
            < state.candidates@.len(),
{
    match intent {
        KeyIntent::Input(text) => Some(ComposingCall::Append(text.clone())),
        KeyIntent::TelexKey(key) => Some(ComposingCall::TelexKey(key.clone())),
        KeyIntent::DeleteBackward => Some(ComposingCall::DeleteBackward),
        KeyIntent::Commit => Some(ComposingCall::CommitComposition),
        KeyIntent::Cancel => Some(ComposingCall::CancelComposition),
        KeyIntent::CommitThenInsert(text) => Some(ComposingCall::CommitThenInsert(text.clone())),
        KeyIntent::CommitThenPassThrough => Some(ComposingCall::CommitThenPassThrough),
        KeyIntent::PassThrough => Some(ComposingCall::PassThrough),
        KeyIntent::Navigate(_) => None,
        KeyIntent::MoveCaret(direction) => Some(ComposingCall::MoveCaret(*direction)),
        _ => match candidate_target(state, intent) {
            Some((cell, flip)) => Some(ComposingCall::CommitCandidate { cell, flip }),
            None => None,
        },
    }
}

/// The rest of a key once its composing work ran (`outcome`, which a
/// navigation and a candidate commit aimed at no cell never use): the list
/// follows the intent (ended compositions drop it, composition changes
/// take the refetch with the highlight on its first cell, navigation moves
/// the highlight, every other key leaves both alone), the swap promised to
/// the next key is only one this key's work armed — every key gets one
/// chance at it — and the table is presented after the work's signals, or
/// taken down when the list is gone and ours was shown.
pub fn run_key(
    state: &mut EngineState,
    intent: &KeyIntent,
    leading: Vec<Emit>,
    outcome: KeyOutcome,
    style: &PanelStyle,
) -> (reply: KeyReply)
    requires
        old(state).well_formed(),
    ensures
        final(state).well_formed(),
        final(state).shows_table_while_listed(),
        reply.handled == key_handled(*intent, outcome.pass_through),
        (*intent is Commit || *intent is Cancel || *intent is CommitThenInsert
            || *intent is CommitThenPassThrough) ==> {
            &&& final(state).candidates@.len() == 0
            &&& final(state).selection.spec_selected() == 0
            &&& !final(state).is_table_shown
            &&& reply.emits@ == leading@ + outcome.emits@ + if old(state).is_table_shown {
                seq![Emit::HideLookupTable]
            } else {
                Seq::<Emit>::empty()
            }
        },
        final(state).armed_auto_space == (does_work(*old(state), *intent) && may_arm(*intent)
            && outcome.arm_swap),
        final(state).capabilities == old(state).capabilities,
        final(state).is_table_shown == (final(state).candidates@.len() > 0),
        final(state).candidates@ == if clears_list(*intent) {
            Seq::<CandidateCell>::empty()
        } else if updates_list(*intent) && does_work(*old(state), *intent) {
            cells_after(old(state).candidates@, outcome.list)
        } else {
            old(state).candidates@
        },
        resets_list(*old(state), *intent, outcome.list) ==> final(state).selection.spec_selected()
            == 0,
        !resets_list(*old(state), *intent, outcome.list) && !(*intent is Navigate)
            ==> final(state).selection == old(state).selection,
        *intent matches KeyIntent::Navigate(direction) ==> match target_of(
            old(state).selection.spec_count(),
            old(state).selection.spec_page_size(),
            old(state).selection.spec_selected(),
            effective_direction(direction, style.vertical),
        ) {
            Some(t) => final(state).selection.spec_selected() == t,
            None => final(state).selection.spec_selected() == old(state).selection.spec_selected(),
        },
        ({
            let before = leading@ + work_emits(*old(state), *intent, outcome.emits@);
            let tail = if old(state).is_table_shown {
                seq![Emit::HideLookupTable]
            } else {
                Seq::<Emit>::empty()
            };
            &&& final(state).candidates@.len() == 0 ==> reply.emits@ == before + tail
            &&& final(state).candidates@.len() > 0 ==> {
                &&& reply.emits@.len() == before.len() + 1
                &&& reply.emits@.take(before.len() as int) == before
                &&& reply.emits@.last() matches Emit::LookupTable(content) && is_table_of(
                    content,
                    *final(state),
                    *style,
                )
            }
        }),
{
    let works = match intent {
        KeyIntent::Navigate(_) => false,
        KeyIntent::CommitHighlightedCandidate | KeyIntent::CommitAlternateScript
        | KeyIntent::SelectCandidateSlot { .. } => candidate_target(state, intent).is_some(),
        _ => true,
    };
    let arms = match intent {
        KeyIntent::Commit | KeyIntent::CommitThenInsert(_) | KeyIntent::PassThrough
        | KeyIntent::CommitHighlightedCandidate | KeyIntent::CommitAlternateScript
        | KeyIntent::SelectCandidateSlot { .. } => true,
        _ => false,
    };
    let ghost old_state = *state;
    let mut emits = leading;
    let ghost lead = emits@;
    let KeyOutcome { emits: work, list, pass_through, arm_swap } = outcome;
    if works {
        let mut work = work;
        emits.append(&mut work);
    }
    let ghost before_present = emits@;
    assert(before_present =~= lead + work_emits(old_state, *intent, outcome.emits@));
    match intent {
        KeyIntent::Commit | KeyIntent::Cancel | KeyIntent::CommitThenInsert(_)
        | KeyIntent::CommitThenPassThrough => {
            state.clear_list();
        },
        KeyIntent::Input(_) | KeyIntent::TelexKey(_) | KeyIntent::DeleteBackward
        | KeyIntent::CommitHighlightedCandidate | KeyIntent::CommitAlternateScript
        | KeyIntent::SelectCandidateSlot { .. } => {
            if works {
                match list {
                    ListUpdate::Keep => {},
                    ListUpdate::Clear => state.clear_list(),
                    ListUpdate::Replace(cells) => state.set_list(cells),
                }
            }
        },
        KeyIntent::Navigate(direction) => {
            state.selection.navigate(*direction, style.vertical);
        },
        KeyIntent::PassThrough | KeyIntent::MoveCaret(_) => {},
    }
    let handled = match intent {
        KeyIntent::CommitThenPassThrough => false,
        KeyIntent::PassThrough => match pass_through {
            PassThroughWrite::Client => false,
            _ => true,
        },
        _ => true,
    };
    state.armed_auto_space = works && arms && arm_swap;
    present_list(state, style, &mut emits);
    KeyReply { handled, emits }
}

/// The lifecycle end of a composition: the daemon has just committed (or
/// dropped) the preedit itself, so the list comes down — the table is
/// hidden when ours is shown — and the swap is disarmed.
pub fn end_session(state: &mut EngineState) -> (emits: Vec<Emit>)
    requires
        old(state).well_formed(),
    ensures
        final(state).well_formed(),
        final(state).shows_table_while_listed(),
        final(state).candidates@.len() == 0,
        final(state).selection.spec_selected() == 0,
        !final(state).is_table_shown,
        !final(state).armed_auto_space,
        final(state).capabilities == old(state).capabilities,
        emits@ == if old(state).is_table_shown {
            seq![Emit::HideLookupTable]
        } else {
            Seq::<Emit>::empty()
        },
{
    let mut emits: Vec<Emit> = Vec::new();
    if state.is_table_shown {
        emits.push(Emit::HideLookupTable);
        state.is_table_shown = false;
    }
    state.clear_list();
    state.armed_auto_space = false;
    proof {
        if old(state).is_table_shown {
            assert(emits@ =~= seq![Emit::HideLookupTable]);
        } else {
            assert(emits@ =~= Seq::<Emit>::empty());
        }
    }
    emits
}

/// A panel navigation (page and cell buttons): the same move the keys
/// make, run without a key — so it, too, spends the armed swap. Nothing
/// happens without a list.
pub fn navigate_from_panel(
    state: &mut EngineState,
    direction: CandidateNavigation,
    style: &PanelStyle,
) -> (emits: Vec<Emit>)
    requires
        old(state).well_formed(),
    ensures
        final(state).well_formed(),
        old(state).shows_table_while_listed() ==> final(state).shows_table_while_listed(),
        final(state).candidates@ == old(state).candidates@,
        final(state).capabilities == old(state).capabilities,
        old(state).candidates@.len() == 0 ==> emits@.len() == 0 && *final(state) == *old(state),
        old(state).candidates@.len() > 0 ==> {
            &&& !final(state).armed_auto_space
            &&& final(state).is_table_shown
            &&& final(state).selection.spec_selected() == match target_of(
                old(state).selection.spec_count(),
                old(state).selection.spec_page_size(),
                old(state).selection.spec_selected(),
                effective_direction(direction, style.vertical),
            ) {
                Some(t) => t,
                None => old(state).selection.spec_selected(),
            }
            &&& emits@.len() == 1
            &&& emits@[0] matches Emit::LookupTable(content) && is_table_of(content, *final(state), *style)
        },
{
    if state.candidates.len() == 0 {
        return Vec::new();
    }
    let reply = run_key(
        state,
        &KeyIntent::Navigate(direction),
        Vec::new(),
        KeyOutcome {
            emits: Vec::new(),
            list: ListUpdate::Keep,
            pass_through: PassThroughWrite::Client,
            arm_swap: false,
        },
        style,
    );
    reply.emits
}

/// A click on the `position`-th cell of the current page: selects, never
/// commits. A click on no cell does nothing.
pub fn click_from_panel(state: &mut EngineState, position: usize, style: &PanelStyle) -> (emits: Vec<Emit>)
    requires
        old(state).well_formed(),
    ensures
        final(state).well_formed(),
        final(state).candidates == old(state).candidates,
        final(state).armed_auto_space == old(state).armed_auto_space,
        final(state).capabilities == old(state).capabilities,
        final(state).is_table_shown == old(state).is_table_shown,
        old(state).shows_table_while_listed() ==> final(state).shows_table_while_listed(),
        match crate::selection::slot_index_of(
            old(state).selection.spec_count(),
            old(state).selection.spec_page_size(),
            old(state).selection.spec_selected(),
            position as nat,
        ) {
            None => emits@.len() == 0 && final(state).selection == old(state).selection,
            Some(index) => {
                &&& final(state).selection.spec_selected() == index
                &&& emits@.len() == 1
                &&& emits@[0] matches Emit::LookupTable(content) && is_table_of(content, *final(state), *style)
            },
        },
{
    proof {
        crate::selection::lemma_sizes(state.selection);
    }
    let index = match state.selection.candidate_index_on_page(position) {
        Some(index) => index,
        None => return Vec::new(),
    };
    state.selection.select(index);
    let content = table_content(state, style);
    let mut emits: Vec<Emit> = Vec::new();
    emits.push(Emit::LookupTable(content));
    assert(emits@[0] == Emit::LookupTable(content));
    emits
}

/// A key that ends the composition (a commit, a cancel, a
/// commit-then-insert, a commit-then-pass-through) ends the list with it,
/// whatever the work reported of the list; a navigation and a caret move
/// keep it.
pub proof fn lemma_ended_compositions_drop_the_list(
    state: EngineState,
    intent: KeyIntent,
    list: ListUpdate,
)
    ensures
        (intent is Commit || intent is Cancel || intent is CommitThenInsert
            || intent is CommitThenPassThrough) ==> clears_list(intent) && resets_list(
            state,
            intent,
            list,
        ) && !updates_list(intent),
        (intent is Navigate || intent is MoveCaret || intent is PassThrough) ==> !clears_list(
            intent,
        ) && !updates_list(intent),
{
}

/// A key the classifier passes through without a composition to finish
/// is consumed only when this input method writes its text; a
/// commit-then-pass-through always runs (it finishes the composition) yet
/// is never consumed, so the client still gets the key.
pub proof fn lemma_keys_the_client_still_gets(
    intent: KeyIntent,
    is_composing: bool,
    consumes_pass_through: bool,
    write: PassThroughWrite,
)
    ensures
        intent is CommitThenPassThrough ==> runs_key(intent, is_composing, consumes_pass_through)
            && !key_handled(intent, write),
        !(intent is PassThrough) && !(intent is CommitThenPassThrough) ==> runs_key(
            intent,
            is_composing,
            consumes_pass_through,
        ) && key_handled(intent, write),
        intent is PassThrough ==> (runs_key(intent, is_composing, consumes_pass_through)
            <==> consumes_pass_through),
{
}

/// A key that types nothing is never a pass-through of ours, whatever the
/// swap state; with the swap disarmed only punctuation this input method
/// writes itself is.
pub proof fn lemma_pass_through_needs_text(
    writes_punctuation: bool,
    attaching_punctuation: bool,
    auto_space_enabled: bool,
    armed: bool,
    can_delete: bool,
)
    ensures
        !pass_through_consumes(
            false,
            writes_punctuation,
            attaching_punctuation,
            auto_space_enabled,
            armed,
            can_delete,
        ),
        pass_through_consumes(
            true,
            writes_punctuation,
            attaching_punctuation,
            auto_space_enabled,
            false,
            can_delete,
        ) == writes_punctuation,
{
}

} // verus!
