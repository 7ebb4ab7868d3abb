use taigikeyboard::selection::CandidateNavigation;
use taigikeyboard::session::{
    append_auto_space, candidate_target, click_from_panel, committed_candidate_list, end_session,
    navigate_from_panel, pass_through_may_consume, present_list, process_key, refreshed_list,
    run_key, swap_auto_space, table_content, composing_call, CandidateCell,
    CandidateCommitOutcome, CaretDirection, ComposingCall, Emit, EngineState, KeyIntent,
    KeyOutcome, KeyStart, ListUpdate, PanelStyle, PassThroughWrite, CAP_SURROUNDING_TEXT,
    PAGE_SIZE, pass_through_write,
};

fn cells(count: usize) -> Vec<CandidateCell> {
    (0..count)
        .map(|i| CandidateCell {
            text: format!("c{i}"),
            annotation: None,
            has_other_script: true,
        })
        .collect()
}

fn style() -> PanelStyle {
    PanelStyle {
        vertical: false,
        labels: (1..=9).map(|i| i.to_string()).collect(),
    }
}

fn state_with(count: usize) -> EngineState {
    let mut state = EngineState::new();
    state.set_list(cells(count));
    state
}

fn outcome(emits: Vec<Emit>, list: ListUpdate) -> KeyOutcome {
    KeyOutcome {
        emits,
        list,
        pass_through: PassThroughWrite::Client,
        arm_swap: false,
    }
}

#[test]
fn the_table_shows_both_scripts_and_the_highlight() {
    let mut state = EngineState::new();
    state.set_list(vec![
        CandidateCell {
            text: "台".to_owned(),
            annotation: Some("tâi".to_owned()),
            has_other_script: true,
        },
        CandidateCell {
            text: "臺".to_owned(),
            annotation: None,
            has_other_script: true,
        },
    ]);
    let content = table_content(&state, &style());
    assert_eq!(content.candidates, vec!["台 tâi", "臺"]);
    assert_eq!(content.cursor, 0);
    assert!(content.cursor_visible);
    assert_eq!(content.page_size, PAGE_SIZE as u32);
    assert_eq!(content.labels.len(), 9);
    assert!(!content.vertical);
}

#[test]
fn a_list_switched_off_comes_down_before_the_key_is_read() {
    let mut state = state_with(3);
    state.is_table_shown = true;
    let start = process_key(&mut state, &KeyIntent::CommitHighlightedCandidate, true, false, false);
    assert_eq!(start, KeyStart::Run(vec![Emit::HideLookupTable]));
    assert!(state.candidates.is_empty());
    assert!(!state.is_table_shown);
}

#[test]
fn a_pass_through_that_is_not_ours_goes_to_the_client() {
    let mut state = EngineState::new();
    match process_key(&mut state, &KeyIntent::PassThrough, false, false, true) {
        KeyStart::Unhandled(reply) => {
            assert!(!reply.handled);
            assert!(reply.emits.is_empty());
        }
        KeyStart::Run(_) => panic!("a pass-through nobody writes is not run"),
    }
    assert_eq!(
        process_key(&mut state, &KeyIntent::CommitThenPassThrough, false, false, true),
        KeyStart::Run(vec![])
    );
}

#[test]
fn typing_replaces_the_list_and_presents_it_after_the_preedit() {
    let mut state = EngineState::new();
    let preedit = Emit::Preedit {
        text: "tai".to_owned(),
        cursor: 3,
    };
    let reply = run_key(
        &mut state,
        &KeyIntent::Input("i".to_owned()),
        vec![],
        outcome(vec![preedit.clone()], ListUpdate::Replace(cells(12))),
        &style(),
    );
    assert!(reply.handled);
    assert_eq!(reply.emits.len(), 2);
    assert_eq!(reply.emits[0], preedit);
    assert!(matches!(&reply.emits[1], Emit::LookupTable(content) if content.candidates.len() == 12));
    assert!(state.is_table_shown);
    assert_eq!(state.candidates.len(), 12);
}

#[test]
fn a_commit_drops_the_list_and_hides_the_table() {
    let mut state = state_with(4);
    state.is_table_shown = true;
    let reply = run_key(
        &mut state,
        &KeyIntent::Commit,
        vec![],
        outcome(vec![Emit::Commit("台".to_owned())], ListUpdate::Keep),
        &style(),
    );
    assert!(reply.handled);
    assert_eq!(
        reply.emits,
        vec![Emit::Commit("台".to_owned()), Emit::HideLookupTable]
    );
    assert!(state.candidates.is_empty());
    assert!(!state.is_table_shown);
}

#[test]
fn navigation_moves_the_highlight_and_redraws() {
    let mut state = state_with(20);
    let reply = run_key(
        &mut state,
        &KeyIntent::Navigate(CandidateNavigation::PageDown),
        vec![],
        outcome(vec![], ListUpdate::Keep),
        &style(),
    );
    assert!(reply.handled);
    assert_eq!(state.selection.selected_index(), Some(9));
    assert!(matches!(&reply.emits[0], Emit::LookupTable(content) if content.cursor == 9));
}

#[test]
fn the_swap_promised_is_the_one_this_key_armed() {
    let mut state = state_with(0);
    state.armed_auto_space = true;
    let reply = run_key(
        &mut state,
        &KeyIntent::PassThrough,
        vec![],
        KeyOutcome {
            emits: vec![],
            list: ListUpdate::Keep,
            pass_through: PassThroughWrite::Swapped,
            arm_swap: false,
        },
        &style(),
    );
    assert!(reply.handled);
    assert!(!state.armed_auto_space);
    let reply = run_key(
        &mut state,
        &KeyIntent::Commit,
        vec![],
        KeyOutcome {
            emits: vec![Emit::Commit("台".to_owned()), Emit::Commit(" ".to_owned())],
            list: ListUpdate::Keep,
            pass_through: PassThroughWrite::Client,
            arm_swap: true,
        },
        &style(),
    );
    assert!(reply.handled);
    assert!(state.armed_auto_space);
}

#[test]
fn keys_that_never_arm_the_swap_leave_it_off() {
    for intent in [
        KeyIntent::Input("a".to_owned()),
        KeyIntent::Cancel,
        KeyIntent::CommitThenPassThrough,
        KeyIntent::MoveCaret(CaretDirection::Forward),
        KeyIntent::Navigate(CandidateNavigation::Right),
    ] {
        let mut state = state_with(2);
        state.armed_auto_space = true;
        run_key(
            &mut state,
            &intent,
            vec![],
            KeyOutcome {
                emits: vec![],
                list: ListUpdate::Keep,
                pass_through: PassThroughWrite::Client,
                arm_swap: true,
            },
            &style(),
        );
        assert!(!state.armed_auto_space, "{intent:?}");
    }
}

#[test]
fn a_navigation_sends_one_table_and_takes_nothing_from_the_work() {
    let mut state = state_with(3);
    let reply = run_key(
        &mut state,
        &KeyIntent::Navigate(CandidateNavigation::NextCandidate),
        vec![],
        outcome(vec![Emit::Commit("x".to_owned())], ListUpdate::Clear),
        &style(),
    );
    assert_eq!(reply.emits.len(), 1);
    assert!(matches!(&reply.emits[0], Emit::LookupTable(content) if content.cursor == 1));
    assert_eq!(state.candidates.len(), 3);
}

#[test]
fn a_slot_key_aimed_at_no_cell_changes_nothing_and_commits_nothing() {
    let mut state = state_with(2);
    state.is_table_shown = true;
    let intent = KeyIntent::SelectCandidateSlot { slot: 5, flip: false };
    assert_eq!(composing_call(&state, &intent), None);
    let reply = run_key(
        &mut state,
        &intent,
        vec![],
        outcome(vec![Emit::Commit("x".to_owned())], ListUpdate::Clear),
        &style(),
    );
    assert!(reply.handled);
    assert_eq!(state.candidates.len(), 2);
    assert_eq!(state.selection.selected_index(), Some(0));
    assert_eq!(reply.emits.len(), 1);
    assert!(matches!(&reply.emits[0], Emit::LookupTable(_)));
}

#[test]
fn a_refetch_puts_the_highlight_on_the_first_cell() {
    let mut state = state_with(5);
    state.selection.select(3);
    run_key(
        &mut state,
        &KeyIntent::DeleteBackward,
        vec![],
        outcome(vec![], ListUpdate::Replace(cells(4))),
        &style(),
    );
    assert_eq!(state.selection.selected_index(), Some(0));
    assert_eq!(state.candidates.len(), 4);
}

#[test]
fn each_intent_names_its_composing_call() {
    let mut state = state_with(12);
    state.selection.select(10);
    assert_eq!(
        composing_call(&state, &KeyIntent::Input("a".to_owned())),
        Some(ComposingCall::Append("a".to_owned()))
    );
    assert_eq!(
        composing_call(&state, &KeyIntent::CommitAlternateScript),
        Some(ComposingCall::CommitCandidate { cell: 10, flip: true })
    );
    assert_eq!(
        composing_call(&state, &KeyIntent::SelectCandidateSlot { slot: 1, flip: false }),
        Some(ComposingCall::CommitCandidate { cell: 10, flip: false })
    );
    assert_eq!(
        composing_call(&state, &KeyIntent::Navigate(CandidateNavigation::Up)),
        None
    );
    assert_eq!(
        composing_call(&state, &KeyIntent::Commit),
        Some(ComposingCall::CommitComposition)
    );
}

#[test]
fn the_session_end_hides_the_table_and_disarms_the_swap() {
    let mut state = state_with(5);
    state.is_table_shown = true;
    state.armed_auto_space = true;
    assert_eq!(end_session(&mut state), vec![Emit::HideLookupTable]);
    assert!(state.candidates.is_empty());
    assert!(!state.armed_auto_space);
    assert_eq!(end_session(&mut state), vec![]);
}

#[test]
fn a_panel_button_moves_like_the_key_and_spends_the_swap() {
    let mut empty = EngineState::new();
    empty.armed_auto_space = true;
    assert!(navigate_from_panel(&mut empty, CandidateNavigation::NextCandidate, &style()).is_empty());
    assert!(empty.armed_auto_space);

    let mut state = state_with(3);
    state.armed_auto_space = true;
    let emits = navigate_from_panel(&mut state, CandidateNavigation::NextCandidate, &style());
    assert_eq!(emits.len(), 1);
    assert_eq!(state.selection.selected_index(), Some(1));
    assert!(!state.armed_auto_space);
    assert!(state.is_table_shown);
}

#[test]
fn a_click_selects_on_the_current_page_and_a_click_past_the_end_does_nothing() {
    let mut state = state_with(12);
    state.selection.select(10);
    let emits = click_from_panel(&mut state, 1, &style());
    assert_eq!(state.selection.selected_index(), Some(10));
    assert!(matches!(&emits[0], Emit::LookupTable(content) if content.cursor == 10));
    let nothing = click_from_panel(&mut state, 5, &style());
    assert!(nothing.is_empty());
    assert_eq!(state.selection.selected_index(), Some(10));
}

#[test]
fn the_committing_intents_aim_at_the_highlight_or_the_slot() {
    let mut state = state_with(12);
    state.selection.select(3);
    assert_eq!(
        candidate_target(&state, &KeyIntent::CommitHighlightedCandidate),
        Some((3, false))
    );
    assert_eq!(
        candidate_target(&state, &KeyIntent::CommitAlternateScript),
        Some((3, true))
    );
    assert_eq!(
        candidate_target(&state, &KeyIntent::SelectCandidateSlot { slot: 4, flip: true }),
        Some((4, true))
    );
    state.selection.select(10);
    assert_eq!(
        candidate_target(&state, &KeyIntent::SelectCandidateSlot { slot: 3, flip: false }),
        None
    );
    assert_eq!(candidate_target(&state, &KeyIntent::Commit), None);
    assert_eq!(
        candidate_target(&EngineState::new(), &KeyIntent::CommitHighlightedCandidate),
        None
    );
}

#[test]
fn the_auto_space_is_written_only_when_all_three_hold() {
    let mut emits = vec![Emit::Commit("台".to_owned())];
    assert!(!append_auto_space(true, false, true, &mut emits));
    assert_eq!(emits.len(), 1);
    assert!(append_auto_space(true, true, true, &mut emits));
    assert_eq!(emits[1], Emit::Commit(" ".to_owned()));
}

#[test]
fn the_swap_is_tried_only_when_armed_attaching_and_enabled() {
    assert!(!swap_auto_space(false, true, true, || panic!("not tried")));
    assert!(!swap_auto_space(true, false, true, || panic!("not tried")));
    assert!(swap_auto_space(true, true, true, || true));
    assert!(!swap_auto_space(true, true, true, || false));
}

#[test]
fn a_pass_through_is_ours_when_we_write_its_text() {
    let mut state = EngineState::new();
    assert!(!pass_through_may_consume(&state, false, true, true, true));
    assert!(pass_through_may_consume(&state, true, true, false, false));
    state.armed_auto_space = true;
    assert!(!pass_through_may_consume(&state, true, false, true, true));
    state.capabilities = CAP_SURROUNDING_TEXT;
    assert!(pass_through_may_consume(&state, true, false, true, true));
    assert!(!pass_through_may_consume(&state, true, false, true, false));
}

#[test]
fn a_switched_off_window_fetches_nothing_and_a_finished_commit_drops_the_list() {
    assert_eq!(
        refreshed_list(false, || panic!("nothing is fetched")),
        ListUpdate::Clear
    );
    assert_eq!(refreshed_list(true, || None), ListUpdate::Clear);
    assert_eq!(
        refreshed_list(true, || Some(cells(2))),
        ListUpdate::Replace(cells(2))
    );
    assert_eq!(
        committed_candidate_list(CandidateCommitOutcome::Finalized, ListUpdate::Replace(cells(1))),
        ListUpdate::Clear
    );
    assert_eq!(
        committed_candidate_list(CandidateCommitOutcome::Nailed, ListUpdate::Replace(cells(1))),
        ListUpdate::Replace(cells(1))
    );
}

#[test]
fn presenting_no_list_hides_only_a_shown_table() {
    let mut state = EngineState::new();
    let mut emits = vec![];
    present_list(&mut state, &style(), &mut emits);
    assert!(emits.is_empty());
    state.is_table_shown = true;
    present_list(&mut state, &style(), &mut emits);
    assert_eq!(emits, vec![Emit::HideLookupTable]);
    assert!(!state.is_table_shown);
}

#[test]
fn a_fresh_engine_object_has_no_list_and_no_capability() {
    let state = EngineState::default();
    assert!(state.candidates.is_empty());
    assert_eq!(state.selection.selected_index(), None);
    assert!(!state.armed_auto_space);
    assert!(!state.can_delete_surrounding());
    assert!(!state.is_table_shown);
}

#[test]
fn a_flip_on_a_cell_with_no_other_script_does_nothing() {
    let mut state = EngineState::new();
    state.set_list(vec![CandidateCell {
        text: "，".to_owned(),
        annotation: None,
        has_other_script: false,
    }]);
    state.is_table_shown = true;
    state.armed_auto_space = true;
    assert_eq!(composing_call(&state, &KeyIntent::CommitAlternateScript), None);
    assert_eq!(
        composing_call(&state, &KeyIntent::CommitHighlightedCandidate),
        Some(ComposingCall::CommitCandidate { cell: 0, flip: false })
    );
    let reply = run_key(
        &mut state,
        &KeyIntent::CommitAlternateScript,
        vec![],
        KeyOutcome {
            emits: vec![Emit::Commit("x".to_owned())],
            list: ListUpdate::Clear,
            pass_through: PassThroughWrite::Client,
            arm_swap: true,
        },
        &style(),
    );
    assert!(reply.handled);
    assert_eq!(state.candidates.len(), 1);
    assert_eq!(reply.emits.len(), 1);
    assert!(matches!(&reply.emits[0], Emit::LookupTable(_)));
}

#[test]
fn a_pass_through_is_handled_when_the_swap_or_our_punctuation_wrote_it() {
    assert_eq!(pass_through_write(false, true, Some("。".to_owned())), PassThroughWrite::Client);
    assert_eq!(pass_through_write(true, true, Some("。".to_owned())), PassThroughWrite::Swapped);
    assert_eq!(
        pass_through_write(true, false, Some("。".to_owned())),
        PassThroughWrite::Punctuation("。".to_owned())
    );
    assert_eq!(pass_through_write(true, false, None), PassThroughWrite::Client);
    let mut state = EngineState::new();
    let reply = run_key(
        &mut state,
        &KeyIntent::PassThrough,
        vec![],
        KeyOutcome {
            emits: vec![],
            list: ListUpdate::Keep,
            pass_through: pass_through_write(true, false, None),
            arm_swap: false,
        },
        &style(),
    );
    assert!(!reply.handled);
}
