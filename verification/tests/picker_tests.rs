//! Scenarios for the quick-focus picker: mnemonic assignment, the modal
//! event loop, and unconditional teardown.

use quickfocus::alphabet::{mnemonic_at, ALPHABET_SIZE};
use quickfocus::keys::{resolve_key, KeyResolution};
use quickfocus::picker::{
    plan_mnemonics, run_pick, PickerEvent, PickerOutcome, PickerSession, PickerStep,
    UnavailableReason,
};
use quickfocus::render::label_geometry;

const ESCAPE: u8 = 9;
const KEY_A: u8 = 38;
const KEY_S: u8 = 39;
const UNMAPPED: u8 = 255;

fn granted_grab() -> Vec<bool> {
    vec![true]
}

#[test]
fn assigns_one_distinct_mnemonic_per_candidate() {
    let candidates = vec![10, 20, 30];
    let plan = plan_mnemonics(&candidates);
    assert_eq!(plan.len(), 3);
    assert_eq!(plan[0].symbol, 'a');
    assert_eq!(plan[1].symbol, 's');
    assert_eq!(plan[2].symbol, 'd');
    for (i, a) in plan.iter().enumerate() {
        assert_eq!(a.window, candidates[i]);
        for b in plan.iter().skip(i + 1) {
            assert_ne!(a.symbol, b.symbol);
        }
    }
}

#[test]
fn no_candidates_no_mnemonics() {
    let plan = plan_mnemonics(&vec![]);
    assert!(plan.is_empty());
}

#[test]
fn candidates_beyond_alphabet_stay_unlabeled() {
    let candidates: Vec<u32> = (0..40).collect();
    let plan = plan_mnemonics(&candidates);
    assert_eq!(plan.len(), ALPHABET_SIZE);
    for (i, a) in plan.iter().enumerate() {
        assert_eq!(a.window, candidates[i]);
        for b in plan.iter().skip(i + 1) {
            assert_ne!(a.symbol, b.symbol);
        }
    }
}

#[test]
fn alphabet_hands_out_home_row_first() {
    assert_eq!(mnemonic_at(0), 'a');
    assert_eq!(mnemonic_at(1), 's');
    assert_eq!(mnemonic_at(2), 'd');
    assert_eq!(mnemonic_at(25), 'n');
    assert_eq!(mnemonic_at(26), '1');
    assert_eq!(mnemonic_at(35), '0');
}

#[test]
fn key_table_resolves_alphabet_and_cancel() {
    assert_eq!(resolve_key(ESCAPE), KeyResolution::Cancel);
    assert_eq!(resolve_key(KEY_A), KeyResolution::Symbol('a'));
    assert_eq!(resolve_key(KEY_S), KeyResolution::Symbol('s'));
    assert_eq!(resolve_key(24), KeyResolution::Symbol('q'));
    assert_eq!(resolve_key(19), KeyResolution::Symbol('0'));
    assert_eq!(resolve_key(10), KeyResolution::Symbol('1'));
    assert_eq!(resolve_key(UNMAPPED), KeyResolution::Unmapped);
    assert_eq!(resolve_key(0), KeyResolution::Unmapped);
}

#[test]
fn escape_always_cancels() {
    let mut sess = PickerSession::new();
    assert_eq!(
        sess.handle_event(PickerEvent::KeyPress(ESCAPE)),
        PickerStep::Finish(PickerOutcome::Cancelled)
    );
    sess.record_label('a', 77, 5001);
    assert_eq!(
        sess.handle_event(PickerEvent::KeyPress(ESCAPE)),
        PickerStep::Finish(PickerOutcome::Cancelled)
    );
}

#[test]
fn unmapped_key_never_terminates_the_loop() {
    let mut sess = PickerSession::new();
    sess.record_label('a', 77, 5001);
    assert_eq!(
        sess.handle_event(PickerEvent::KeyPress(UNMAPPED)),
        PickerStep::KeepWaiting
    );
    // The loop keeps waiting past the unmapped code and resolves on the
    // mnemonic that follows.
    let events = vec![
        PickerEvent::KeyPress(UNMAPPED),
        PickerEvent::KeyPress(KEY_A),
    ];
    assert_eq!(sess.run_event_loop(&events), PickerOutcome::Resolved(77));
}

#[test]
fn mnemonic_without_label_keeps_waiting() {
    let mut sess = PickerSession::new();
    sess.record_label('a', 77, 5001);
    // 's' resolves in the key table but no label carries it.
    assert_eq!(
        sess.handle_event(PickerEvent::KeyPress(KEY_S)),
        PickerStep::KeepWaiting
    );
}

#[test]
fn mapping_change_cancels() {
    let sess = PickerSession::new();
    assert_eq!(
        sess.handle_event(PickerEvent::MappingChanged),
        PickerStep::Finish(PickerOutcome::Cancelled)
    );
}

#[test]
fn expose_requests_redraw() {
    let sess = PickerSession::new();
    assert_eq!(sess.handle_event(PickerEvent::Expose), PickerStep::Redraw);
    assert_eq!(
        sess.handle_event(PickerEvent::KeyRelease),
        PickerStep::KeepWaiting
    );
    assert_eq!(sess.handle_event(PickerEvent::Other), PickerStep::KeepWaiting);
}

#[test]
fn exhausted_event_stream_cancels() {
    let mut sess = PickerSession::new();
    sess.record_label('a', 77, 5001);
    let events = vec![
        PickerEvent::Other,
        PickerEvent::KeyRelease,
        PickerEvent::Expose,
    ];
    assert_eq!(sess.run_event_loop(&events), PickerOutcome::Cancelled);
}

#[test]
fn pick_resolves_chosen_window() {
    let candidates = vec![1, 2, 3];
    let shows = vec![Some(100), Some(101), Some(102)];
    let events = vec![PickerEvent::KeyPress(KEY_A)];
    let rep = run_pick(&candidates, &granted_grab(), 1, &shows, &events);
    assert_eq!(rep.outcome, PickerOutcome::Resolved(1));
    assert!(rep.grab_taken && rep.grab_released);
    assert_eq!(rep.created, vec![100, 101, 102]);
    assert_eq!(rep.destroyed, rep.created);
}

#[test]
fn failed_label_leaves_candidate_unreachable_but_pick_proceeds() {
    let candidates = vec![7, 8];
    let shows = vec![None, Some(50)];
    // 'a' was assigned to window 7 but its label failed to render, so the
    // press is ignored; 's' selects window 8.
    let events = vec![
        PickerEvent::KeyPress(KEY_A),
        PickerEvent::KeyPress(KEY_S),
    ];
    let rep = run_pick(&candidates, &granted_grab(), 1, &shows, &events);
    assert_eq!(rep.outcome, PickerOutcome::Resolved(8));
    assert_eq!(rep.created, vec![50]);
    assert_eq!(rep.destroyed, vec![50]);
}

#[test]
fn teardown_destroys_every_overlay_on_every_exit() {
    let candidates = vec![1, 2, 3];
    let shows = vec![Some(100), None, Some(102)];
    let exits = vec![
        vec![PickerEvent::KeyPress(KEY_A)],
        vec![PickerEvent::KeyPress(ESCAPE)],
        vec![PickerEvent::Expose, PickerEvent::StreamClosed],
        vec![PickerEvent::MappingChanged],
        vec![],
    ];
    for events in exits {
        let rep = run_pick(&candidates, &granted_grab(), 1, &shows, &events);
        assert_eq!(rep.created, vec![100, 102]);
        assert_eq!(rep.destroyed, rep.created);
        assert!(rep.grab_taken && rep.grab_released);
    }
}

#[test]
fn stream_closure_cancels_mid_loop() {
    let candidates = vec![1];
    let shows = vec![Some(100)];
    let events = vec![PickerEvent::Expose, PickerEvent::StreamClosed];
    let rep = run_pick(&candidates, &granted_grab(), 1, &shows, &events);
    assert_eq!(rep.outcome, PickerOutcome::Cancelled);
    assert_eq!(rep.destroyed, rep.created);
}

#[test]
fn empty_candidates_are_unavailable_without_grab() {
    let rep = run_pick(&vec![], &granted_grab(), 1, &vec![], &vec![]);
    assert_eq!(
        rep.outcome,
        PickerOutcome::Unavailable(UnavailableReason::NoCandidates)
    );
    assert!(!rep.grab_taken && !rep.grab_released);
    assert!(rep.created.is_empty() && rep.destroyed.is_empty());
}

#[test]
fn denied_grab_is_unavailable_without_labels() {
    let candidates = vec![1, 2];
    let shows = vec![Some(100), Some(101)];
    let denied = vec![false, false, false];
    let rep = run_pick(&candidates, &denied, 3, &shows, &vec![]);
    assert_eq!(
        rep.outcome,
        PickerOutcome::Unavailable(UnavailableReason::GrabDenied)
    );
    assert!(!rep.grab_taken);
    assert!(rep.created.is_empty() && rep.destroyed.is_empty());
}

#[test]
fn label_geometry_fits_one_glyph_plus_padding() {
    let g = label_geometry(1);
    assert_eq!(g.width, 15);
    assert_eq!(g.height, 18);
    assert_eq!(g.text_x, 4);
    assert_eq!(g.text_y, 14);
    assert_eq!(label_geometry(3).width, 33);
}

#[test]
fn teardown_overlays_lists_each_once() {
    let mut sess = PickerSession::new();
    sess.record_label('a', 1, 900);
    sess.record_label('s', 2, 901);
    sess.record_label('d', 3, 902);
    assert_eq!(sess.label_count(), 3);
    assert_eq!(sess.teardown_overlays(), vec![900, 901, 902]);
}

#[test]
fn lookup_finds_only_recorded_symbols() {
    let mut sess = PickerSession::new();
    sess.record_label('a', 11, 900);
    sess.record_label('s', 22, 901);
    assert_eq!(sess.lookup('a'), Some(11));
    assert_eq!(sess.lookup('s'), Some(22));
    assert_eq!(sess.lookup('d'), None);
}
