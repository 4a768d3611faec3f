//! Scenarios for the directional workspace search.

use quickfocus::search::{next_workspace_index, Direction};

#[test]
fn forward_skips_visible_run() {
    // Groupings [W1, W2, W3, W4], active = W1, W2 and W3 visible elsewhere:
    // the first pass lands on W4.
    let vis = vec![false, true, true, false];
    assert_eq!(next_workspace_index(&vis, 0, Direction::Forward), 3);
}

#[test]
fn forward_wraps_to_self_when_only_choice() {
    // Groupings [W1, W2], active = W1, W2 visible elsewhere: the fallback
    // pass wraps to W1 itself, the only grouping not visible elsewhere.
    let vis = vec![false, true];
    assert_eq!(next_workspace_index(&vis, 0, Direction::Forward), 0);
}

#[test]
fn single_grouping_returns_itself() {
    let vis = vec![false];
    assert_eq!(next_workspace_index(&vis, 0, Direction::Forward), 0);
    assert_eq!(next_workspace_index(&vis, 0, Direction::Backward), 0);
}

#[test]
fn all_visible_elsewhere_is_a_noop() {
    let vis = vec![true, true, true, true];
    assert_eq!(next_workspace_index(&vis, 2, Direction::Forward), 2);
    assert_eq!(next_workspace_index(&vis, 2, Direction::Backward), 2);
}

#[test]
fn backward_mirrors_forward() {
    // Same groupings and visibility as the forward scenario, active = W1:
    // backward finds nothing below W1 and falls back to scanning from the
    // end, landing on W4 — an index into the original order, not into a
    // reversed copy.
    let vis = vec![false, true, true, false];
    assert_eq!(next_workspace_index(&vis, 0, Direction::Backward), 3);

    // An asymmetric case: from W3, forward lands on W4, backward on W1,
    // each the exact mirror of the other.
    let vis = vec![false, true, false, false];
    assert_eq!(next_workspace_index(&vis, 2, Direction::Forward), 3);
    assert_eq!(next_workspace_index(&vis, 2, Direction::Backward), 0);
}

#[test]
fn backward_first_pass_takes_nearest_below() {
    let vis = vec![false, false, true, false];
    // From W4 going backward, W3 is visible elsewhere, so W2 wins.
    assert_eq!(next_workspace_index(&vis, 3, Direction::Backward), 1);
}

#[test]
fn direction_reverse_flips() {
    assert_eq!(Direction::Forward.reverse(), Direction::Backward);
    assert_eq!(Direction::Backward.reverse(), Direction::Forward);
}
