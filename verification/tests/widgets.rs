//! Decision state of the revealing button and the selection grid.

use gtk_extras::revealing::RevealState;
use gtk_extras::selection::{initial_active, ExclusiveGroup};

#[test]
fn reveal_toggles_and_builds_child_lazily() {
    let mut b = RevealState::new();
    assert!(!b.is_revealed());
    assert!(!b.is_child_built());
    assert!(b.toggle_reveal());
    assert!(b.is_revealed());
    assert!(b.is_child_built());
    assert!(!b.toggle_reveal());
    assert!(!b.is_revealed());
    // Hiding does not destroy the built child.
    assert!(b.is_child_built());
}

#[test]
fn destroy_revealed_forgets_child_only() {
    let mut b = RevealState::new();
    b.toggle_reveal();
    b.destroy_revealed();
    assert!(b.is_revealed());
    assert!(!b.is_child_built());
    b.set_reveal_child(false);
    assert!(!b.is_revealed());
    assert!(!b.is_child_built());
}

#[test]
fn initial_active_picks_last_flagged() {
    assert_eq!(initial_active(&vec![]), None);
    assert_eq!(initial_active(&vec![false, false, false]), None);
    assert_eq!(initial_active(&vec![false, true, false]), Some(1));
    assert_eq!(initial_active(&vec![true, false, true, false]), Some(2));
    assert_eq!(initial_active(&vec![true, true, true]), Some(2));
}

#[test]
fn exclusive_group_moves_single_active_slot() {
    let mut g = ExclusiveGroup::new(&vec![false, true, false]);
    assert_eq!(g.count(), 3);
    assert_eq!(g.active(), Some(1));
    g.activate(2);
    assert_eq!(g.active(), Some(2));
    g.activate(0);
    assert_eq!(g.active(), Some(0));
}

#[test]
fn exclusive_group_with_no_flag_starts_inactive() {
    let g = ExclusiveGroup::new(&vec![false, false]);
    assert_eq!(g.active(), None);
}
