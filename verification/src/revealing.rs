//! Decision state of the revealing button.
//!
//! The button shows its main content at all times and holds a child that
//! is revealed or hidden when the button is clicked.  The child widget
//! is built lazily, on the first reveal, and destroyed only on explicit
//! request; the toolkit owns the widgets themselves, this type owns the
//! two booleans that drive them.

use vstd::prelude::*;

verus! {

/// Shown/hidden state of a revealing button's child, and whether the
/// child's content has been built yet.
pub struct RevealState {
    revealed: bool,
    child_built: bool,
}

impl View for RevealState {
    type V = (bool, bool);

    closed spec fn view(&self) -> (bool, bool) {
        (self.revealed, self.child_built)
    }
}

impl RevealState {
    /// A fresh button: hidden, with no child built.
    pub fn new() -> (r: Self)
        ensures
            !r@.0,
            !r@.1,
    {
        RevealState { revealed: false, child_built: false }
    }

    /// Whether the child is currently revealed.
    pub fn is_revealed(&self) -> (b: bool)
        ensures
            b == self@.0,
    {
        self.revealed
    }

    /// Whether the child content has been built.
    pub fn is_child_built(&self) -> (b: bool)
        ensures
            b == self@.1,
    {
        self.child_built
    }

    /// A click on the button: a revealed child is hidden; a hidden one
    /// is revealed, building its content first if it is still missing.
    /// Returns the new shown/hidden state.
    pub fn toggle_reveal(&mut self) -> (shown: bool)
        ensures
            final(self)@.0 == !old(self)@.0,
            shown == final(self)@.0,
            old(self)@.0 ==> final(self)@.1 == old(self)@.1,
            !old(self)@.0 ==> final(self)@.1,
    {
        if self.revealed {
            self.revealed = false;
            false
        } else {
            self.child_built = true;
            self.revealed = true;
            true
        }
    }

    /// Sets the shown/hidden state directly, leaving the child's
    /// content as it is.
    pub fn set_reveal_child(&mut self, reveal: bool)
        ensures
            final(self)@.0 == reveal,
            final(self)@.1 == old(self)@.1,
    {
        self.revealed = reveal;
    }

    /// Destroys the child's content, if it was ever built; the
    /// shown/hidden state is untouched.
    pub fn destroy_revealed(&mut self)
        ensures
            final(self)@.0 == old(self)@.0,
            !final(self)@.1,
    {
        self.child_built = false;
    }
}

} // verus!
