//! The hand-off of a layout from the call that shows a list to the repaint
//! that draws it.
//!
//! A repaint is told nothing but which window to draw. What to draw waits
//! here, one layout per window at most: showing a list again before the
//! repaint came replaces what waited, and the repaint takes what it finds.

use crate::layout::Layout;
use std::collections::HashMap;
use vstd::prelude::*;

verus! {

broadcast use vstd::std_specs::hash::group_hash_axioms;

/// The layouts that wait for a repaint, by the handle of their window.
pub struct Mailbox {
    slots: HashMap<isize, Layout>,
}

impl View for Mailbox {
    type V = Map<isize, Layout>;

    closed spec fn view(&self) -> Map<isize, Layout> {
        self.slots@
    }
}

impl Mailbox {
    /// A mailbox in which nothing waits.
    pub fn new() -> (mailbox: Mailbox)
        ensures
            mailbox@ == Map::<isize, Layout>::empty(),
    {
        Mailbox { slots: HashMap::new() }
    }

    /// Leaves a layout for the next repaint of a window. A layout that still
    /// waited for that window is replaced.
    pub fn post(&mut self, window: isize, layout: Layout)
        ensures
            final(self)@ == old(self)@.insert(window, layout),
    {
        self.slots.insert(window, layout);
    }

    /// Takes the layout that waits for a window, if there is one. Nothing
    /// waits for that window afterwards.
    pub fn take(&mut self, window: isize) -> (layout: Option<Layout>)
        ensures
            layout == (if old(self)@.contains_key(window) {
                Some(old(self)@[window])
            } else {
                None
            }),
            final(self)@ == old(self)@.remove(window),
    {
        self.slots.remove(&window)
    }

    /// Tells whether a layout waits for a window.
    pub fn is_pending(&self, window: isize) -> (pending: bool)
        ensures
            pending == self@.contains_key(window),
    {
        self.slots.contains_key(&window)
    }
}

} // verus!
