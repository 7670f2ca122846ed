//! The inspector state tracker: a boolean mirroring whether the developer
//! inspector panel is visible.
//!
//! The panel changes state two ways: the engine's toggle command, and the user
//! closing the panel through its own UI, which reaches the engine as an
//! external "closed" notification. The tracker turns a toggle into the
//! concrete show or close call the host widget needs, and forces itself to
//! closed on the external notification regardless of its prior value.

use vstd::prelude::*;

verus! {

/// The call to make on the host's inspector widget.
#[derive(Clone, Copy, PartialEq, Eq, Structural, Debug)]
pub enum InspectorCmd {
    /// Open the inspector panel.
    Show,
    /// Close the inspector panel.
    Close,
}

/// Whether the engine believes the inspector panel is visible.
#[derive(Clone, Copy, PartialEq, Eq, Structural, Debug)]
pub struct InspectorTracker {
    /// True while the panel is (believed) open.
    pub visible: bool,
}

/// The tracker after a toggle, and the widget call the toggle issues.
pub open spec fn spec_toggle(t: InspectorTracker) -> (InspectorTracker, InspectorCmd) {
    if t.visible {
        (InspectorTracker { visible: false }, InspectorCmd::Close)
    } else {
        (InspectorTracker { visible: true }, InspectorCmd::Show)
    }
}

impl InspectorTracker {
    /// A fresh tracker: the panel starts closed.
    pub fn new() -> (t: InspectorTracker)
        ensures
            t == (InspectorTracker { visible: false }),
    {
        InspectorTracker { visible: false }
    }

    /// Flip the state and return the matching show or close call.
    pub fn toggle(&mut self) -> (cmd: InspectorCmd)
        ensures
            (*final(self), cmd) == spec_toggle(*old(self)),
            final(self).visible == !old(self).visible,
    {
        if self.visible {
            self.visible = false;
            InspectorCmd::Close
        } else {
            self.visible = true;
            InspectorCmd::Show
        }
    }

    /// The panel is now closed, whatever the tracker believed: used both for
    /// the external "closed" notification and for the Escape binding.
    pub fn force_closed(&mut self)
        ensures
            *final(self) == (InspectorTracker { visible: false }),
    {
        self.visible = false;
    }
}

/// Toggling twice is the identity on the tracker, and the two widget calls it
/// issues are a balanced pair: one Show and one Close, in the order the
/// starting state demands.
pub proof fn lemma_toggle_twice_restores(t: InspectorTracker)
    ensures
        ({
            let (t1, c1) = spec_toggle(t);
            let (t2, c2) = spec_toggle(t1);
            &&& t2 == t
            &&& (c1 == InspectorCmd::Show <==> c2 == InspectorCmd::Close)
            &&& c1 != c2
        }),
{
}

} // verus!
