//! The engine: one instance per content surface, owning the leader timer, the
//! mode oracle and the inspector tracker, and binding the command table to the
//! two capture surfaces.
//!
//! Dispatch is synchronous and never blocks: it reads the cached mode, decides
//! action and propagation, applies the state transitions the action implies,
//! and asks the embedding application to issue one fresh mode query — tagged
//! with a generation — whose completion comes back through
//! [`Engine::on_mode_result`]. The application performs the returned action
//! (run a scroll script, navigate, show or close the inspector widget, quit,
//! open a tab) and returns the propagation decision to the host.

use vstd::prelude::*;
use crate::command::{spec_dispatch, dispatch, Action, Propagation, Surface};
use crate::inspector::{spec_toggle, InspectorCmd, InspectorTracker};
use crate::keys::{spec_normalize, normalize, KeyId, Modifiers};
use crate::leader::{is_composing_at, LeaderTimer};
use crate::mode::{spec_apply, spec_current_mode, spec_issue, Mode, ModeOracle};

verus! {

/// Everything the embedding application needs after one key event.
#[derive(Clone, Copy, PartialEq, Eq, Structural, Debug)]
pub struct Outcome {
    /// The command to perform.
    pub action: Action,
    /// Whether the host's default handling still sees the event.
    pub propagation: Propagation,
    /// The inspector widget call the action implies, if any.
    pub inspector: Option<InspectorCmd>,
    /// Generation tag of the mode query to issue for this keystroke; its
    /// completion must be handed back through [`Engine::on_mode_result`].
    pub query_gen: u64,
}

/// The modal input dispatch engine bound to one content surface.
#[derive(Clone, Copy, PartialEq, Eq, Structural, Debug)]
pub struct Engine {
    /// The configured leader key.
    pub leader_key: KeyId,
    /// Whether developer extras (the inspector bindings) are enabled.
    pub developer_extras: bool,
    /// The leader-key composition window.
    pub leader: LeaderTimer,
    /// The cached insert/normal mode and its generation guard.
    pub oracle: ModeOracle,
    /// The believed state of the developer inspector panel.
    pub inspector: InspectorTracker,
}

/// The leader timer after an action: arming replaces it, everything else
/// leaves it alone.
pub open spec fn spec_leader_after(t: LeaderTimer, a: Action, now: u64) -> LeaderTimer {
    if a == Action::ArmLeader {
        LeaderTimer { armed: true, armed_at: now }
    } else {
        t
    }
}

/// The inspector tracker after an action: a toggle flips it, closing forces
/// it closed, everything else leaves it alone.
pub open spec fn spec_inspector_after(t: InspectorTracker, a: Action) -> InspectorTracker {
    if a == Action::ToggleInspector {
        spec_toggle(t).0
    } else if a == Action::CloseInspector {
        InspectorTracker { visible: false }
    } else {
        t
    }
}

/// The widget call an action implies: a toggle always issues one, closing
/// issues one only when the panel was believed open (so show and close calls
/// stay balanced), everything else issues none.
pub open spec fn spec_inspector_cmd(t: InspectorTracker, a: Action) -> Option<InspectorCmd> {
    if a == Action::ToggleInspector {
        Some(spec_toggle(t).1)
    } else if a == Action::CloseInspector && t.visible {
        Some(InspectorCmd::Close)
    } else {
        None
    }
}

impl Engine {
    /// A fresh engine with safe defaults: Normal mode, idle timer, closed
    /// inspector — the very first keystroke is handled like any later one.
    pub fn new(leader_key: KeyId, developer_extras: bool) -> (e: Engine)
        ensures
            e.leader_key == leader_key,
            e.developer_extras == developer_extras,
            e.leader == (LeaderTimer { armed: false, armed_at: 0 }),
            e.oracle == (ModeOracle { insert: false, latest_gen: 0 }),
            e.inspector == (InspectorTracker { visible: false }),
    {
        Engine {
            leader_key,
            developer_extras,
            leader: LeaderTimer::new(),
            oracle: ModeOracle::new(),
            inspector: InspectorTracker::new(),
        }
    }

    /// Whether the composition window is open at time `now`.
    pub fn is_composing(&self, now: u64) -> (b: bool)
        ensures
            b == is_composing_at(self.leader, now),
    {
        self.leader.is_composing(now)
    }

    /// The mode the cache currently reports.
    pub fn current_mode(&self) -> (m: Mode)
        ensures
            m == spec_current_mode(self.oracle),
    {
        self.oracle.current_mode()
    }

    /// Generation of the most recently issued mode query. The embedding
    /// application must check this is below `u64::MAX` before calling
    /// [`Engine::on_key`].
    pub fn mode_generation(&self) -> (g: u64)
        ensures
            g == self.oracle.latest_gen,
    {
        self.oracle.latest_gen
    }

    /// Dispatch one raw key event from one of the two capture surfaces at
    /// monotonic time `now` (milliseconds).
    ///
    /// The event is normalized, looked up in the command table against the
    /// cached mode and the composition window, and the implied transitions
    /// are applied: arming the timer, flipping or closing the inspector
    /// tracker, and issuing one fresh mode query generation.
    pub fn on_key(&mut self, surface: Surface, keyval: u32, mods: Modifiers, now: u64) -> (o:
        Outcome)
        requires
            old(self).oracle.latest_gen < u64::MAX,
        ensures
            ({
                let t = spec_normalize(keyval, mods);
                let mode = spec_current_mode(old(self).oracle);
                let composing = is_composing_at(old(self).leader, now);
                let decision = spec_dispatch(
                    surface,
                    old(self).leader_key,
                    old(self).developer_extras,
                    mode,
                    composing,
                    t,
                );
                &&& o.action == decision.0
                &&& o.propagation == decision.1
                &&& o.inspector == spec_inspector_cmd(old(self).inspector, decision.0)
                &&& o.query_gen == old(self).oracle.latest_gen + 1
                &&& final(self).leader_key == old(self).leader_key
                &&& final(self).developer_extras == old(self).developer_extras
                &&& final(self).leader == spec_leader_after(old(self).leader, decision.0, now)
                &&& final(self).oracle == spec_issue(old(self).oracle)
                &&& final(self).inspector == spec_inspector_after(
                    old(self).inspector,
                    decision.0,
                )
            }),
    {
        let t = normalize(keyval, mods);
        let mode = self.oracle.current_mode();
        let composing = self.leader.is_composing(now);
        let (action, propagation) = dispatch(
            surface,
            self.leader_key,
            self.developer_extras,
            mode,
            composing,
            t,
        );
        let mut inspector_cmd: Option<InspectorCmd> = None;
        match action {
            Action::ArmLeader => {
                self.leader.arm(now);
            },
            Action::ToggleInspector => {
                inspector_cmd = Some(self.inspector.toggle());
            },
            Action::CloseInspector => {
                if self.inspector.visible {
                    inspector_cmd = Some(InspectorCmd::Close);
                }
                self.inspector.force_closed();
            },
            _ => {},
        }
        let query_gen = self.oracle.issue_query();
        Outcome { action, propagation, inspector: inspector_cmd, query_gen }
    }

    /// A mode query completion arrived from the content surface: `insert` is
    /// its answer and `gen` the generation returned by the [`Engine::on_key`]
    /// that issued it. Applied only if it is the latest issued generation. A
    /// failed query is simply never reported, leaving the cache unchanged.
    pub fn on_mode_result(&mut self, gen: u64, insert: bool)
        ensures
            final(self).oracle == spec_apply(old(self).oracle, gen, insert),
            final(self).leader == old(self).leader,
            final(self).inspector == old(self).inspector,
            final(self).leader_key == old(self).leader_key,
            final(self).developer_extras == old(self).developer_extras,
    {
        self.oracle.on_query_result(gen, insert);
    }

    /// The user closed the inspector panel through its own UI: force the
    /// tracker to closed, whatever it believed.
    pub fn on_inspector_closed(&mut self)
        ensures
            final(self).inspector == (InspectorTracker { visible: false }),
            final(self).leader == old(self).leader,
            final(self).oracle == old(self).oracle,
            final(self).leader_key == old(self).leader_key,
            final(self).developer_extras == old(self).developer_extras,
    {
        self.inspector.force_closed();
    }
}

} // verus!
