//! The command table: a pure mapping from (surface, mode, composing-state,
//! token) to an action plus a propagation decision.
//!
//! Precedence, highest first:
//! 1. While composing, only the compose-commands quit (`q`) and new-tab (`n`)
//!    are evaluated; every other key is swallowed — propagation stopped, no
//!    action — so no keystroke leaks into the page during a pending command.
//! 2. The leader key arms the composition window. In Normal mode the bare
//!    leader arms; in Insert mode it arms only with Control held, so typing
//!    the leader character into a text field stays ordinary typing.
//! 3. Otherwise the surface's own bindings apply. The window surface binds
//!    nothing beyond the rules above and lets everything else proceed. The
//!    content surface binds scrolling, history, reload, the inspector, and
//!    suppresses the host's reserved symbol-picker accelerators.

use vstd::prelude::*;
use crate::keys::{KeyId, KeyToken};
use crate::mode::Mode;

verus! {

/// Scroll direction of a scroll action.
#[derive(Clone, Copy, PartialEq, Eq, Structural, Debug)]
pub enum Direction {
    /// Scroll toward the top of the page.
    Up,
    /// Scroll toward the bottom of the page.
    Down,
    /// Scroll toward the left edge.
    Left,
    /// Scroll toward the right edge.
    Right,
}

/// What the embedding application must do for a dispatched key event.
#[derive(Clone, Copy, PartialEq, Eq, Structural, Debug)]
pub enum Action {
    /// Nothing to do: the event passed through or was purely suppressed.
    NoOp,
    /// The leader key was observed: the composition window was armed.
    ArmLeader,
    /// Scroll the content surface one step in the given direction.
    Scroll(Direction),
    /// Navigate one step back in history; silently does nothing when the
    /// history is empty.
    GoBack,
    /// Navigate one step forward in history; silently does nothing when the
    /// history is empty.
    GoForward,
    /// Reload the current page.
    Reload,
    /// Reload the current page, bypassing the cache.
    ReloadBypassCache,
    /// Flip the developer inspector panel.
    ToggleInspector,
    /// Close the developer inspector panel if it is open.
    CloseInspector,
    /// Quit the application.
    Quit,
    /// Open a new content surface and focus it.
    NewTab,
}

/// Whether the host's default handling still sees the event.
#[derive(Clone, Copy, PartialEq, Eq, Structural, Debug)]
pub enum Propagation {
    /// The event was fully handled here; the host must not act on it.
    Stop,
    /// The event falls through to the host's default handling.
    Proceed,
}

/// Which of the two capture surfaces delivered the event. The host may
/// deliver one event to either or both; each surface decides independently.
#[derive(Clone, Copy, PartialEq, Eq, Structural, Debug)]
pub enum Surface {
    /// The window-level event source.
    Window,
    /// The content-view-level event source.
    Content,
}

/// Whether this token arms the composition window: it carries the configured
/// leader key, and in Insert mode also the Control modifier.
pub open spec fn spec_arms_leader(leader: KeyId, mode: Mode, t: KeyToken) -> bool {
    t.id == leader && (mode == Mode::Insert ==> t.mods.control)
}

/// The content surface's bindings, once composing and leader arming are ruled
/// out. `dev` is the developer-extras flag gating the inspector bindings.
pub open spec fn spec_content_binding(dev: bool, mode: Mode, t: KeyToken) -> (Action, Propagation) {
    if t.mods.control && (t.id == KeyId::Semicolon || t.id == KeyId::Period) {
        // Host-reserved symbol-picker accelerators: pure suppression.
        (Action::NoOp, Propagation::Stop)
    } else if dev && t.mods.control && t.id == KeyId::UpperI {
        (Action::ToggleInspector, Propagation::Stop)
    } else if dev && t.id == KeyId::Escape {
        // Escape also closes page dialogs, so it keeps propagating.
        (Action::CloseInspector, Propagation::Proceed)
    } else if t.mods.control && t.id == KeyId::LowerR {
        (Action::Reload, Propagation::Stop)
    } else if t.mods.control && t.id == KeyId::UpperR {
        (Action::ReloadBypassCache, Propagation::Stop)
    } else if mode == Mode::Insert {
        if t.mods.control {
            match t.id {
                KeyId::LowerH => (Action::Scroll(Direction::Left), Propagation::Stop),
                KeyId::LowerJ => (Action::Scroll(Direction::Down), Propagation::Stop),
                KeyId::LowerK => (Action::Scroll(Direction::Up), Propagation::Stop),
                KeyId::LowerL => (Action::Scroll(Direction::Right), Propagation::Stop),
                KeyId::UpperH => (Action::GoBack, Propagation::Stop),
                KeyId::UpperL => (Action::GoForward, Propagation::Stop),
                _ => (Action::NoOp, Propagation::Proceed),
            }
        } else {
            // Bare keys in Insert mode are typing and must reach the page.
            (Action::NoOp, Propagation::Proceed)
        }
    } else {
        match t.id {
            KeyId::LowerH => (Action::Scroll(Direction::Left), Propagation::Stop),
            KeyId::LowerJ => (Action::Scroll(Direction::Down), Propagation::Stop),
            KeyId::LowerK => (Action::Scroll(Direction::Up), Propagation::Stop),
            KeyId::LowerL => (Action::Scroll(Direction::Right), Propagation::Stop),
            KeyId::UpperH => (Action::GoBack, Propagation::Stop),
            KeyId::UpperL => (Action::GoForward, Propagation::Stop),
            KeyId::LowerR => (Action::Reload, Propagation::Stop),
            _ => (Action::NoOp, Propagation::Proceed),
        }
    }
}

/// The full command table: action and propagation decision for one key event,
/// given the configured leader key, the developer-extras flag, the cached
/// mode, and whether the composition window is open.
pub open spec fn spec_dispatch(
    surface: Surface,
    leader: KeyId,
    dev: bool,
    mode: Mode,
    composing: bool,
    t: KeyToken,
) -> (Action, Propagation) {
    if composing {
        if t.id == KeyId::LowerQ {
            (Action::Quit, Propagation::Stop)
        } else if t.id == KeyId::LowerN {
            (Action::NewTab, Propagation::Stop)
        } else {
            // Catch-all consume: nothing leaks into the page while composing.
            (Action::NoOp, Propagation::Stop)
        }
    } else if spec_arms_leader(leader, mode, t) {
        (Action::ArmLeader, Propagation::Stop)
    } else {
        match surface {
            Surface::Window => (Action::NoOp, Propagation::Proceed),
            Surface::Content => spec_content_binding(dev, mode, t),
        }
    }
}

/// Executable form of the command table. Pure: no state is read or written.
pub fn dispatch(
    surface: Surface,
    leader: KeyId,
    dev: bool,
    mode: Mode,
    composing: bool,
    t: KeyToken,
) -> (r: (Action, Propagation))
    ensures
        r == spec_dispatch(surface, leader, dev, mode, composing, t),
{
    if composing {
        if t.id == KeyId::LowerQ {
            (Action::Quit, Propagation::Stop)
        } else if t.id == KeyId::LowerN {
            (Action::NewTab, Propagation::Stop)
        } else {
            (Action::NoOp, Propagation::Stop)
        }
    } else if t.id == leader && (!(mode == Mode::Insert) || t.mods.control) {
        (Action::ArmLeader, Propagation::Stop)
    } else {
        match surface {
            Surface::Window => (Action::NoOp, Propagation::Proceed),
            Surface::Content => content_binding(dev, mode, t),
        }
    }
}

/// Executable form of the content surface's bindings.
fn content_binding(dev: bool, mode: Mode, t: KeyToken) -> (r: (Action, Propagation))
    ensures
        r == spec_content_binding(dev, mode, t),
{
    if t.mods.control && (t.id == KeyId::Semicolon || t.id == KeyId::Period) {
        (Action::NoOp, Propagation::Stop)
    } else if dev && t.mods.control && t.id == KeyId::UpperI {
        (Action::ToggleInspector, Propagation::Stop)
    } else if dev && t.id == KeyId::Escape {
        (Action::CloseInspector, Propagation::Proceed)
    } else if t.mods.control && t.id == KeyId::LowerR {
        (Action::Reload, Propagation::Stop)
    } else if t.mods.control && t.id == KeyId::UpperR {
        (Action::ReloadBypassCache, Propagation::Stop)
    } else if mode == Mode::Insert {
        if t.mods.control {
            match t.id {
                KeyId::LowerH => (Action::Scroll(Direction::Left), Propagation::Stop),
                KeyId::LowerJ => (Action::Scroll(Direction::Down), Propagation::Stop),
                KeyId::LowerK => (Action::Scroll(Direction::Up), Propagation::Stop),
                KeyId::LowerL => (Action::Scroll(Direction::Right), Propagation::Stop),
                KeyId::UpperH => (Action::GoBack, Propagation::Stop),
                KeyId::UpperL => (Action::GoForward, Propagation::Stop),
                _ => (Action::NoOp, Propagation::Proceed),
            }
        } else {
            (Action::NoOp, Propagation::Proceed)
        }
    } else {
        match t.id {
            KeyId::LowerH => (Action::Scroll(Direction::Left), Propagation::Stop),
            KeyId::LowerJ => (Action::Scroll(Direction::Down), Propagation::Stop),
            KeyId::LowerK => (Action::Scroll(Direction::Up), Propagation::Stop),
            KeyId::LowerL => (Action::Scroll(Direction::Right), Propagation::Stop),
            KeyId::UpperH => (Action::GoBack, Propagation::Stop),
            KeyId::UpperL => (Action::GoForward, Propagation::Stop),
            KeyId::LowerR => (Action::Reload, Propagation::Stop),
            _ => (Action::NoOp, Propagation::Proceed),
        }
    }
}

/// Outside the composition window, a token carrying the leader key (with
/// Control held if the cached mode is Insert) arms the timer and stops
/// propagation, on either surface.
pub proof fn lemma_leader_arms(surface: Surface, leader: KeyId, dev: bool, mode: Mode, t: KeyToken)
    requires
        t.id == leader,
        mode == Mode::Insert ==> t.mods.control,
    ensures
        spec_dispatch(surface, leader, dev, mode, false, t) == (
            Action::ArmLeader,
            Propagation::Stop,
        ),
{
}

/// While composing, every key other than the compose-commands quit (`q`) and
/// new-tab (`n`) is consumed: propagation stops and no action is produced, on
/// either surface, whatever the mode and modifiers.
pub proof fn lemma_composing_consumes(
    surface: Surface,
    leader: KeyId,
    dev: bool,
    mode: Mode,
    t: KeyToken,
)
    requires
        t.id != KeyId::LowerQ,
        t.id != KeyId::LowerN,
    ensures
        spec_dispatch(surface, leader, dev, mode, true, t) == (Action::NoOp, Propagation::Stop),
{
}

/// While composing, the two compose-commands are still reachable: `q` quits
/// and `n` opens a new tab, each stopping propagation.
pub proof fn lemma_compose_commands(
    surface: Surface,
    leader: KeyId,
    dev: bool,
    mode: Mode,
    t: KeyToken,
)
    ensures
        t.id == KeyId::LowerQ ==> spec_dispatch(surface, leader, dev, mode, true, t) == (
            Action::Quit,
            Propagation::Stop,
        ),
        t.id == KeyId::LowerN ==> spec_dispatch(surface, leader, dev, mode, true, t) == (
            Action::NewTab,
            Propagation::Stop,
        ),
{
}

} // verus!
