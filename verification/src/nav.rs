//! The navigation state machine: a pure transition function from a
//! classified inbound event to the next screen and display mode. It only
//! decides; it performs no I/O and holds no state beyond the registry.

use vstd::prelude::*;

use crate::event::DisplayMode;
use crate::event::MessageRef;
use crate::event::NavigationEvent;
use crate::registry::lemma_resolved_screen_defined;
use crate::registry::resolve_token;
use crate::registry::ContentRegistry;
use crate::registry::ScreenId;

verus! {

/// The state machine's decision for one classified event.
#[derive(Clone, Copy, Debug, PartialEq, Eq, Structural)]
pub enum NavDecision {
    /// Move to `target`, delivering the render as `mode` says.
    Navigate { target: ScreenId, mode: DisplayMode },
    /// The activation's token names no screen: acknowledge it and edit the
    /// originating message to a neutral screen, without a transition.
    Unknown { origin: MessageRef },
    /// The event is not handled; nothing is sent.
    Ignore,
}

/// The transition table. The entry command opens the menu as a fresh
/// message; every other recognized event edits the originating message in
/// place: the back token returns to the menu, a token that resolves opens
/// its content screen, and any other token is an unknown control.
/// Unrecognized commands are ignored by design.
pub open spec fn spec_decide(reg: ContentRegistry, ev: NavigationEvent) -> NavDecision {
    match ev {
        NavigationEvent::Command { name } => if name@ == reg.entry_command@ {
            NavDecision::Navigate { target: ScreenId::Menu, mode: DisplayMode::New }
        } else {
            NavDecision::Ignore
        },
        NavigationEvent::ControlActivation { token, origin } => if token@ == reg.back_token@ {
            NavDecision::Navigate {
                target: ScreenId::Menu,
                mode: DisplayMode::EditInPlace(origin),
            }
        } else if reg.resolves(token@) {
            NavDecision::Navigate {
                target: reg.screen_of_token(token@),
                mode: DisplayMode::EditInPlace(origin),
            }
        } else {
            NavDecision::Unknown { origin }
        },
    }
}

/// Decide the transition for one classified event.
pub fn decide(reg: &ContentRegistry, ev: &NavigationEvent) -> (d: NavDecision)
    requires
        reg.wf(),
    ensures
        d == spec_decide(*reg, *ev),
{
    match ev {
        NavigationEvent::Command { name } => {
            if *name == reg.entry_command {
                NavDecision::Navigate { target: ScreenId::Menu, mode: DisplayMode::New }
            } else {
                NavDecision::Ignore
            }
        },
        NavigationEvent::ControlActivation { token, origin } => {
            if *token == reg.back_token {
                NavDecision::Navigate {
                    target: ScreenId::Menu,
                    mode: DisplayMode::EditInPlace(*origin),
                }
            } else {
                match resolve_token(reg, token) {
                    Some(s) => NavDecision::Navigate {
                        target: s,
                        mode: DisplayMode::EditInPlace(*origin),
                    },
                    None => NavDecision::Unknown { origin: *origin },
                }
            }
        },
    }
}

/// Every screen the transition table decides is renderable: it is the menu
/// itself or a screen the registry defines. Rendering a decided screen
/// therefore never fails.
pub proof fn lemma_decision_renderable(reg: ContentRegistry, ev: NavigationEvent)
    requires
        reg.wf(),
    ensures
        spec_decide(reg, ev) matches NavDecision::Navigate { target, .. } ==> (target
            == ScreenId::Menu || reg.defines(target)),
{
    match ev {
        NavigationEvent::ControlActivation { token, origin } => {
            if token@ != reg.back_token@ && reg.resolves(token@) {
                lemma_resolved_screen_defined(reg, token@);
            }
        },
        NavigationEvent::Command { name } => {
        },
    }
}

} // verus!
