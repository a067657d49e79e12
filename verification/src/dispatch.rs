//! The event dispatcher: classifies a raw gateway event, runs the navigation
//! state machine, renders the decided screen, and says whether the host owes
//! the gateway an acknowledgment.

use vstd::prelude::*;

use crate::event::DisplayMode;
use crate::event::MessageRef;
use crate::event::NavigationEvent;
use crate::event::RawEvent;
use crate::nav::decide;
use crate::nav::lemma_decision_renderable;
use crate::nav::NavDecision;
use crate::registry::ContentRegistry;
use crate::registry::ScreenId;
use crate::render::back_layout;
use crate::render::controls_view;
use crate::render::is_content_instruction;
use crate::render::is_menu_instruction;
use crate::render::make_back_controls;
use crate::render::render;
use crate::render::Control;
use crate::render::RenderInstruction;

verus! {

/// The neutral screen shown for an unknown control token: generic text with
/// only the back control, edited in place of the originating message.
#[derive(Clone, Debug, PartialEq, Eq)]
pub struct NeutralUpdate {
    pub mode: DisplayMode,
    pub text: String,
    pub controls: Vec<Control>,
}

/// The result of one dispatch cycle.
#[derive(Clone, Debug, PartialEq, Eq)]
pub enum DispatchOutcome {
    /// A screen transition: deliver `instruction`, acknowledging the
    /// activation first when `ack` is set. `ack` is set exactly when the
    /// event was a control activation.
    Show { ack: bool, instruction: RenderInstruction },
    /// An unknown control token: acknowledge the activation and deliver the
    /// neutral update; the conversation does not change screens.
    UnknownControl { update: NeutralUpdate },
    /// The event was unrecognized or malformed: send nothing, acknowledge
    /// nothing.
    Discard,
}

/// Whether an outcome obliges the host to acknowledge the activation.
pub open spec fn acknowledges(r: DispatchOutcome) -> bool {
    match r {
        DispatchOutcome::Show { ack, .. } => ack,
        DispatchOutcome::UnknownControl { .. } => true,
        DispatchOutcome::Discard => false,
    }
}

/// What dispatching the entry command yields: a fresh (`New`-mode) render of
/// the menu, with no acknowledgment owed.
pub open spec fn entry_outcome(reg: ContentRegistry, r: DispatchOutcome) -> bool {
    &&& r matches DispatchOutcome::Show { ack, instruction }
    &&& ack == false
    &&& is_menu_instruction(reg, instruction, DisplayMode::New)
}

/// What dispatching a back activation yields: the menu, edited in place of
/// the originating message, acknowledged.
pub open spec fn back_outcome(reg: ContentRegistry, o: MessageRef, r: DispatchOutcome) -> bool {
    &&& r matches DispatchOutcome::Show { ack, instruction }
    &&& ack == true
    &&& is_menu_instruction(reg, instruction, DisplayMode::EditInPlace(o))
}

/// What dispatching an activation whose token resolves yields: that token's
/// content screen, edited in place, acknowledged.
pub open spec fn content_outcome(
    reg: ContentRegistry,
    t: Seq<char>,
    o: MessageRef,
    r: DispatchOutcome,
) -> bool {
    &&& r matches DispatchOutcome::Show { ack, instruction }
    &&& ack == true
    &&& is_content_instruction(reg, instruction, reg.screen_of_token(t), DisplayMode::EditInPlace(o))
}

/// What dispatching an activation with an unknown token yields: no
/// transition, the neutral screen with only the back control edited in
/// place, acknowledged.
pub open spec fn unknown_outcome(reg: ContentRegistry, o: MessageRef, r: DispatchOutcome) -> bool {
    &&& r matches DispatchOutcome::UnknownControl { update }
    &&& update.mode == DisplayMode::EditInPlace(o)
    &&& update.text@ == reg.fallback_text@
    &&& controls_view(update.controls@) == back_layout(reg)
}

/// The outcome owed to a well-formed activation, by its token.
pub open spec fn activation_outcome(
    reg: ContentRegistry,
    t: Seq<char>,
    o: MessageRef,
    r: DispatchOutcome,
) -> bool {
    if t == reg.back_token@ {
        back_outcome(reg, o, r)
    } else if reg.resolves(t) {
        content_outcome(reg, t, o, r)
    } else {
        unknown_outcome(reg, o, r)
    }
}

/// Classify a raw gateway event into a navigation event, or discard it: a
/// text message counts only if it is exactly the entry command, and an
/// activation counts only if both its token and its originating message are
/// attached.
pub fn classify(reg: &ContentRegistry, ev: RawEvent) -> (r: Option<NavigationEvent>)
    ensures
        match ev {
            RawEvent::Text { text } => if text@ == reg.entry_command@ {
                r matches Some(n) && n matches NavigationEvent::Command { name } && name@ == text@
            } else {
                r is None
            },
            RawEvent::Activation { token, origin } => match (token, origin) {
                (Some(t), Some(o)) => r matches Some(n) && n matches NavigationEvent::ControlActivation {
                    token: t2,
                    origin: o2,
                } && t2@ == t@ && o2 == o,
                _ => r is None,
            },
        },
{
    match ev {
        RawEvent::Text { text } => {
            if text == reg.entry_command {
                Some(NavigationEvent::Command { name: text })
            } else {
                None
            }
        },
        RawEvent::Activation { token, origin } => {
            match (token, origin) {
                (Some(t), Some(o)) => Some(
                    NavigationEvent::ControlActivation { token: t, origin: o },
                ),
                _ => None,
            }
        },
    }
}

/// One full dispatch cycle: classify the raw event, decide the transition,
/// and render the decided screen. The entry command yields a fresh menu
/// render; a well-formed activation yields its owed outcome (back to the
/// menu, a content screen, or the neutral unknown-control update); anything
/// else is discarded. Rendering never fails here: every decided screen is in
/// the registry.
pub fn dispatch(reg: &ContentRegistry, ev: RawEvent) -> (r: DispatchOutcome)
    requires
        reg.wf(),
    ensures
        match ev {
            RawEvent::Text { text } => if text@ == reg.entry_command@ {
                entry_outcome(*reg, r)
            } else {
                r is Discard
            },
            RawEvent::Activation { token, origin } => match (token, origin) {
                (Some(t), Some(o)) => activation_outcome(*reg, t@, o, r),
                _ => r is Discard,
            },
        },
{
    match classify(reg, ev) {
        None => DispatchOutcome::Discard,
        Some(nev) => {
            let ack = match &nev {
                NavigationEvent::Command { .. } => false,
                NavigationEvent::ControlActivation { .. } => true,
            };
            let d = decide(reg, &nev);
            proof {
                lemma_decision_renderable(*reg, nev);
            }
            match d {
                NavDecision::Navigate { target, mode } => {
                    match render(reg, target, mode) {
                        Ok(instruction) => DispatchOutcome::Show { ack, instruction },
                        Err(_) => vstd::pervasive::unreached(),
                    }
                },
                NavDecision::Unknown { origin } => DispatchOutcome::UnknownControl {
                    update: NeutralUpdate {
                        mode: DisplayMode::EditInPlace(origin),
                        text: reg.fallback_text.clone(),
                        controls: make_back_controls(reg),
                    },
                },
                NavDecision::Ignore => DispatchOutcome::Discard,
            }
        },
    }
}

/// Whether the host must acknowledge the activation for this outcome.
pub fn must_acknowledge(r: &DispatchOutcome) -> (b: bool)
    ensures
        b == acknowledges(*r),
{
    match r {
        DispatchOutcome::Show { ack, .. } => *ack,
        DispatchOutcome::UnknownControl { .. } => true,
        DispatchOutcome::Discard => false,
    }
}

/// A well-formed activation is always acknowledged: whatever its token
/// resolved to, the owed outcome obliges an acknowledgment.
pub proof fn lemma_activation_acknowledged(
    reg: ContentRegistry,
    t: Seq<char>,
    o: MessageRef,
    r: DispatchOutcome,
)
    requires
        activation_outcome(reg, t, o, r),
    ensures
        acknowledges(r),
{
}

/// Issuing the entry command twice from a fresh conversation produces two
/// independent `New`-mode renders of the identical menu payload.
pub proof fn lemma_entry_idempotent(
    reg: ContentRegistry,
    r1: DispatchOutcome,
    r2: DispatchOutcome,
)
    requires
        entry_outcome(reg, r1),
        entry_outcome(reg, r2),
    ensures
        ({
            &&& r1 matches DispatchOutcome::Show { instruction: i1, .. }
            &&& r2 matches DispatchOutcome::Show { instruction: i2, .. }
            &&& i1.mode == DisplayMode::New
            &&& i2.mode == DisplayMode::New
            &&& i1.target == i2.target
            &&& i1.text@ == i2.text@
            &&& controls_view(i1.controls@) == controls_view(i2.controls@)
        }),
{
}

/// Activating a valid content screen and then the back control on the same
/// originating message returns the conversation to the exact menu render of
/// the initial entry: same text, same controls, edited in place.
pub proof fn lemma_back_round_trip(
    reg: ContentRegistry,
    t: Seq<char>,
    o: MessageRef,
    visit: DispatchOutcome,
    back: DispatchOutcome,
    entry: DispatchOutcome,
)
    requires
        reg.wf(),
        reg.resolves(t),
        activation_outcome(reg, t, o, visit),
        activation_outcome(reg, reg.back_token@, o, back),
        entry_outcome(reg, entry),
    ensures
        ({
            &&& back matches DispatchOutcome::Show { instruction: bi, .. }
            &&& entry matches DispatchOutcome::Show { instruction: ei, .. }
            &&& bi.target == ScreenId::Menu
            &&& bi.mode == DisplayMode::EditInPlace(o)
            &&& bi.text@ == ei.text@
            &&& controls_view(bi.controls@) == controls_view(ei.controls@)
        }),
{
}

} // verus!
