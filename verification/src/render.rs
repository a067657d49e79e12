//! The screen renderer: builds the display payload (text plus control
//! layout) for a decided screen, consulting the content registry.

use vstd::prelude::*;

use crate::event::DisplayMode;
use crate::registry::lemma_screen_determines_index;
use crate::registry::ContentRegistry;
use crate::registry::ScreenEntry;
use crate::registry::ScreenId;

verus! {

/// One inline control: a visible label and the opaque routing token that its
/// activation carries back to the engine.
#[derive(Clone, Debug, PartialEq, Eq)]
pub struct Control {
    pub label: String,
    pub token: String,
}

/// The decided next display for a conversation: the target screen, how the
/// update reaches the user, and the rendered payload. Controls are a flat
/// ordered sequence; the host shows one control per row.
#[derive(Clone, Debug, PartialEq, Eq)]
pub struct RenderInstruction {
    pub target: ScreenId,
    pub mode: DisplayMode,
    pub text: String,
    pub controls: Vec<Control>,
}

/// Rendering failure: the decided screen has no registry entry. This is an
/// internal inconsistency between the transition rules and the registry, not
/// a runtime condition to recover from.
#[derive(Clone, Copy, Debug, PartialEq, Eq, Structural)]
pub enum RenderError {
    UnknownScreen,
}

/// The mathematical content of a control sequence: its (label, token) pairs,
/// in order.
pub open spec fn controls_view(cs: Seq<Control>) -> Seq<(Seq<char>, Seq<char>)> {
    cs.map_values(|c: Control| (c.label@, c.token@))
}

/// The menu's control layout: one control per content screen, in the
/// registry's declared order.
pub open spec fn menu_layout(reg: ContentRegistry) -> Seq<(Seq<char>, Seq<char>)> {
    reg.entries@.map_values(|e: ScreenEntry| (e.label@, e.token@))
}

/// The control layout of every non-menu screen: exactly the back control.
pub open spec fn back_layout(reg: ContentRegistry) -> Seq<(Seq<char>, Seq<char>)> {
    seq![(reg.back_label@, reg.back_token@)]
}

/// What a correct menu render is: the menu's registry text, unmodified, and
/// the declared menu control layout.
pub open spec fn is_menu_instruction(
    reg: ContentRegistry,
    ins: RenderInstruction,
    mode: DisplayMode,
) -> bool {
    &&& ins.target == ScreenId::Menu
    &&& ins.mode == mode
    &&& ins.text@ == reg.text_of(ScreenId::Menu)
    &&& controls_view(ins.controls@) == menu_layout(reg)
}

/// What a correct content-screen render is: the screen's registry text,
/// unmodified, and exactly the single back control.
pub open spec fn is_content_instruction(
    reg: ContentRegistry,
    ins: RenderInstruction,
    s: ScreenId,
    mode: DisplayMode,
) -> bool {
    &&& reg.defines(s)
    &&& ins.target == s
    &&& ins.mode == mode
    &&& ins.text@ == reg.text_of(s)
    &&& controls_view(ins.controls@) == back_layout(reg)
}

/// Build the menu's controls from the registry, in declared order.
pub fn make_menu_controls(reg: &ContentRegistry) -> (r: Vec<Control>)
    ensures
        controls_view(r@) == menu_layout(*reg),
{
    let mut out: Vec<Control> = Vec::new();
    let n = reg.entries.len();
    let mut i: usize = 0;
    while i < n
        invariant
            n == reg.entries@.len(),
            0 <= i <= n,
            controls_view(out@) =~= menu_layout(*reg).subrange(0, i as int),
        decreases n - i,
    {
        proof {
            // The invariant pins the mapped sequence; recover the length of
            // `out` itself from it before the push.
            assert(controls_view(out@).len() == i as int);
            assert(out@.len() == i as int);
        }
        let e = &reg.entries[i];
        out.push(Control { label: e.label.clone(), token: e.token.clone() });
        i = i + 1;
        proof {
            assert(out@[i as int - 1].label@ == reg.entries@[i as int - 1].label@);
            assert(out@[i as int - 1].token@ == reg.entries@[i as int - 1].token@);
            assert(controls_view(out@) =~= menu_layout(*reg).subrange(0, i as int));
        }
    }
    proof {
        assert(menu_layout(*reg).subrange(0, n as int) =~= menu_layout(*reg));
    }
    out
}

/// Build the single back control of a non-menu screen.
pub fn make_back_controls(reg: &ContentRegistry) -> (r: Vec<Control>)
    ensures
        controls_view(r@) == back_layout(*reg),
{
    let mut out: Vec<Control> = Vec::new();
    out.push(Control { label: reg.back_label.clone(), token: reg.back_token.clone() });
    proof {
        assert(controls_view(out@) =~= back_layout(*reg));
    }
    out
}

/// Find the registry entry of screen `s`, if one exists.
fn find_screen(reg: &ContentRegistry, s: ScreenId) -> (r: Option<usize>)
    requires
        reg.wf(),
    ensures
        match r {
            Some(i) => {
                &&& i < reg.entries@.len()
                &&& reg.entries@[i as int].screen == s
                &&& reg.screen_index(s) == i
            },
            None => !reg.defines(s),
        },
{
    let n = reg.entries.len();
    let mut i: usize = 0;
    while i < n
        invariant
            reg.wf(),
            n == reg.entries@.len(),
            0 <= i <= n,
            forall|j: int| 0 <= j < i ==> (#[trigger] reg.entries@[j]).screen != s,
        decreases n - i,
    {
        let e = &reg.entries[i];
        if e.screen == s {
            proof {
                lemma_screen_determines_index(*reg, i as int);
            }
            return Some(i);
        }
        i = i + 1;
    }
    None
}

/// Render the decided screen: its registry text, verbatim, and the control
/// layout that its identity dictates. Fails only when a non-menu screen has
/// no registry entry, which a correct transition table never decides.
pub fn render(reg: &ContentRegistry, target: ScreenId, mode: DisplayMode) -> (r: Result<
    RenderInstruction,
    RenderError,
>)
    requires
        reg.wf(),
    ensures
        target == ScreenId::Menu ==> (r matches Ok(ins) && is_menu_instruction(
            *reg,
            ins,
            mode,
        )),
        target != ScreenId::Menu && reg.defines(target) ==> (r matches Ok(ins)
            && is_content_instruction(*reg, ins, target, mode)),
        target != ScreenId::Menu && !reg.defines(target) ==> (r matches Err(e) && e
            == RenderError::UnknownScreen),
{
    if target == ScreenId::Menu {
        Ok(
            RenderInstruction {
                target,
                mode,
                text: reg.menu_text.clone(),
                controls: make_menu_controls(reg),
            },
        )
    } else {
        match find_screen(reg, target) {
            Some(i) => {
                let e = &reg.entries[i];
                Ok(
                    RenderInstruction {
                        target,
                        mode,
                        text: e.text.clone(),
                        controls: make_back_controls(reg),
                    },
                )
            },
            None => Err(RenderError::UnknownScreen),
        }
    }
}

/// The menu's control layout never varies between renders: any two menu
/// renders carry identical text and controls, and the controls are exactly
/// the registry's declared order.
pub proof fn lemma_menu_layout_stable(
    reg: ContentRegistry,
    a: RenderInstruction,
    ma: DisplayMode,
    b: RenderInstruction,
    mb: DisplayMode,
)
    requires
        is_menu_instruction(reg, a, ma),
        is_menu_instruction(reg, b, mb),
    ensures
        controls_view(a.controls@) == menu_layout(reg),
        controls_view(a.controls@) == controls_view(b.controls@),
        a.text@ == b.text@,
{
}

} // verus!
