//! Giving GDK its GL state back after mpv has rendered.
//!
//! mpv leaves `glViewport`, `glScissor`, `glBlendFuncSeparate` and `glClearColor` as it used
//! them (mpv/render_gl.h says so), while GDK sets them once per paint and goes on to composite
//! the widgets above the video in the same context.

use vstd::prelude::*;

verus! {

pub const GL_SCISSOR_TEST: u32 = 0x0C11;

pub const GL_DEPTH_TEST: u32 = 0x0B71;

pub const GL_ONE: u32 = 1;

pub const GL_ONE_MINUS_SRC_ALPHA: u32 = 0x0303;

/// Which of the GL functions that the restoring takes were resolved.
#[derive(Clone, Copy, Debug, PartialEq, Eq, Structural)]
pub struct ResolvedGl {
    pub viewport: bool,
    pub scissor: bool,
    pub disable: bool,
    pub blend_func: bool,
    pub clear_color: bool,
}

/// A rectangle in window coordinates.
#[derive(Clone, Copy, Debug, PartialEq, Eq, Structural)]
pub struct Rect {
    pub x: i32,
    pub y: i32,
    pub width: i32,
    pub height: i32,
}

/// A call into GL.
#[derive(Clone, Copy, Debug, PartialEq, Eq, Structural)]
pub enum GlCommand {
    /// `glViewport`
    Viewport(Rect),
    /// `glScissor`
    Scissor(Rect),
    /// `glDisable`
    Disable(u32),
    /// `glBlendFunc`, with the source and the destination factor.
    BlendFunc(u32, u32),
    /// `glClearColor`, with every channel zero.
    ClearColorZero,
}

/// `n`, but no less than one.
pub open spec fn at_least_one(n: i32) -> i32 {
    if n < 1 {
        1
    } else {
        n
    }
}

/// The rectangle of a surface of this size.
pub open spec fn surface_rect(width: i32, height: i32) -> Rect {
    Rect { x: 0, y: 0, width: at_least_one(width), height: at_least_one(height) }
}

/// `commands`, where `wanted` holds.
pub open spec fn only_if(wanted: bool, commands: Seq<GlCommand>) -> Seq<GlCommand> {
    if wanted {
        commands
    } else {
        seq![]
    }
}

/// The calls that give GDK its state back, in order.
pub open spec fn restoring_commands(
    width: i32,
    height: i32,
    resolved: ResolvedGl,
) -> Seq<GlCommand> {
    let rect = surface_rect(width, height);
    only_if(resolved.viewport, seq![GlCommand::Viewport(rect)]) + only_if(
        resolved.scissor,
        seq![GlCommand::Scissor(rect)],
    ) + only_if(
        resolved.disable,
        seq![GlCommand::Disable(GL_SCISSOR_TEST), GlCommand::Disable(GL_DEPTH_TEST)],
    ) + only_if(
        resolved.blend_func,
        seq![GlCommand::BlendFunc(GL_ONE, GL_ONE_MINUS_SRC_ALPHA)],
    ) + only_if(resolved.clear_color, seq![GlCommand::ClearColorZero])
}

/// `n`, but no less than one.
pub fn clamp_to_one(n: i32) -> (clamped: i32)
    ensures
        clamped == at_least_one(n),
        n >= 1 ==> clamped == n,
        n < 1 ==> clamped == 1,
{
    if n < 1 {
        1
    } else {
        n
    }
}

/// The calls that give GDK its state back on a surface of this size. A function that was not
/// resolved is left out.
pub fn restore_gdk_gl_state(width: i32, height: i32, resolved: ResolvedGl) -> (commands: Vec<
    GlCommand,
>)
    ensures
        commands@ == restoring_commands(width, height, resolved),
{
    let rect = Rect { x: 0, y: 0, width: clamp_to_one(width), height: clamp_to_one(height) };
    let mut commands: Vec<GlCommand> = Vec::new();
    if resolved.viewport {
        commands.push(GlCommand::Viewport(rect));
    }
    if resolved.scissor {
        commands.push(GlCommand::Scissor(rect));
    }
    if resolved.disable {
        commands.push(GlCommand::Disable(GL_SCISSOR_TEST));
        commands.push(GlCommand::Disable(GL_DEPTH_TEST));
    }
    if resolved.blend_func {
        commands.push(GlCommand::BlendFunc(GL_ONE, GL_ONE_MINUS_SRC_ALPHA));
    }
    if resolved.clear_color {
        commands.push(GlCommand::ClearColorZero);
    }
    commands
}

/// A model of the GL state that GDK counts on.
pub struct GlState {
    pub viewport: Rect,
    pub scissor: Rect,
    /// The capabilities that are switched on.
    pub enabled: Set<u32>,
    pub blend: (u32, u32),
    /// The clear colour has every channel zero.
    pub clears_to_zero: bool,
}

impl GlState {
    /// The state after a call, by its meaning in GL.
    pub open spec fn after(self, command: GlCommand) -> GlState {
        match command {
            GlCommand::Viewport(rect) => GlState { viewport: rect, ..self },
            GlCommand::Scissor(rect) => GlState { scissor: rect, ..self },
            GlCommand::Disable(capability) => GlState {
                enabled: self.enabled.remove(capability),
                ..self
            },
            GlCommand::BlendFunc(source, destination) => GlState {
                blend: (source, destination),
                ..self
            },
            GlCommand::ClearColorZero => GlState { clears_to_zero: true, ..self },
        }
    }

    /// The state after a row of calls.
    pub open spec fn after_all(self, commands: Seq<GlCommand>) -> GlState
        decreases commands.len(),
    {
        if commands.len() == 0 {
            self
        } else {
            self.after(commands.first()).after_all(commands.drop_first())
        }
    }
}

proof fn lemma_after_all_splits(state: GlState, front: Seq<GlCommand>, back: Seq<GlCommand>)
    ensures
        state.after_all(front + back) == state.after_all(front).after_all(back),
    decreases front.len(),
{
    if front.len() == 0 {
        assert(front + back =~= back);
    } else {
        assert((front + back).drop_first() =~= front.drop_first() + back);
        lemma_after_all_splits(state.after(front.first()), front.drop_first(), back);
    }
}

/// Whatever state mpv left behind, the calls set each part of it that a resolved function
/// reaches to what GDK needs, and leave the rest alone.
pub proof fn law_restoring_overrides_mpv(
    before: GlState,
    width: i32,
    height: i32,
    resolved: ResolvedGl,
)
    ensures
        ({
            let after = before.after_all(restoring_commands(width, height, resolved));
            let rect = surface_rect(width, height);
            &&& after.viewport == (if resolved.viewport { rect } else { before.viewport })
            &&& after.scissor == (if resolved.scissor { rect } else { before.scissor })
            &&& after.enabled == (if resolved.disable {
                before.enabled.remove(GL_SCISSOR_TEST).remove(GL_DEPTH_TEST)
            } else {
                before.enabled
            })
            &&& after.blend == (if resolved.blend_func {
                (GL_ONE, GL_ONE_MINUS_SRC_ALPHA)
            } else {
                before.blend
            })
            &&& after.clears_to_zero == (resolved.clear_color || before.clears_to_zero)
        }),
{
    reveal_with_fuel(GlState::after_all, 3);
    let rect = surface_rect(width, height);
    let viewport = only_if(resolved.viewport, seq![GlCommand::Viewport(rect)]);
    let scissor = only_if(resolved.scissor, seq![GlCommand::Scissor(rect)]);
    let disable = only_if(
        resolved.disable,
        seq![GlCommand::Disable(GL_SCISSOR_TEST), GlCommand::Disable(GL_DEPTH_TEST)],
    );
    let blend = only_if(
        resolved.blend_func,
        seq![GlCommand::BlendFunc(GL_ONE, GL_ONE_MINUS_SRC_ALPHA)],
    );
    let clear = only_if(resolved.clear_color, seq![GlCommand::ClearColorZero]);
    lemma_after_all_splits(before, viewport + scissor + disable + blend, clear);
    lemma_after_all_splits(before, viewport + scissor + disable, blend);
    lemma_after_all_splits(before, viewport + scissor, disable);
    lemma_after_all_splits(before, viewport, scissor);
    assert(seq![
        GlCommand::Disable(GL_SCISSOR_TEST),
        GlCommand::Disable(GL_DEPTH_TEST),
    ].drop_first() =~= seq![GlCommand::Disable(GL_DEPTH_TEST)]);
}

/// The restored state by its numbers. The viewport and the scissor box start at the origin and
/// are as wide and as high as the surface, with one in place of a side below one; the scissor
/// test (0x0C11) and the depth test (0x0B71) are off, and every other capability is as it was;
/// colours blend by one (1) and one minus source alpha (0x0303). What was not resolved stays.
pub proof fn law_restored_numbers(before: GlState, width: i32, height: i32, resolved: ResolvedGl)
    ensures
        ({
            let after = before.after_all(restoring_commands(width, height, resolved));
            &&& resolved.viewport ==> {
                &&& after.viewport.x == 0
                &&& after.viewport.y == 0
                &&& width >= 1 ==> after.viewport.width == width
                &&& width < 1 ==> after.viewport.width == 1
                &&& height >= 1 ==> after.viewport.height == height
                &&& height < 1 ==> after.viewport.height == 1
            }
            &&& resolved.scissor ==> {
                &&& after.scissor.x == 0
                &&& after.scissor.y == 0
                &&& width >= 1 ==> after.scissor.width == width
                &&& width < 1 ==> after.scissor.width == 1
                &&& height >= 1 ==> after.scissor.height == height
                &&& height < 1 ==> after.scissor.height == 1
            }
            &&& forall|capability: u32|
                after.enabled.contains(capability) <==> before.enabled.contains(capability) && !(
                resolved.disable && (capability == 0x0C11 || capability == 0x0B71))
            &&& resolved.blend_func ==> after.blend.0 == 1 && after.blend.1 == 0x0303
            &&& resolved.clear_color ==> after.clears_to_zero
            &&& !resolved.viewport ==> after.viewport == before.viewport
            &&& !resolved.scissor ==> after.scissor == before.scissor
            &&& !resolved.blend_func ==> after.blend == before.blend
            &&& !resolved.clear_color ==> after.clears_to_zero == before.clears_to_zero
        }),
{
    law_restoring_overrides_mpv(before, width, height, resolved);
}

} // verus!
