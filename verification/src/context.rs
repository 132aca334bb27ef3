//! The mpv render context: what it is made with, what it owns, and how it is let go.
//!
//! The handles of the outside world are type parameters: `C` is the mpv render context, `P`
//! the record that the GL lookup callback is given, `U` the record that the update callback is
//! given. An absent handle stands for a null pointer.

use vstd::prelude::*;

use crate::backend::Backend;
use crate::embed::Pending;
use crate::notice::{render_error, Notice};

verus! {

/// A parameter for `mpv_render_context_create`.
#[derive(Clone, Copy, Debug, PartialEq, Eq, Structural)]
pub enum InitParam {
    /// The API is OpenGL.
    ApiTypeOpenGl,
    /// The GL lookup callback and its record.
    OpenGlInit,
    /// The X11 display at this address.
    X11Display(u64),
    /// The Wayland display at this address.
    WlDisplay(u64),
    /// The end of the list.
    Invalid,
}

/// What mpv renders to.
#[derive(Clone, Copy, Debug, PartialEq, Eq, Structural)]
pub struct FboTarget {
    pub fbo: i32,
    pub width: i32,
    pub height: i32,
    pub internal_format: i32,
}

/// A parameter for `mpv_render_context_render`.
#[derive(Clone, Copy, Debug, PartialEq, Eq, Structural)]
pub enum RenderParam {
    /// The framebuffer to render to.
    OpenGlFbo(FboTarget),
    /// Whether to render upside down.
    FlipY(i32),
    /// The end of the list.
    Invalid,
}

/// The display parameter, where there is a native display.
pub open spec fn display_params(backend: Backend, display_native: u64) -> Seq<InitParam> {
    if display_native == 0 {
        seq![]
    } else {
        match backend {
            Backend::X11 => seq![InitParam::X11Display(display_native)],
            Backend::Wayland => seq![InitParam::WlDisplay(display_native)],
        }
    }
}

/// The parameters that a render context is made with.
pub open spec fn creation_params(backend: Backend, display_native: u64) -> Seq<InitParam> {
    seq![InitParam::ApiTypeOpenGl, InitParam::OpenGlInit] + display_params(backend, display_native)
        + seq![InitParam::Invalid]
}

/// The parameters that a frame is rendered with.
pub open spec fn frame_params(fbo: i32, width: i32, height: i32) -> Seq<RenderParam> {
    seq![
        RenderParam::OpenGlFbo(FboTarget { fbo, width, height, internal_format: 0 }),
        RenderParam::FlipY(1),
        RenderParam::Invalid,
    ]
}

/// The parameters that a render context is made with; a null display is left out.
pub fn init_params(backend: Backend, display_native: u64) -> (params: Vec<InitParam>)
    ensures
        params@ == creation_params(backend, display_native),
{
    let mut params: Vec<InitParam> = Vec::new();
    params.push(InitParam::ApiTypeOpenGl);
    params.push(InitParam::OpenGlInit);
    if display_native != 0 {
        match backend {
            Backend::X11 => {
                params.push(InitParam::X11Display(display_native));
            },
            Backend::Wayland => {
                params.push(InitParam::WlDisplay(display_native));
            },
        }
    }
    params.push(InitParam::Invalid);
    params
}

/// mpv takes both lists as C arrays that end at the first `Invalid`: each has exactly one, and
/// it stands last.
pub proof fn law_params_end_once(
    backend: Backend,
    display_native: u64,
    fbo: i32,
    width: i32,
    height: i32,
)
    ensures
        forall|i: int|
            0 <= i < creation_params(backend, display_native).len() ==> (#[trigger] creation_params(
                backend,
                display_native,
            )[i] is Invalid <==> i == creation_params(backend, display_native).len() - 1),
        forall|i: int|
            0 <= i < frame_params(fbo, width, height).len() ==> (#[trigger] frame_params(
                fbo,
                width,
                height,
            )[i] is Invalid <==> i == frame_params(fbo, width, height).len() - 1),
{
}

/// mpv is never given a null display, nor the display of the other backend.
pub proof fn law_display_belongs_to_backend(backend: Backend, display_native: u64)
    ensures
        forall|address: u64|
            creation_params(backend, display_native).contains(InitParam::X11Display(address))
                <==> backend is X11 && address == display_native && address != 0,
        forall|address: u64|
            creation_params(backend, display_native).contains(InitParam::WlDisplay(address))
                <==> backend is Wayland && address == display_native && address != 0,
{
    let params = creation_params(backend, display_native);
    if display_native != 0 {
        match backend {
            Backend::X11 => {
                assert(params[2] == InitParam::X11Display(display_native));
            },
            Backend::Wayland => {
                assert(params[2] == InitParam::WlDisplay(display_native));
            },
        }
    }
}

/// The parameters of a render context, one by one: the API, the GL lookup, the display where
/// there is one, and the end.
pub proof fn law_creation_params(backend: Backend, display_native: u64)
    ensures
        ({
            let params = creation_params(backend, display_native);
            &&& params[0] is ApiTypeOpenGl
            &&& params[1] is OpenGlInit
            &&& display_native == 0 ==> params.len() == 3 && params[2] is Invalid
            &&& display_native != 0 ==> params.len() == 4 && params[3] is Invalid
            &&& display_native != 0 && backend is X11 ==> params[2] == InitParam::X11Display(
                display_native,
            )
            &&& display_native != 0 && backend is Wayland ==> params[2] == InitParam::WlDisplay(
                display_native,
            )
        }),
{
}

/// A frame is rendered to the framebuffer, at the width and at the height that were asked for,
/// in the framebuffer's own format, and flipped.
pub proof fn law_frame_params(fbo: i32, width: i32, height: i32)
    ensures
        ({
            let params = frame_params(fbo, width, height);
            &&& params.len() == 3
            &&& params[0] matches RenderParam::OpenGlFbo(target) && {
                &&& target.fbo == fbo
                &&& target.width == width
                &&& target.height == height
                &&& target.internal_format == 0
            }
            &&& params[1] == RenderParam::FlipY(1)
            &&& params[2] is Invalid
        }),
{
}

/// A render context with what it owns.
pub struct LinuxRenderContext<C, P, U> {
    pub ctx: Option<C>,
    pub proc_ctx: Option<P>,
    pub update_cb: Option<U>,
}

/// Something to let go.
pub enum Release<C, P, U> {
    /// `mpv_render_context_free` it.
    Context(C),
    /// Free the record of the update callback.
    UpdateCallback(U),
    /// Free the record of the GL lookup callback.
    ProcLookup(P),
}

/// A row of at most one element.
pub open spec fn row_of<T>(item: Option<T>) -> Seq<T> {
    match item {
        Some(value) => seq![value],
        None => seq![],
    }
}

impl<C, P, U> LinuxRenderContext<C, P, U> {
    /// What the context owns, in the order in which it is let go.
    pub open spec fn owned(self) -> Seq<Release<C, P, U>> {
        row_of(
            match self.ctx {
                Some(ctx) => Some(Release::Context(ctx)),
                None => None,
            },
        ) + row_of(
            match self.update_cb {
                Some(update_cb) => Some(Release::UpdateCallback(update_cb)),
                None => None,
            },
        ) + row_of(
            match self.proc_ctx {
                Some(proc_ctx) => Some(Release::ProcLookup(proc_ctx)),
                None => None,
            },
        )
    }

    /// A context with all its records.
    pub open spec fn made_of(ctx: Option<C>, proc_ctx: P, update_cb: U) -> Self {
        LinuxRenderContext { ctx, proc_ctx: Some(proc_ctx), update_cb: Some(update_cb) }
    }

    /// A context whose update callback has just been set.
    pub fn new(ctx: Option<C>, proc_ctx: P, update_cb: U) -> (context: Self)
        ensures
            context == (LinuxRenderContext {
                ctx,
                proc_ctx: Some(proc_ctx),
                update_cb: Some(update_cb),
            }),
            context == Self::made_of(ctx, proc_ctx, update_cb),
    {
        LinuxRenderContext { ctx, proc_ctx: Some(proc_ctx), update_cb: Some(update_cb) }
    }

    /// The parameters to render a frame with, flipped because GL counts rows from below.
    pub fn render_to_fbo(&self, fbo: i32, width: i32, height: i32) -> (params: Vec<RenderParam>)
        ensures
            params@ == frame_params(fbo, width, height),
    {
        let mut params: Vec<RenderParam> = Vec::new();
        params.push(RenderParam::OpenGlFbo(FboTarget { fbo, width, height, internal_format: 0 }));
        params.push(RenderParam::FlipY(1));
        params.push(RenderParam::Invalid);
        params
    }

    /// Hands out what the context owns, in the order in which it is to be let go, and keeps
    /// nothing. The mpv context goes first: until then mpv may call into the two records.
    pub fn drop(&mut self) -> (parts: Vec<Release<C, P, U>>)
        ensures
            parts@ == old(self).owned(),
            final(self).ctx is None,
            final(self).proc_ctx is None,
            final(self).update_cb is None,
    {
        let mut parts: Vec<Release<C, P, U>> = Vec::new();
        if let Some(ctx) = self.ctx.take() {
            parts.push(Release::Context(ctx));
        }
        if let Some(update_cb) = self.update_cb.take() {
            parts.push(Release::UpdateCallback(update_cb));
        }
        if let Some(proc_ctx) = self.proc_ctx.take() {
            parts.push(Release::ProcLookup(proc_ctx));
        }
        parts
    }
}

/// What making a render context asks for.
#[derive(Debug, PartialEq, Eq)]
pub enum BuildAction<C, P> {
    /// Allocate the record of the GL lookup callback, for this backend.
    AllocateLookup(Backend),
    /// Call `mpv_render_context_create` for the mpv handle at this address, with the
    /// `init_params` of this backend and display, and with this record.
    Create { mpv: u64, backend: Backend, display_native: u64, proc_ctx: P },
    /// Free the record of the GL lookup callback.
    FreeLookup(P),
    /// Allocate the record of the update callback, and set the callback of this context.
    SetUpdateCallback(Option<C>),
    /// The context is made, or has failed.
    Finished,
}

/// What came of an action.
#[derive(Debug, PartialEq, Eq)]
pub enum BuildReply<C, P, U> {
    Lookup(P),
    /// The code that mpv gave, and the context that it wrote.
    Created { code: i32, ctx: Option<C> },
    Freed,
    Callback(U),
}

/// Making a render context, step by step.
pub enum Build<C, P, U> {
    Allocate(Pending),
    Create { pending: Pending, proc_ctx: P },
    Free { proc_ctx: P, code: i32 },
    Register { ctx: Option<C>, proc_ctx: P },
    /// The context, or the code that mpv gave, which `create_error` spells out.
    Finished(Result<LinuxRenderContext<C, P, U>, i32>),
}

/// Starts making the render context of an mpv handle.
pub fn build_render_context<C, P, U>(pending: Pending) -> (build: Build<C, P, U>)
    ensures
        build == Build::<C, P, U>::initial(pending),
        build == Build::<C, P, U>::Allocate(pending),
{
    Build::Allocate(pending)
}

impl<C, P, U> Build<C, P, U> {
    /// The first step of making the render context of an mpv handle.
    pub open spec fn initial(pending: Pending) -> Build<C, P, U> {
        Build::Allocate(pending)
    }
}

impl<C: Copy, P: Copy, U: Copy> Build<C, P, U> {
    /// What has to be done at this step.
    pub open spec fn due(self) -> BuildAction<C, P> {
        match self {
            Build::Allocate(pending) => BuildAction::AllocateLookup(pending.backend),
            Build::Create { pending, proc_ctx } => BuildAction::Create {
                mpv: pending.mpv,
                backend: pending.backend,
                display_native: pending.display_native,
                proc_ctx,
            },
            Build::Free { proc_ctx, .. } => BuildAction::FreeLookup(proc_ctx),
            Build::Register { ctx, .. } => BuildAction::SetUpdateCallback(ctx),
            Build::Finished(_) => BuildAction::Finished,
        }
    }

    /// The step that follows. A reply that does not answer the action that is due changes
    /// nothing.
    pub open spec fn answered(self, reply: BuildReply<C, P, U>) -> Build<C, P, U> {
        match (self, reply) {
            (Build::Allocate(pending), BuildReply::Lookup(proc_ctx)) => {
                Build::Create { pending, proc_ctx }
            },
            (Build::Create { proc_ctx, .. }, BuildReply::Created { code, ctx }) => if code != 0 {
                Build::Free { proc_ctx, code }
            } else {
                Build::Register { ctx, proc_ctx }
            },
            (Build::Free { code, .. }, BuildReply::Freed) => Build::Finished(Err(code)),
            (Build::Register { ctx, proc_ctx }, BuildReply::Callback(update_cb)) => {
                Build::Finished(
                    Ok(
                        LinuxRenderContext {
                            ctx,
                            proc_ctx: Some(proc_ctx),
                            update_cb: Some(update_cb),
                        },
                    ),
                )
            },
            _ => self,
        }
    }

    /// How many actions can still come.
    pub open spec fn left(self) -> nat {
        match self {
            Build::Allocate(_) => 3,
            Build::Create { .. } => 2,
            Build::Free { .. } => 1,
            Build::Register { .. } => 1,
            Build::Finished(_) => 0,
        }
    }

    /// What has to be done next.
    pub fn action(&self) -> (action: BuildAction<C, P>)
        ensures
            action == self.due(),
    {
        match self {
            Build::Allocate(pending) => BuildAction::AllocateLookup(pending.backend),
            Build::Create { pending, proc_ctx } => BuildAction::Create {
                mpv: pending.mpv,
                backend: pending.backend,
                display_native: pending.display_native,
                proc_ctx: *proc_ctx,
            },
            Build::Free { proc_ctx, code } => BuildAction::FreeLookup(*proc_ctx),
            Build::Register { ctx, proc_ctx } => BuildAction::SetUpdateCallback(*ctx),
            Build::Finished(result) => BuildAction::Finished,
        }
    }

    /// Takes what came of the action.
    pub fn answer(self, reply: BuildReply<C, P, U>) -> (next: Build<C, P, U>)
        ensures
            next == self.answered(reply),
    {
        match (self, reply) {
            (Build::Allocate(pending), BuildReply::Lookup(proc_ctx)) => {
                Build::Create { pending, proc_ctx }
            },
            (Build::Create { pending, proc_ctx }, BuildReply::Created { code, ctx }) => {
                if code != 0 {
                    Build::Free { proc_ctx, code }
                } else {
                    Build::Register { ctx, proc_ctx }
                }
            },
            (Build::Free { proc_ctx, code }, BuildReply::Freed) => Build::Finished(Err(code)),
            (Build::Register { ctx, proc_ctx }, BuildReply::Callback(update_cb)) => {
                Build::Finished(Ok(LinuxRenderContext::new(ctx, proc_ctx, update_cb)))
            },
            (unanswered, _) => unanswered,
        }
    }
}

/// A model of what making a context meets.
pub struct BuildWorld<C, P, U> {
    pub proc_ctx: P,
    pub code: i32,
    pub ctx: Option<C>,
    pub update_cb: U,
}

impl<C: Copy, P: Copy, U: Copy> BuildWorld<C, P, U> {
    /// What comes of an action.
    pub open spec fn reply(self, action: BuildAction<C, P>) -> BuildReply<C, P, U> {
        match action {
            BuildAction::AllocateLookup(_) => BuildReply::Lookup(self.proc_ctx),
            BuildAction::Create { .. } => BuildReply::Created { code: self.code, ctx: self.ctx },
            BuildAction::FreeLookup(_) => BuildReply::Freed,
            BuildAction::SetUpdateCallback(_) => BuildReply::Callback(self.update_cb),
            BuildAction::Finished => BuildReply::Freed,
        }
    }

    /// Runs the making of a context to its end: the actions, and the result.
    pub open spec fn run(self, build: Build<C, P, U>) -> (
        Seq<BuildAction<C, P>>,
        Result<LinuxRenderContext<C, P, U>, i32>,
    )
        decreases build.left(),
    {
        match build {
            Build::Finished(outcome) => (seq![], outcome),
            _ => {
                let (actions, outcome) = self.run(build.answered(self.reply(build.due())));
                (seq![build.due()] + actions, outcome)
            },
        }
    }
}

/// A context is made for the mpv handle that was prepared, with its backend and its display.
/// Making it leaks nothing: where mpv fails, the lookup record is freed, once, and no
/// update callback is set; where it succeeds, the context owns both records.
pub proof fn law_building<C: Copy, P: Copy, U: Copy>(
    pending: Pending,
    world: BuildWorld<C, P, U>,
)
    ensures
        ({
            let (actions, outcome) = world.run(Build::initial(pending));
            let proc_ctx = world.proc_ctx;
            &&& actions == seq![
                BuildAction::AllocateLookup(pending.backend),
                BuildAction::Create {
                    mpv: pending.mpv,
                    backend: pending.backend,
                    display_native: pending.display_native,
                    proc_ctx,
                },
                if world.code == 0 {
                    BuildAction::SetUpdateCallback(world.ctx)
                } else {
                    BuildAction::FreeLookup(proc_ctx)
                },
            ]
            &&& outcome == (if world.code == 0 {
                Ok(
                    LinuxRenderContext {
                        ctx: world.ctx,
                        proc_ctx: Some(proc_ctx),
                        update_cb: Some(world.update_cb),
                    },
                )
            } else {
                Err(world.code)
            })
        }),
{
    reveal_with_fuel(BuildWorld::run, 5);
    let (actions, outcome) = world.run(Build::initial(pending));
    assert(actions =~= seq![
        BuildAction::AllocateLookup(pending.backend),
        BuildAction::Create {
            mpv: pending.mpv,
            backend: pending.backend,
            display_native: pending.display_native,
            proc_ctx: world.proc_ctx,
        },
        if world.code == 0 {
            BuildAction::SetUpdateCallback(world.ctx)
        } else {
            BuildAction::FreeLookup(world.proc_ctx)
        },
    ]);
}

/// A reply that answers another action than the one that is due changes nothing, and a context
/// that is made or has failed stays so.
pub proof fn law_building_goes_by_turns<C: Copy, P: Copy, U: Copy>(
    build: Build<C, P, U>,
    reply: BuildReply<C, P, U>,
)
    requires
        build.due() is AllocateLookup ==> !(reply is Lookup),
        build.due() is Create ==> !(reply is Created),
        build.due() is FreeLookup ==> !(reply is Freed),
        build.due() is SetUpdateCallback ==> !(reply is Callback),
    ensures
        build.answered(reply) == build,
        build.due() is Finished <==> build is Finished,
{
}

/// The message of a frame that failed, by the code that `mpv_render_context_render` gave; `None`
/// where it did not fail.
pub open spec fn failure_of(code: i32) -> Option<Seq<char>> {
    if code == 0 {
        None
    } else {
        Some(crate::notice::render_failure(code as int))
    }
}

/// A frame failed exactly where mpv gave another code than zero, and the message shows it.
pub proof fn law_render_failure(code: i32)
    ensures
        failure_of(code) is None <==> code == 0,
        failure_of(code) matches Some(message) ==> message
            == "mpv_render_context_render failed: "@ + crate::text::decimal(code as int),
{
}

/// What rendering a frame came to, by the code that `mpv_render_context_render` gave.
pub fn render_outcome(code: i32) -> (outcome: Result<(), String>)
    ensures
        outcome is Ok <==> code == 0,
        outcome matches Err(message) ==> message@ == crate::notice::render_failure(code as int),
        outcome is Ok <==> failure_of(code) is None,
        outcome matches Err(message) ==> failure_of(code) == Some(message@),
{
    if code == 0 {
        Ok(())
    } else {
        Err(render_error(code))
    }
}

/// A context that is let go twice gives nothing the second time: no part is freed twice.
pub proof fn law_nothing_is_freed_twice<C, P, U>(emptied: LinuxRenderContext<C, P, U>)
    requires
        emptied.ctx is None,
        emptied.proc_ctx is None,
        emptied.update_cb is None,
    ensures
        emptied.owned() == Seq::<Release<C, P, U>>::empty(),
{
}

/// Everything that was acquired for a context is let go with it, once each, and the mpv context
/// before the records that it calls into.
pub proof fn law_every_part_is_freed<C, P, U>(ctx: C, proc_ctx: P, update_cb: U)
    ensures
        (LinuxRenderContext {
            ctx: Some(ctx),
            proc_ctx: Some(proc_ctx),
            update_cb: Some(update_cb),
        }).owned() == seq![
            Release::Context(ctx),
            Release::UpdateCallback(update_cb),
            Release::ProcLookup(proc_ctx),
        ],
{
}

/// What a context lets go, whatever parts it has: each part that it has, once, and nothing else;
/// the mpv context first, the record of the GL lookup last.
pub proof fn law_parts_are_let_go<C, P, U>(context: LinuxRenderContext<C, P, U>)
    ensures
        ({
            let owned = context.owned();
            let first: int = if context.ctx is Some { 1 } else { 0 };
            let second: int = if context.update_cb is Some { 1 } else { 0 };
            let third: int = if context.proc_ctx is Some { 1 } else { 0 };
            &&& owned.len() == first + second + third
            &&& context.ctx matches Some(ctx) ==> owned[0] == Release::<C, P, U>::Context(ctx)
            &&& context.update_cb matches Some(update_cb) ==> owned[first] == Release::<
                C,
                P,
                U,
            >::UpdateCallback(update_cb)
            &&& context.proc_ctx matches Some(proc_ctx) ==> owned[first + second] == Release::<
                C,
                P,
                U,
            >::ProcLookup(proc_ctx)
        }),
{
}

/// A context that was just made lets go exactly what it was made of.
pub proof fn law_new_context_owns_its_parts<C, P, U>(ctx: C, proc_ctx: P, update_cb: U)
    ensures
        LinuxRenderContext::made_of(Some(ctx), proc_ctx, update_cb).owned() == seq![
            Release::<C, P, U>::Context(ctx),
            Release::<C, P, U>::UpdateCallback(update_cb),
            Release::<C, P, U>::ProcLookup(proc_ctx),
        ],
        LinuxRenderContext::made_of(None::<C>, proc_ctx, update_cb).owned() == seq![
            Release::<C, P, U>::UpdateCallback(update_cb),
            Release::<C, P, U>::ProcLookup(proc_ctx),
        ],
{
}

/// Whether a signal goes on to the next handler.
#[derive(Clone, Copy, Debug, PartialEq, Eq, Structural)]
pub enum Propagation {
    Proceed,
    Stop,
}

/// What the render signal of the GL area asks for.
#[derive(Clone, Copy, Debug, PartialEq, Eq, Structural)]
pub enum SignalAction {
    /// Make the render context of this mpv handle.
    BuildContext(Pending),
    /// Draw a frame with the context.
    Draw,
    /// Return from the handler.
    Finish(Propagation),
}

/// Where the render handler keeps its mpv handle, and its context between frames.
pub struct RenderSlot<C, P, U> {
    pub pending: Pending,
    pub context: Option<LinuxRenderContext<C, P, U>>,
}

impl<C, P, U> RenderSlot<C, P, U> {
    /// What a render signal asks for first.
    pub open spec fn due(self) -> SignalAction {
        if self.context is None {
            SignalAction::BuildContext(self.pending)
        } else {
            SignalAction::Draw
        }
    }

    /// The slot once making a context came to `built`.
    pub open spec fn filled(self, built: Result<LinuxRenderContext<C, P, U>, i32>) -> Self {
        match built {
            Ok(context) => RenderSlot { context: Some(context), ..self },
            Err(_) => self,
        }
    }

    /// What a render signal asks for once making a context came to `built`, and what the log is
    /// told.
    pub open spec fn after_building(built: Result<LinuxRenderContext<C, P, U>, i32>) -> (
        SignalAction,
        Option<Notice>,
    ) {
        match built {
            Ok(_) => (SignalAction::Draw, None),
            Err(code) => (
                SignalAction::Finish(Propagation::Proceed),
                Some(Notice::ContextInitFailed(code)),
            ),
        }
    }

    /// What a render signal asks for once the frame is drawn.
    pub open spec fn after_drawing() -> SignalAction {
        SignalAction::Finish(Propagation::Stop)
    }

    /// The slot after a row of render signals, where making a context, if the signal asks for
    /// it, comes to what the row says.
    pub open spec fn after_signals(
        self,
        row: Seq<Result<LinuxRenderContext<C, P, U>, i32>>,
    ) -> Self
        decreases row.len(),
    {
        if row.len() == 0 {
            self
        } else {
            let before = self.after_signals(row.drop_last());
            if before.due() is BuildContext {
                before.filled(row.last())
            } else {
                before
            }
        }
    }

    /// A slot for an mpv handle, without a context.
    pub open spec fn initial(pending: Pending) -> Self {
        RenderSlot { pending, context: None }
    }

    /// A slot for an mpv handle, without a context.
    pub fn new(pending: Pending) -> (slot: Self)
        ensures
            slot == Self::initial(pending),
    {
        RenderSlot { pending, context: None }
    }

    /// What a render signal asks for first: a context is made on the first frame only.
    pub fn render_signal(&self) -> (action: SignalAction)
        ensures
            action == self.due(),
    {
        if self.context.is_none() {
            SignalAction::BuildContext(self.pending)
        } else {
            SignalAction::Draw
        }
    }

    /// Takes the context that was made, or the code that making it failed with. After a
    /// failure the slot stays empty, so that the next signal tries again.
    pub fn context_built(
        &mut self,
        built: Result<LinuxRenderContext<C, P, U>, i32>,
    ) -> (next: (SignalAction, Option<Notice>))
        requires
            old(self).context is None,
        ensures
            *final(self) == old(self).filled(built),
            next == match built {
                Ok(_) => (SignalAction::Draw, None::<Notice>),
                Err(code) => (
                    SignalAction::Finish(Propagation::Proceed),
                    Some(Notice::ContextInitFailed(code)),
                ),
            },
            next == Self::after_building(built),
    {
        match built {
            Ok(context) => {
                self.context = Some(context);
                (SignalAction::Draw, None)
            },
            Err(code) => (
                SignalAction::Finish(Propagation::Proceed),
                Some(Notice::ContextInitFailed(code)),
            ),
        }
    }

    /// What a render signal asks for once the frame is drawn.
    pub fn frame_drawn(&self) -> (action: SignalAction)
        ensures
            action == SignalAction::Finish(Propagation::Stop),
            action == Self::after_drawing(),
    {
        SignalAction::Finish(Propagation::Stop)
    }
}

/// Making a context is tried on every render signal until it succeeds, and never again: after
/// any row of signals the slot holds the first context that was made, and where none was, the
/// next signal asks for one once more. The mpv handle stays the one that the slot was made for.
pub proof fn law_first_context_is_kept<C, P, U>(
    pending: Pending,
    row: Seq<Result<LinuxRenderContext<C, P, U>, i32>>,
    first: int,
)
    requires
        0 <= first <= row.len(),
        forall|i: int| 0 <= i < first ==> (#[trigger] row[i]) is Err,
        first < row.len() ==> row[first] is Ok,
    ensures
        ({
            let slot = RenderSlot::<C, P, U>::initial(pending).after_signals(row);
            &&& slot.pending == pending
            &&& first < row.len() ==> {
                &&& slot.context == Some(row[first]->Ok_0)
                &&& slot.due() == SignalAction::Draw
            }
            &&& first == row.len() ==> {
                &&& slot.context is None
                &&& slot.due() == SignalAction::BuildContext(pending)
            }
        }),
    decreases row.len(),
{
    if row.len() > 0 {
        let earlier = row.drop_last();
        let found: int = if first < earlier.len() {
            first
        } else {
            earlier.len() as int
        };
        law_first_context_is_kept(pending, earlier, found);
    }
}

/// One render signal, whatever the slot holds. A slot with a context draws at once; one without
/// asks for a context for its own mpv handle. A context that was made is kept as it is, and
/// drawn with; a failure keeps the slot as it was, tells the log the code that mpv gave, and
/// lets the signal go on. A frame that was drawn stops the signal.
pub proof fn law_render_signal<C, P, U>(
    slot: RenderSlot<C, P, U>,
    built: Result<LinuxRenderContext<C, P, U>, i32>,
)
    ensures
        slot.context is Some ==> slot.due() is Draw,
        slot.context is None ==> slot.due() == SignalAction::BuildContext(slot.pending),
        built matches Ok(context) ==> {
            &&& slot.filled(built).context == Some(context)
            &&& slot.filled(built).pending == slot.pending
            &&& RenderSlot::<C, P, U>::after_building(built).0 is Draw
            &&& RenderSlot::<C, P, U>::after_building(built).1 is None
        },
        built matches Err(code) ==> {
            &&& slot.filled(built).context == slot.context
            &&& slot.filled(built).pending == slot.pending
            &&& RenderSlot::<C, P, U>::after_building(built).0 == SignalAction::Finish(
                Propagation::Proceed,
            )
            &&& RenderSlot::<C, P, U>::after_building(built).1 == Some(
                Notice::ContextInitFailed(code),
            )
        },
        RenderSlot::<C, P, U>::after_drawing() == SignalAction::Finish(Propagation::Stop),
        RenderSlot::<C, P, U>::initial(slot.pending).context is None,
        RenderSlot::<C, P, U>::initial(slot.pending).pending == slot.pending,
{
}

} // verus!
