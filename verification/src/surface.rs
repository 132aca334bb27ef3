//! Drawing one frame: the surface that is rendered to, and the steps from the bound
//! framebuffer to the restored GL state.

use vstd::prelude::*;

use crate::context::render_outcome;
use crate::embed::Command;
use crate::framebuffer::{current_fbo, Size};
use crate::gl_state::clamp_to_one;
use crate::notice::Notice;

verus! {

/// A size in one word: the width in the upper half, the height in the lower half.
pub open spec fn packed(size: Size) -> u64 {
    ((size.width as u64) << 32) | (size.height as u32 as u64)
}

/// What is remembered from frame to frame.
#[derive(Clone, Copy, Debug, PartialEq, Eq, Structural)]
pub struct SurfaceState {
    /// The size that was measured last, or one that is not positive where it has to be
    /// measured anew.
    pub size: Size,
    /// The size that was rendered last, packed; zero before the first frame.
    pub last_surface: u64,
    /// The warning about framebuffer zero was given.
    pub fbo_zero_warned: bool,
}

fn pack(size: Size) -> (word: u64)
    ensures
        word == packed(size),
{
    ((size.width as u64) << 32) | (size.height as u32 as u64)
}

/// Different sizes are packed into different words, and no positive size into zero.
pub proof fn law_packing_tells_sizes_apart(a: Size, b: Size)
    ensures
        packed(a) == packed(b) <==> a == b,
        a.is_positive() ==> packed(a) != 0,
        a.is_positive() ==> packed(a) == a.width * 0x1_0000_0000 + a.height,
{
    let (aw, ah, bw, bh) = (a.width, a.height, b.width, b.height);
    assert((((aw as u64) << 32) | (ah as u32 as u64)) == (((bw as u64) << 32) | (bh as u32 as u64))
        ==> aw == bw && ah == bh) by (bit_vector);
    assert(aw > 0 && ah > 0 ==> (((aw as u64) << 32) | (ah as u32 as u64)) == aw * 0x1_0000_0000
        + ah) by (bit_vector);
}

/// The size that stands for "measure anew".
pub open spec fn unmeasured() -> Size {
    Size { width: -1i32, height: -1i32 }
}

impl SurfaceState {
    /// What is remembered before the first frame.
    pub open spec fn initial() -> SurfaceState {
        SurfaceState { size: unmeasured(), last_surface: 0, fbo_zero_warned: false }
    }

    /// What is remembered before the first frame.
    pub fn new() -> (surface: SurfaceState)
        ensures
            surface == SurfaceState::initial(),
            surface == (SurfaceState {
                size: unmeasured(),
                last_surface: 0,
                fbo_zero_warned: false,
            }),
    {
        SurfaceState {
            size: Size { width: -1, height: -1 },
            last_surface: 0,
            fbo_zero_warned: false,
        }
    }

    /// Takes a resize of the GL area: forgets the measured size, and asks for a new render.
    pub fn area_resized(&mut self) -> (command: Command)
        ensures
            *final(self) == old(self).invalidated(),
            command == Command::QueueRender,
    {
        self.size = Size { width: -1, height: -1 };
        Command::QueueRender
    }

    /// The state without its measured size.
    pub open spec fn invalidated(self) -> SurfaceState {
        SurfaceState { size: unmeasured(), ..self }
    }

    /// The state once a frame of this size goes to framebuffer `fbo`.
    pub open spec fn settled(self, fbo: i32, size: Size) -> SurfaceState {
        SurfaceState {
            size,
            last_surface: packed(size),
            fbo_zero_warned: self.fbo_zero_warned || fbo == 0,
        }
    }

    /// What the log is told as a frame of this size goes to framebuffer `fbo`: the size where
    /// it is another than before, and the warning about framebuffer zero the first time.
    pub open spec fn settling_notices(self, fbo: i32, size: Size) -> Seq<Notice> {
        (if self.last_surface != packed(size) {
            seq![Notice::RenderSurface { width: size.width, height: size.height }]
        } else {
            seq![]
        }) + (if fbo == 0 && !self.fbo_zero_warned {
            seq![Notice::FramebufferZero]
        } else {
            seq![]
        })
    }

    fn settle(&mut self, fbo: i32, size: Size) -> (notices: Vec<Notice>)
        ensures
            *final(self) == old(self).settled(fbo, size),
            notices@ == old(self).settling_notices(fbo, size),
    {
        let mut notices: Vec<Notice> = Vec::new();
        self.size = size;
        let word: u64 = pack(size);
        if self.last_surface != word {
            notices.push(Notice::RenderSurface { width: size.width, height: size.height });
        }
        self.last_surface = word;
        if fbo == 0 && !self.fbo_zero_warned {
            self.fbo_zero_warned = true;
            notices.push(Notice::FramebufferZero);
        }
        notices
    }
}

/// What drawing a frame asks for.
#[derive(Clone, Copy, Debug, PartialEq, Eq, Structural)]
pub enum FrameAction {
    /// Attach the buffers of the GL area.
    AttachBuffers,
    /// Ask which framebuffer is bound.
    ReadBinding,
    /// Measure the framebuffer.
    MeasureFramebuffer,
    /// Read the size that GTK allocated to the area.
    ReadAllocation,
    /// Let mpv render.
    Render { fbo: i32, size: Size },
    /// Give GDK its GL state back, on a surface of this size.
    RestoreGl(Size),
    /// The frame is drawn.
    Finished,
}

/// What came of an action.
#[derive(Clone, Copy, Debug, PartialEq, Eq, Structural)]
pub enum FrameReply {
    /// It is done.
    Done,
    /// The bound framebuffer; `None` where it could not be asked for.
    Binding(Option<i32>),
    /// The measured size, if any.
    Measured(Option<Size>),
    /// The allocated size.
    Allocated(Size),
    /// The code that mpv gave.
    Rendered(i32),
}

/// Drawing a frame, step by step.
#[derive(Clone, Copy, Debug, PartialEq, Eq, Structural)]
pub enum Frame {
    Attach,
    Binding,
    Measure { fbo: i32 },
    Allocation { fbo: i32 },
    Render { fbo: i32, size: Size },
    Restore { size: Size },
    Finished,
}

/// Starts drawing a frame.
pub fn do_render() -> (frame: Frame)
    ensures
        frame == Frame::initial(),
        frame == Frame::Attach,
{
    Frame::Attach
}

/// The framebuffer to render to.
pub open spec fn target_fbo(binding: Option<i32>) -> i32 {
    match binding {
        Some(id) => id,
        None => 0,
    }
}

/// An allocated size, no side of it less than one.
pub open spec fn clamped(size: Size) -> Size {
    Size {
        width: crate::gl_state::at_least_one(size.width),
        height: crate::gl_state::at_least_one(size.height),
    }
}

impl Frame {
    /// The first step of a frame.
    pub open spec fn initial() -> Frame {
        Frame::Attach
    }

    /// What has to be done at this step.
    pub open spec fn due(self) -> FrameAction {
        match self {
            Frame::Attach => FrameAction::AttachBuffers,
            Frame::Binding => FrameAction::ReadBinding,
            Frame::Measure { .. } => FrameAction::MeasureFramebuffer,
            Frame::Allocation { .. } => FrameAction::ReadAllocation,
            Frame::Render { fbo, size } => FrameAction::Render { fbo, size },
            Frame::Restore { size } => FrameAction::RestoreGl(size),
            Frame::Finished => FrameAction::Finished,
        }
    }

    /// The step that follows, what is remembered from then on, and what the log is told. A
    /// reply that does not answer the action that is due changes nothing.
    pub open spec fn answered(
        self,
        surface: SurfaceState,
        reply: FrameReply,
    ) -> (Frame, SurfaceState, Seq<Notice>) {
        match (self, reply) {
            (Frame::Attach, FrameReply::Done) => (Frame::Binding, surface, seq![]),
            (Frame::Binding, FrameReply::Binding(binding)) => {
                let fbo = target_fbo(binding);
                if surface.size.is_positive() {
                    Frame::settling(surface, fbo, surface.size)
                } else {
                    (Frame::Measure { fbo }, surface, seq![])
                }
            },
            (Frame::Measure { fbo }, FrameReply::Measured(Some(size))) => Frame::settling(
                surface,
                fbo,
                size,
            ),
            (Frame::Measure { fbo }, FrameReply::Measured(None)) => (
                Frame::Allocation { fbo },
                surface,
                seq![],
            ),
            (Frame::Allocation { fbo }, FrameReply::Allocated(size)) => Frame::settling(
                surface,
                fbo,
                clamped(size),
            ),
            (Frame::Render { size, .. }, FrameReply::Rendered(code)) => (
                Frame::Restore { size },
                surface,
                if code == 0 {
                    seq![]
                } else {
                    seq![Notice::RenderFailed(code)]
                },
            ),
            (Frame::Restore { .. }, FrameReply::Done) => (Frame::Finished, surface, seq![]),
            _ => (self, surface, seq![]),
        }
    }

    /// Going on to render a frame of this size.
    pub open spec fn settling(surface: SurfaceState, fbo: i32, size: Size) -> (
        Frame,
        SurfaceState,
        Seq<Notice>,
    ) {
        (
            Frame::Render { fbo, size },
            surface.settled(fbo, size),
            surface.settling_notices(fbo, size),
        )
    }

    /// What has to be done next.
    pub fn action(self) -> (action: FrameAction)
        ensures
            action == self.due(),
    {
        match self {
            Frame::Attach => FrameAction::AttachBuffers,
            Frame::Binding => FrameAction::ReadBinding,
            Frame::Measure { fbo } => FrameAction::MeasureFramebuffer,
            Frame::Allocation { fbo } => FrameAction::ReadAllocation,
            Frame::Render { fbo, size } => FrameAction::Render { fbo, size },
            Frame::Restore { size } => FrameAction::RestoreGl(size),
            Frame::Finished => FrameAction::Finished,
        }
    }

    /// Takes what came of the action, and gives the next step and what to tell the log.
    ///
    /// The framebuffer is measured on the first frame and after a resize only: the result is
    /// kept in `surface`, so that not every frame waits for GL. Where it cannot be measured,
    /// the size that GTK allocated takes its place.
    pub fn answer(self, surface: &mut SurfaceState, reply: FrameReply) -> (next: (
        Frame,
        Vec<Notice>,
    ))
        ensures
            (next.0, *final(surface), next.1@) == self.answered(*old(surface), reply),
    {
        match (self, reply) {
            (Frame::Attach, FrameReply::Done) => (Frame::Binding, Vec::new()),
            (Frame::Binding, FrameReply::Binding(binding)) => {
                let fbo: i32 = current_fbo(binding);
                let size = surface.size;
                if size.width <= 0 || size.height <= 0 {
                    (Frame::Measure { fbo }, Vec::new())
                } else {
                    let notices = surface.settle(fbo, size);
                    (Frame::Render { fbo, size }, notices)
                }
            },
            (Frame::Measure { fbo }, FrameReply::Measured(measured)) => match measured {
                Some(size) => {
                    let notices = surface.settle(fbo, size);
                    (Frame::Render { fbo, size }, notices)
                },
                None => (Frame::Allocation { fbo }, Vec::new()),
            },
            (Frame::Allocation { fbo }, FrameReply::Allocated(allocated)) => {
                let size = Size {
                    width: clamp_to_one(allocated.width),
                    height: clamp_to_one(allocated.height),
                };
                let notices = surface.settle(fbo, size);
                (Frame::Render { fbo, size }, notices)
            },
            (Frame::Render { fbo, size }, FrameReply::Rendered(code)) => {
                let mut notices: Vec<Notice> = Vec::new();
                if render_outcome(code).is_err() {
                    notices.push(Notice::RenderFailed(code));
                }
                (Frame::Restore { size }, notices)
            },
            (Frame::Restore { size }, FrameReply::Done) => (Frame::Finished, Vec::new()),
            _ => (self, Vec::new()),
        }
    }
}

/// A model of what one frame meets.
pub struct FrameWorld {
    pub binding: Option<i32>,
    /// Which of the three GL functions that measuring takes were resolved.
    pub get_attachment: bool,
    pub bind_renderbuffer: bool,
    pub get_renderbuffer: bool,
    /// The GL objects that measuring looks at.
    pub objects: crate::framebuffer::GlObjects,
    pub allocated: Size,
    pub code: i32,
}

impl FrameWorld {
    /// What comes of an action.
    pub open spec fn reply(self, action: FrameAction) -> FrameReply {
        match action {
            FrameAction::AttachBuffers => FrameReply::Done,
            FrameAction::ReadBinding => FrameReply::Binding(self.binding),
            FrameAction::MeasureFramebuffer => FrameReply::Measured(self.measured()),
            FrameAction::ReadAllocation => FrameReply::Allocated(self.allocated),
            FrameAction::Render { .. } => FrameReply::Rendered(self.code),
            FrameAction::RestoreGl(_) => FrameReply::Done,
            FrameAction::Finished => FrameReply::Done,
        }
    }

    /// What measuring the framebuffer gives.
    pub open spec fn measured(self) -> Option<Size> {
        crate::framebuffer::measured(
            crate::framebuffer::query_start(
                self.get_attachment,
                self.bind_renderbuffer,
                self.get_renderbuffer,
            ),
            self.objects,
        ).0
    }

    /// The size that a frame is rendered at.
    pub open spec fn size_for(self, surface: SurfaceState) -> Size {
        if surface.size.is_positive() {
            surface.size
        } else {
            match self.measured() {
                Some(size) => size,
                None => clamped(self.allocated),
            }
        }
    }
}

/// A frame from some step to its end: the actions, what the log is told, and what is
/// remembered.
pub struct FrameRun {
    pub actions: Seq<FrameAction>,
    pub notices: Seq<Notice>,
    pub surface: SurfaceState,
}

/// How many actions can still come.
pub open spec fn frame_left(frame: Frame) -> nat {
    match frame {
        Frame::Attach => 6,
        Frame::Binding => 5,
        Frame::Measure { .. } => 4,
        Frame::Allocation { .. } => 3,
        Frame::Render { .. } => 2,
        Frame::Restore { .. } => 1,
        Frame::Finished => 0,
    }
}

/// Runs a frame to its end.
pub open spec fn frame_run(frame: Frame, surface: SurfaceState, world: FrameWorld) -> FrameRun
    decreases frame_left(frame),
{
    if frame.due() is Finished {
        FrameRun { actions: seq![], notices: seq![], surface }
    } else {
        let (next, kept, told) = frame.answered(surface, world.reply(frame.due()));
        let rest = frame_run(next, kept, world);
        FrameRun {
            actions: seq![frame.due()] + rest.actions,
            notices: told + rest.notices,
            surface: rest.surface,
        }
    }
}

/// The actions that find the size of the surface, where it is not known.
pub open spec fn sizing_actions(surface: SurfaceState, world: FrameWorld) -> Seq<FrameAction> {
    if surface.size.is_positive() {
        seq![]
    } else if world.measured() is Some {
        seq![FrameAction::MeasureFramebuffer]
    } else {
        seq![FrameAction::MeasureFramebuffer, FrameAction::ReadAllocation]
    }
}

/// A whole frame. The buffers are attached, the bound framebuffer is asked for, the size is
/// found where it is not known, mpv renders once, and GDK gets its GL state back on a surface
/// of the size that was rendered, whether or not mpv failed.
pub proof fn law_frame(surface: SurfaceState, world: FrameWorld)
    ensures
        ({
            let run = frame_run(Frame::initial(), surface, world);
            let fbo = target_fbo(world.binding);
            let size = world.size_for(surface);
            &&& run.actions == seq![FrameAction::AttachBuffers, FrameAction::ReadBinding]
                + sizing_actions(surface, world) + seq![
                FrameAction::Render { fbo, size },
                FrameAction::RestoreGl(size),
            ]
            &&& run.notices == surface.settling_notices(fbo, size) + (if world.code == 0 {
                seq![]
            } else {
                seq![Notice::RenderFailed(world.code)]
            })
            &&& run.surface == surface.settled(fbo, size)
        }),
{
    reveal_with_fuel(frame_run, 8);
    let run = frame_run(Frame::initial(), surface, world);
    let fbo = target_fbo(world.binding);
    let size = world.size_for(surface);
    assert(run.actions =~= seq![FrameAction::AttachBuffers, FrameAction::ReadBinding]
        + sizing_actions(surface, world) + seq![
        FrameAction::Render { fbo, size },
        FrameAction::RestoreGl(size),
    ]);
    assert(run.notices =~= surface.settling_notices(fbo, size) + (if world.code == 0 {
        seq![]
    } else {
        seq![Notice::RenderFailed(world.code)]
    }));
}

proof fn lemma_frame_sizes_are_positive(surface: SurfaceState, world: FrameWorld)
    ensures
        world.measured() matches Some(size) ==> size.is_positive(),
        world.size_for(surface).is_positive(),
{
    crate::framebuffer::law_measuring(world.objects);
}

/// What is remembered after a row of frames.
pub open spec fn after_frames(surface: SurfaceState, row: Seq<FrameWorld>) -> SurfaceState
    decreases row.len(),
{
    if row.len() == 0 {
        surface
    } else {
        frame_run(Frame::initial(), after_frames(surface, row.drop_last()), row.last()).surface
    }
}

proof fn lemma_frames_keep_the_size(surface: SurfaceState, row: Seq<FrameWorld>)
    requires
        surface.size.is_positive(),
    ensures
        after_frames(surface, row).size == surface.size,
    decreases row.len(),
{
    if row.len() > 0 {
        let before = row.drop_last();
        lemma_frames_keep_the_size(surface, before);
        law_frame(after_frames(surface, before), row.last());
    }
}

/// A size that was found once is kept: until the area is resized, every later frame is rendered
/// at the size of the first one, whatever GL and GTK would say by then, and measures nothing.
pub proof fn law_size_is_kept_until_resize(
    surface: SurfaceState,
    first: FrameWorld,
    later: Seq<FrameWorld>,
    i: int,
)
    requires
        0 <= i < later.len(),
    ensures
        ({
            let size = first.size_for(surface);
            let kept = frame_run(Frame::initial(), surface, first).surface;
            let run = frame_run(Frame::initial(), after_frames(kept, later.take(i)), later[i]);
            let fbo = target_fbo(later[i].binding);
            run.actions == seq![
                FrameAction::AttachBuffers,
                FrameAction::ReadBinding,
                FrameAction::Render { fbo, size },
                FrameAction::RestoreGl(size),
            ]
        }),
{
    let kept = frame_run(Frame::initial(), surface, first).surface;
    law_frame(surface, first);
    lemma_frame_sizes_are_positive(surface, first);
    lemma_frames_keep_the_size(kept, later.take(i));
    law_frame(after_frames(kept, later.take(i)), later[i]);
}

/// After a resize, whatever was known before, the next frame measures.
pub proof fn law_resize_forces_measuring(surface: SurfaceState, world: FrameWorld)
    ensures
        frame_run(Frame::initial(), surface.invalidated(), world).actions[2]
            == FrameAction::MeasureFramebuffer,
{
    law_frame(surface.invalidated(), world);
}

/// mpv is only ever asked to render at a positive size.
pub proof fn law_rendered_sizes_are_positive(surface: SurfaceState, world: FrameWorld)
    ensures
        forall|fbo: i32, size: Size|
            frame_run(Frame::initial(), surface, world).actions.contains(
                FrameAction::Render { fbo, size },
            ) ==> size.is_positive(),
{
    law_frame(surface, world);
    lemma_frame_sizes_are_positive(surface, world);
}

/// The log is told a size when a frame is rendered at another size than the frame before, and
/// only then.
pub proof fn law_size_is_told_when_it_changes(
    surface: SurfaceState,
    first: FrameWorld,
    between: bool,
    second: FrameWorld,
)
    ensures
        ({
            let kept = frame_run(Frame::initial(), surface, first).surface;
            let met = if between {
                kept.invalidated()
            } else {
                kept
            };
            let size = second.size_for(met);
            frame_run(Frame::initial(), met, second).notices.contains(
                Notice::RenderSurface { width: size.width, height: size.height },
            ) <==> size != first.size_for(surface)
        }),
{
    let kept = frame_run(Frame::initial(), surface, first).surface;
    let met = if between {
        kept.invalidated()
    } else {
        kept
    };
    let size = second.size_for(met);
    law_frame(surface, first);
    law_frame(met, second);
    law_packing_tells_sizes_apart(size, first.size_for(surface));
    if size != first.size_for(surface) {
        assert(frame_run(Frame::initial(), met, second).notices[0] == (Notice::RenderSurface {
            width: size.width,
            height: size.height,
        }));
    }
}

/// What happens to the surface over time.
pub enum SurfaceEvent {
    Frame(FrameWorld),
    Resize,
}

/// What the log is told over a row of events.
pub open spec fn told_over(surface: SurfaceState, events: Seq<SurfaceEvent>) -> Seq<Notice>
    decreases events.len(),
{
    if events.len() == 0 {
        seq![]
    } else {
        match events.first() {
            SurfaceEvent::Frame(world) => {
                let run = frame_run(Frame::initial(), surface, world);
                run.notices + told_over(run.surface, events.drop_first())
            },
            SurfaceEvent::Resize => told_over(surface.invalidated(), events.drop_first()),
        }
    }
}

proof fn lemma_warned_stays_silent(surface: SurfaceState, events: Seq<SurfaceEvent>)
    requires
        surface.fbo_zero_warned,
    ensures
        !told_over(surface, events).contains(Notice::FramebufferZero),
    decreases events.len(),
{
    if events.len() > 0 {
        match events.first() {
            SurfaceEvent::Frame(world) => {
                law_frame(surface, world);
                lemma_warned_stays_silent(
                    frame_run(Frame::initial(), surface, world).surface,
                    events.drop_first(),
                );
            },
            SurfaceEvent::Resize => {
                lemma_warned_stays_silent(surface.invalidated(), events.drop_first());
            },
        }
    }
}

/// Over any row of frames and resizes, the warning about framebuffer zero is given at most once.
pub proof fn law_framebuffer_zero_is_warned_of_once(
    surface: SurfaceState,
    events: Seq<SurfaceEvent>,
    i: int,
    j: int,
)
    requires
        0 <= i < told_over(surface, events).len(),
        0 <= j < told_over(surface, events).len(),
        told_over(surface, events)[i] is FramebufferZero,
        told_over(surface, events)[j] is FramebufferZero,
    ensures
        i == j,
    decreases events.len(),
{
    let told = told_over(surface, events);
    match events.first() {
        SurfaceEvent::Frame(world) => {
            law_frame(surface, world);
            let run = frame_run(Frame::initial(), surface, world);
            let rest = told_over(run.surface, events.drop_first());
            let own = run.notices.len() as int;
            if run.surface.fbo_zero_warned {
                lemma_warned_stays_silent(run.surface, events.drop_first());
                assert(i >= own ==> rest[i - own] == told[i]);
                assert(j >= own ==> rest[j - own] == told[j]);
            } else {
                assert(i >= own && j >= own);
                law_framebuffer_zero_is_warned_of_once(
                    run.surface,
                    events.drop_first(),
                    i - own,
                    j - own,
                );
            }
        },
        SurfaceEvent::Resize => {
            law_framebuffer_zero_is_warned_of_once(
                surface.invalidated(),
                events.drop_first(),
                i,
                j,
            );
        },
    }
}

/// The event is a frame that goes to framebuffer zero.
pub open spec fn goes_to_zero(event: SurfaceEvent) -> bool {
    event matches SurfaceEvent::Frame(world) && target_fbo(world.binding) == 0
}

/// The warning about framebuffer zero comes with the first frame that goes there: not before
/// it, and not at all where there is none.
pub proof fn law_framebuffer_zero_is_warned_of_at_first(
    surface: SurfaceState,
    events: Seq<SurfaceEvent>,
    first: int,
)
    requires
        !surface.fbo_zero_warned,
        0 <= first <= events.len(),
        forall|i: int| 0 <= i < first ==> !goes_to_zero(#[trigger] events[i]),
        first < events.len() ==> goes_to_zero(events[first]),
    ensures
        !told_over(surface, events.take(first)).contains(Notice::FramebufferZero),
        first < events.len() ==> told_over(surface, events.take(first + 1)).contains(
            Notice::FramebufferZero,
        ),
    decreases first,
{
    if first == 0 {
        if events.len() > 0 {
            let row = events.take(1);
            let world = row.first()->Frame_0;
            assert(goes_to_zero(events[0]));
            law_frame(surface, world);
            let run = frame_run(Frame::initial(), surface, world);
            let size = world.size_for(surface);
            let settling = surface.settling_notices(0, size);
            assert(settling.last() is FramebufferZero);
            assert(told_over(surface, row)[settling.len() - 1] == run.notices[settling.len() - 1]);
        }
    } else {
        let rest = events.drop_first();
        assert(!goes_to_zero(events[0]));
        assert forall|i: int| 0 <= i < first - 1 implies !goes_to_zero(#[trigger] rest[i]) by {
            assert(rest[i] == events[i + 1]);
        }
        assert(events.take(first).drop_first() =~= rest.take(first - 1));
        if first < events.len() {
            assert(events.take(first + 1).drop_first() =~= rest.take(first));
        }
        match events.first() {
            SurfaceEvent::Frame(world) => {
                law_frame(surface, world);
                let run = frame_run(Frame::initial(), surface, world);
                law_framebuffer_zero_is_warned_of_at_first(run.surface, rest, first - 1);
                if first < events.len() {
                    let later = told_over(run.surface, rest.take(first));
                    let at = choose|at: int|
                        0 <= at < later.len() && later[at] == Notice::FramebufferZero;
                    assert((run.notices + later)[run.notices.len() + at]
                        == Notice::FramebufferZero);
                }
            },
            SurfaceEvent::Resize => {
                law_framebuffer_zero_is_warned_of_at_first(
                    surface.invalidated(),
                    rest,
                    first - 1,
                );
            },
        }
    }
}

/// A whole frame by its values.
///
/// mpv renders exactly once, to the framebuffer whose id was read, whatever that id is, and to
/// framebuffer zero only where none could be read. The size is the one that is remembered where
/// both its sides are positive; else that of the attached renderbuffer, where all three GL
/// functions are there, the attachment is a renderbuffer (0x8D41) with a positive name, and both
/// its sides are positive; else the one that GTK allocated, with one in place of a side below
/// one. GDK gets its state back last, on a surface of that size. The size is remembered, and as
/// the width times two to the 32nd plus the height it is what the next frame compares with.
pub proof fn law_frame_values(surface: SurfaceState, world: FrameWorld)
    ensures
        ({
            let run = frame_run(Frame::initial(), surface, world);
            let known = surface.size.width > 0 && surface.size.height > 0;
            let own = (world.objects.sizes)(world.objects.name as u32);
            let measurable = world.get_attachment && world.bind_renderbuffer
                && world.get_renderbuffer && world.objects.kind == 0x8D41 && world.objects.name > 0
                && own.width > 0 && own.height > 0;
            let width: int = if known {
                surface.size.width as int
            } else if measurable {
                own.width as int
            } else if world.allocated.width >= 1 {
                world.allocated.width as int
            } else {
                1
            };
            let height: int = if known {
                surface.size.height as int
            } else if measurable {
                own.height as int
            } else if world.allocated.height >= 1 {
                world.allocated.height as int
            } else {
                1
            };
            let last = run.actions.len() - 1;
            &&& run.actions.len() == (if known {
                4int
            } else if measurable {
                5
            } else {
                6
            })
            &&& run.actions[0] is AttachBuffers
            &&& run.actions[1] is ReadBinding
            &&& !known ==> run.actions[2] is MeasureFramebuffer
            &&& !known && !measurable ==> run.actions[3] is ReadAllocation
            &&& run.actions[last - 1] matches FrameAction::Render { fbo, size } && {
                &&& world.binding matches Some(id) ==> fbo == id
                &&& world.binding is None ==> fbo == 0
                &&& size.width == width
                &&& size.height == height
            }
            &&& run.actions[last] matches FrameAction::RestoreGl(size) && {
                &&& size.width == width
                &&& size.height == height
            }
            &&& run.surface.size.width == width
            &&& run.surface.size.height == height
            &&& run.surface.last_surface == width * 0x1_0000_0000 + height
        }),
{
    law_frame(surface, world);
    lemma_frame_sizes_are_positive(surface, world);
    crate::framebuffer::law_measured_numbers(
        world.get_attachment,
        world.bind_renderbuffer,
        world.get_renderbuffer,
        world.objects,
    );
    let size = world.size_for(surface);
    law_packing_tells_sizes_apart(size, size);
}

/// What a frame tells the log, by its values: its size exactly where the word that is remembered
/// is not the width times two to the 32nd plus the height; the warning about framebuffer zero
/// exactly where no framebuffer could be read or the one that was read is zero, and the warning
/// was not given yet; the code of mpv exactly where it is not zero. The size comes first and the
/// code last, and nothing else is told. The warning counts as given from then on.
pub proof fn law_frame_notices(surface: SurfaceState, world: FrameWorld)
    ensures
        ({
            let run = frame_run(Frame::initial(), surface, world);
            let told = run.notices;
            let size = run.surface.size;
            let resized = surface.last_surface != size.width * 0x1_0000_0000 + size.height;
            let to_zero = world.binding is None || world.binding == Some(0i32);
            let warned = to_zero && !surface.fbo_zero_warned;
            let failed = world.code != 0;
            let first: int = if resized { 1 } else { 0 };
            let second: int = if warned { 1 } else { 0 };
            let third: int = if failed { 1 } else { 0 };
            &&& told.len() == first + second + third
            &&& resized ==> told[0] == (Notice::RenderSurface {
                width: size.width,
                height: size.height,
            })
            &&& warned ==> told[first] is FramebufferZero
            &&& failed ==> told[first + second] == Notice::RenderFailed(world.code)
            &&& run.surface.fbo_zero_warned <==> surface.fbo_zero_warned || to_zero
        }),
{
    law_frame(surface, world);
    lemma_frame_sizes_are_positive(surface, world);
    law_packing_tells_sizes_apart(world.size_for(surface), world.size_for(surface));
}

/// The warning about framebuffer zero is only ever told of a frame that goes there.
pub proof fn law_framebuffer_zero_is_not_told_of_others(
    surface: SurfaceState,
    world: FrameWorld,
    id: i32,
)
    requires
        world.binding == Some(id),
        id != 0,
    ensures
        ({
            let run = frame_run(Frame::initial(), surface, world);
            &&& !run.notices.contains(Notice::FramebufferZero)
            &&& run.surface.fbo_zero_warned == surface.fbo_zero_warned
            &&& forall|fbo: i32, size: Size|
                run.actions.contains(FrameAction::Render { fbo, size }) ==> fbo == id
        }),
{
    law_frame(surface, world);
}

/// The first frame after the start measures, and tells its size, whatever that is; so does every
/// frame after a resize measure. A resize keeps what was rendered and warned of last.
pub proof fn law_start_and_resize(surface: SurfaceState, world: FrameWorld)
    ensures
        ({
            let first = frame_run(Frame::initial(), SurfaceState::initial(), world);
            let again = frame_run(Frame::initial(), surface.invalidated(), world);
            &&& first.actions[2] is MeasureFramebuffer
            &&& first.notices[0] is RenderSurface
            &&& first.notices.contains(Notice::FramebufferZero) <==> world.binding is None
                || world.binding == Some(0i32)
            &&& again.actions[2] is MeasureFramebuffer
            &&& surface.invalidated().last_surface == surface.last_surface
            &&& surface.invalidated().fbo_zero_warned == surface.fbo_zero_warned
        }),
{
    let start = SurfaceState::initial();
    law_frame_values(start, world);
    law_frame_notices(start, world);
    law_frame_values(surface.invalidated(), world);
    let told = frame_run(Frame::initial(), start, world).notices;
    if world.binding is None || world.binding == Some(0i32) {
        assert(told[1] is FramebufferZero);
    } else {
        law_framebuffer_zero_is_not_told_of_others(start, world, world.binding->0);
    }
}

/// A reply that answers another action than the one that is due changes nothing and tells
/// nothing, and a frame that is drawn stays drawn.
pub proof fn law_frame_goes_by_turns(frame: Frame, surface: SurfaceState, reply: FrameReply)
    requires
        frame.due() is AttachBuffers || frame.due() is RestoreGl ==> !(reply is Done),
        frame.due() is ReadBinding ==> !(reply is Binding),
        frame.due() is MeasureFramebuffer ==> !(reply is Measured),
        frame.due() is ReadAllocation ==> !(reply is Allocated),
        frame.due() is Render ==> !(reply is Rendered),
    ensures
        frame.answered(surface, reply).0 == frame,
        frame.answered(surface, reply).1 == surface,
        frame.answered(surface, reply).2.len() == 0,
        frame.due() is Finished <==> frame is Finished,
{
}

} // verus!
