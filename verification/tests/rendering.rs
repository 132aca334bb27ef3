use mpv_render_linux::backend::Backend;
use mpv_render_linux::context::{
    build_render_context, init_params, render_outcome, Build, BuildAction, BuildReply, FboTarget,
    InitParam, LinuxRenderContext, Propagation, Release, RenderParam, RenderSlot, SignalAction,
};
use mpv_render_linux::embed::{Command, Pending};
use mpv_render_linux::framebuffer::{
    current_fbo, query_fbo_dimensions, FboAction, FboQuery, Size,
};
use mpv_render_linux::gl_state::{restore_gdk_gl_state, GlCommand, Rect, ResolvedGl};
use mpv_render_linux::loader::{
    get_proc_address, gl_proc_address, lookup_gl_proc, proc_loader, proc_loader_for, resolve_gl,
    resolve_symbol, GlProcLookup, LoaderSearch, ProcAction, ResolveAction,
};
use mpv_render_linux::names::Symbol;
use mpv_render_linux::notice::Notice;
use mpv_render_linux::surface::{do_render, Frame, FrameAction, FrameReply, SurfaceState};

const HANDLE: Pending = Pending { mpv: 5, backend: Backend::X11, display_native: 9 };

const EPOXY: (Symbol, u64) = (Symbol::EpoxyGetProcAddress, 11);
const EGL: (Symbol, u64) = (Symbol::EglGetProcAddress, 22);
const GLX: (Symbol, u64) = (Symbol::GlxGetProcAddressArb, 33);

fn address(symbols: &[(Symbol, u64)], wanted: Symbol) -> u64 {
    symbols.iter().find(|entry| entry.0 == wanted).map_or(0, |entry| entry.1)
}

fn run_search(mut search: LoaderSearch, symbols: &[(Symbol, u64)]) -> (Option<u64>, Vec<Symbol>) {
    let mut asked = Vec::new();
    while let Some(symbol) = search.wanted() {
        asked.push(symbol);
        search = search.answer(address(symbols, symbol));
    }
    match search {
        LoaderSearch::Found(loader) => (Some(loader), asked),
        _ => (None, asked),
    }
}

fn run_lookup(
    mut lookup: GlProcLookup,
    symbols: &[(Symbol, u64)],
    by_loader: u64,
    direct: u64,
) -> u64 {
    loop {
        let answer = match lookup.action() {
            ProcAction::Lookup(symbol) => address(symbols, symbol),
            ProcAction::CallLoader(_) => by_loader,
            ProcAction::LookupName => direct,
            ProcAction::Finished(result) => return result,
        };
        lookup = lookup.answer(answer);
    }
}

fn run_resolve(symbol: Symbol, symbols: &[(Symbol, u64)], by_loader: u64) -> Option<u64> {
    let mut resolve = resolve_gl(symbol, Backend::Wayland);
    loop {
        let answer = match resolve.action() {
            ResolveAction::Lookup(wanted) => address(symbols, wanted),
            ResolveAction::CallLoader { symbol: asked, .. } => {
                assert_eq!(asked, symbol);
                by_loader
            }
            ResolveAction::Finished(result) => return result,
        };
        resolve = resolve.answer(answer);
    }
}

fn run_query(kind: i32, name: i32, width: i32, height: i32) -> (Option<Size>, Vec<u32>) {
    let mut query = query_fbo_dimensions(true, true, true);
    let mut bound = Vec::new();
    loop {
        let value = match query.action() {
            FboAction::AttachmentParameter { target, attachment, parameter } => {
                assert_eq!((target, attachment), (0x8D40, 0x8CE0));
                if parameter == 0x8CD0 {
                    kind
                } else {
                    assert_eq!(parameter, 0x8CD1);
                    name
                }
            }
            FboAction::BindRenderbuffer { target, id } => {
                assert_eq!(target, 0x8D41);
                bound.push(id);
                0
            }
            FboAction::RenderbufferParameter { target, parameter } => {
                assert_eq!(target, 0x8D41);
                if parameter == 0x8D42 {
                    width
                } else {
                    assert_eq!(parameter, 0x8D43);
                    height
                }
            }
            FboAction::Finished(size) => return (size, bound),
        };
        query = query.answer(value);
    }
}

fn run_build(
    code: i32,
) -> (Vec<BuildAction<char, char>>, Result<LinuxRenderContext<char, char, char>, i32>) {
    let mut build: Build<char, char, char> = build_render_context(HANDLE);
    let mut actions = Vec::new();
    loop {
        if let Build::Finished(result) = build {
            return (actions, result);
        }
        let action = build.action();
        let reply = match action {
            BuildAction::AllocateLookup(_) => BuildReply::Lookup('p'),
            BuildAction::Create { .. } => BuildReply::Created { code, ctx: Some('c') },
            BuildAction::FreeLookup(_) => BuildReply::Freed,
            BuildAction::SetUpdateCallback(_) => BuildReply::Callback('u'),
            BuildAction::Finished => BuildReply::Freed,
        };
        actions.push(action);
        build = build.answer(reply);
    }
}

struct World {
    binding: Option<i32>,
    measured: Option<Size>,
    allocated: Size,
    code: i32,
}

fn run_frame(surface: &mut SurfaceState, world: &World) -> (Vec<FrameAction>, Vec<Notice>) {
    let mut frame = do_render();
    let mut actions = Vec::new();
    let mut notices = Vec::new();
    loop {
        let action = frame.action();
        let reply = match action {
            FrameAction::AttachBuffers | FrameAction::RestoreGl(_) => FrameReply::Done,
            FrameAction::ReadBinding => FrameReply::Binding(world.binding),
            FrameAction::MeasureFramebuffer => FrameReply::Measured(world.measured),
            FrameAction::ReadAllocation => FrameReply::Allocated(world.allocated),
            FrameAction::Render { .. } => FrameReply::Rendered(world.code),
            FrameAction::Finished => return (actions, notices),
        };
        actions.push(action);
        let (next, told) = frame.answer(surface, reply);
        notices.extend(told);
        frame = next;
    }
}

fn size(width: i32, height: i32) -> Size {
    Size { width, height }
}

#[test]
fn loaders_are_tried_in_order() {
    assert_eq!(
        run_search(proc_loader_for(Backend::X11), &[EPOXY, EGL, GLX]),
        (Some(11), vec![EPOXY.0])
    );
    assert_eq!(
        run_search(proc_loader_for(Backend::Wayland), &[EGL, GLX]),
        (Some(22), vec![EPOXY.0, EGL.0])
    );
    assert_eq!(
        run_search(proc_loader_for(Backend::X11), &[EGL, GLX]),
        (Some(33), vec![EPOXY.0, GLX.0])
    );
    assert_eq!(
        run_search(proc_loader_for(Backend::X11), &[EGL]),
        (Some(22), vec![EPOXY.0, GLX.0, EGL.0])
    );
    assert_eq!(
        run_search(proc_loader_for(Backend::Wayland), &[GLX]),
        (Some(33), vec![EPOXY.0, EGL.0, EGL.0, GLX.0])
    );
    assert_eq!(run_search(proc_loader_for(Backend::Wayland), &[]).0, None);
    assert_eq!(run_search(proc_loader(true), &[EGL, GLX]).0, Some(22));
    assert_eq!(run_search(proc_loader(false), &[EGL, GLX]).0, Some(33));
}

#[test]
fn entry_points_come_from_the_loader_or_the_process() {
    let lookup = || lookup_gl_proc(Backend::Wayland, "glClear");
    assert_eq!(lookup().name(), "glClear");
    assert_eq!(run_lookup(lookup(), &[EGL], 7, 9), 7);
    assert_eq!(run_lookup(lookup(), &[EGL], 0, 9), 9);
    assert_eq!(run_lookup(lookup(), &[], 7, 9), 9);
    assert_eq!(run_lookup(lookup(), &[], 7, 0), 0);
    assert_eq!(run_lookup(get_proc_address(true, "glClear"), &[EGL], 7, 9), 7);
    assert_eq!(
        run_lookup(lookup_gl_proc(Backend::Wayland, "gl\0Clear"), &[EGL], 7, 9),
        0
    );
}

#[test]
fn requested_names_are_decoded() {
    let plain = gl_proc_address(Backend::X11, b"glClear");
    assert_eq!(plain.name(), "glClear");
    assert_eq!(plain.action(), ProcAction::Lookup(Symbol::EpoxyGetProcAddress));
    let umlaut = gl_proc_address(Backend::X11, &[0xc3, 0xa4]);
    assert_eq!(umlaut.name(), "\u{e4}");
    let broken = gl_proc_address(Backend::X11, &[0x67, 0xff]);
    assert_eq!(broken.name(), "");
    assert_eq!(broken.action(), ProcAction::Lookup(Symbol::EpoxyGetProcAddress));
}

#[test]
fn functions_are_resolved() {
    let viewport = (Symbol::GlViewport, 44);
    assert_eq!(run_resolve(Symbol::GlViewport, &[viewport, EGL], 7), Some(44));
    assert_eq!(run_resolve(Symbol::GlViewport, &[EGL], 7), Some(7));
    assert_eq!(run_resolve(Symbol::GlViewport, &[EGL], 0), None);
    assert_eq!(run_resolve(Symbol::GlViewport, &[], 7), None);
    assert_eq!(resolve_symbol(0), None);
    assert_eq!(resolve_symbol(3), Some(3));
}

#[test]
fn the_framebuffer_is_measured() {
    assert_eq!(run_query(0x8D41, 5, 640, 480), (Some(size(640, 480)), vec![5, 0]));
    assert_eq!(run_query(0x8D41, 5, 0, 480), (None, vec![5, 0]));
    assert_eq!(run_query(0x8D41, 5, 640, -1), (None, vec![5, 0]));
    assert_eq!(run_query(0x8D41, 0, 640, 480), (None, vec![]));
    assert_eq!(run_query(0x1702, 5, 640, 480), (None, vec![]));
    assert_eq!(query_fbo_dimensions(true, false, true), FboQuery::Finished(None));
    assert_eq!(current_fbo(Some(3)), 3);
    assert_eq!(current_fbo(None), 0);
}

#[test]
fn gdk_state_is_restored() {
    let all = ResolvedGl {
        viewport: true,
        scissor: true,
        disable: true,
        blend_func: true,
        clear_color: true,
    };
    let rect = Rect { x: 0, y: 0, width: 640, height: 1 };
    assert_eq!(
        restore_gdk_gl_state(640, 0, all),
        vec![
            GlCommand::Viewport(rect),
            GlCommand::Scissor(rect),
            GlCommand::Disable(0x0C11),
            GlCommand::Disable(0x0B71),
            GlCommand::BlendFunc(1, 0x0303),
            GlCommand::ClearColorZero,
        ]
    );
    let some = ResolvedGl { viewport: false, disable: false, clear_color: false, ..all };
    assert_eq!(
        restore_gdk_gl_state(640, 1, some),
        vec![GlCommand::Scissor(rect), GlCommand::BlendFunc(1, 0x0303)]
    );
}

#[test]
fn contexts_are_made_with_their_display() {
    assert_eq!(
        init_params(Backend::X11, 0),
        vec![InitParam::ApiTypeOpenGl, InitParam::OpenGlInit, InitParam::Invalid]
    );
    assert_eq!(init_params(Backend::X11, 9)[2], InitParam::X11Display(9));
    assert_eq!(init_params(Backend::Wayland, 9)[2], InitParam::WlDisplay(9));
    assert_eq!(init_params(Backend::Wayland, 9)[3], InitParam::Invalid);
}

#[test]
fn contexts_are_made_and_let_go() {
    let (actions, failed) = run_build(-18);
    assert_eq!(actions[2..], [BuildAction::FreeLookup('p')]);
    assert_eq!(failed.err(), Some(-18));
    let (actions, made) = run_build(0);
    assert_eq!(
        actions,
        vec![
            BuildAction::AllocateLookup(Backend::X11),
            BuildAction::Create {
                mpv: 5,
                backend: Backend::X11,
                display_native: 9,
                proc_ctx: 'p'
            },
            BuildAction::SetUpdateCallback(Some('c')),
        ]
    );
    let made = made.ok().unwrap();
    assert_eq!((made.ctx, made.proc_ctx, made.update_cb), (Some('c'), Some('p'), Some('u')));

    let mut context = LinuxRenderContext::new(Some('c'), 'p', 'u');
    let parts = context.drop();
    assert_eq!(parts.len(), 3);
    assert!(matches!(parts[0], Release::Context('c')));
    assert!(matches!(parts[1], Release::UpdateCallback('u')));
    assert!(matches!(parts[2], Release::ProcLookup('p')));
    assert_eq!(context.drop().len(), 0);
    let mut null: LinuxRenderContext<char, char, char> = LinuxRenderContext::new(None, 'p', 'u');
    assert_eq!(null.drop().len(), 2);
}

#[test]
fn frames_are_rendered_flipped() {
    let context = LinuxRenderContext::new(Some('c'), 'p', 'u');
    assert_eq!(
        context.render_to_fbo(3, 640, 480),
        vec![
            RenderParam::OpenGlFbo(FboTarget {
                fbo: 3,
                width: 640,
                height: 480,
                internal_format: 0
            }),
            RenderParam::FlipY(1),
            RenderParam::Invalid,
        ]
    );
    assert_eq!(render_outcome(0), Ok(()));
    assert_eq!(
        render_outcome(-2),
        Err("mpv_render_context_render failed: -2".to_string())
    );
}

#[test]
fn the_context_is_made_on_the_first_frame() {
    let mut slot: RenderSlot<char, char, char> = RenderSlot::new(HANDLE);
    assert_eq!(slot.render_signal(), SignalAction::BuildContext(HANDLE));
    assert_eq!(
        slot.context_built(Err(-18)),
        (SignalAction::Finish(Propagation::Proceed), Some(Notice::ContextInitFailed(-18)))
    );
    assert_eq!(slot.render_signal(), SignalAction::BuildContext(HANDLE));
    assert_eq!(
        slot.context_built(Ok(LinuxRenderContext::new(Some('c'), 'p', 'u'))),
        (SignalAction::Draw, None)
    );
    assert_eq!(slot.render_signal(), SignalAction::Draw);
    assert_eq!(slot.frame_drawn(), SignalAction::Finish(Propagation::Stop));
}

#[test]
fn frames_keep_the_measured_size_until_a_resize() {
    let mut surface = SurfaceState::new();
    let mut world = World {
        binding: Some(2),
        measured: Some(size(640, 480)),
        allocated: size(320, 240),
        code: 0,
    };
    let (actions, notices) = run_frame(&mut surface, &world);
    assert_eq!(
        actions,
        vec![
            FrameAction::AttachBuffers,
            FrameAction::ReadBinding,
            FrameAction::MeasureFramebuffer,
            FrameAction::Render { fbo: 2, size: size(640, 480) },
            FrameAction::RestoreGl(size(640, 480)),
        ]
    );
    assert_eq!(notices, vec![Notice::RenderSurface { width: 640, height: 480 }]);
    assert_eq!(surface.last_surface, (640u64 << 32) + 480);

    world.measured = Some(size(800, 600));
    let (actions, notices) = run_frame(&mut surface, &world);
    assert_eq!(actions.len(), 4);
    assert_eq!(actions[2], FrameAction::Render { fbo: 2, size: size(640, 480) });
    assert_eq!(notices, vec![]);

    for measured in [None, Some(size(1, 1)), Some(size(3000, 2000))] {
        world.measured = measured;
        let (actions, _) = run_frame(&mut surface, &world);
        assert_eq!(
            actions,
            vec![
                FrameAction::AttachBuffers,
                FrameAction::ReadBinding,
                FrameAction::Render { fbo: 2, size: size(640, 480) },
                FrameAction::RestoreGl(size(640, 480)),
            ]
        );
    }
    world.measured = Some(size(800, 600));

    assert_eq!(surface.area_resized(), Command::QueueRender);
    let (actions, notices) = run_frame(&mut surface, &world);
    assert_eq!(actions[2], FrameAction::MeasureFramebuffer);
    assert_eq!(notices, vec![Notice::RenderSurface { width: 800, height: 600 }]);

    surface.area_resized();
    assert_eq!(run_frame(&mut surface, &world).1, vec![]);
}

#[test]
fn frames_fall_back_to_the_allocated_size() {
    let mut surface = SurfaceState::new();
    let world =
        World { binding: Some(2), measured: None, allocated: size(0, 240), code: -7 };
    let (actions, notices) = run_frame(&mut surface, &world);
    assert_eq!(actions[3], FrameAction::ReadAllocation);
    assert_eq!(actions[4], FrameAction::Render { fbo: 2, size: size(1, 240) });
    assert_eq!(actions[5], FrameAction::RestoreGl(size(1, 240)));
    assert_eq!(
        notices,
        vec![Notice::RenderSurface { width: 1, height: 240 }, Notice::RenderFailed(-7)]
    );
}

#[test]
fn framebuffer_zero_is_warned_of_once() {
    let mut surface = SurfaceState::new();
    let world = World {
        binding: None,
        measured: Some(size(640, 480)),
        allocated: size(1, 1),
        code: 0,
    };
    assert_eq!(
        run_frame(&mut surface, &world).1,
        vec![Notice::RenderSurface { width: 640, height: 480 }, Notice::FramebufferZero]
    );
    assert_eq!(run_frame(&mut surface, &world).1, vec![]);
}

#[test]
fn framebuffer_zero_is_warned_of_at_its_first_frame() {
    let mut surface = SurfaceState::new();
    let mut world = World {
        binding: Some(4),
        measured: Some(size(640, 480)),
        allocated: size(1, 1),
        code: 0,
    };
    assert_eq!(
        run_frame(&mut surface, &world).1,
        vec![Notice::RenderSurface { width: 640, height: 480 }]
    );
    world.binding = Some(0);
    assert_eq!(run_frame(&mut surface, &world).1, vec![Notice::FramebufferZero]);
}

#[test]
fn a_reply_out_of_turn_changes_nothing() {
    let mut surface = SurfaceState::new();
    let (next, notices) = do_render().answer(&mut surface, FrameReply::Rendered(-1));
    assert_eq!(next, Frame::Attach);
    assert_eq!(notices, vec![]);
    assert_eq!(surface, SurfaceState::new());
}
