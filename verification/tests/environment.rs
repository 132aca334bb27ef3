use mpv_render_linux::backend::{
    backend_label, detect_backend, native_display, proc_backend, wayland_session, Backend,
    NativeDisplay,
};
use mpv_render_linux::graphics::{
    configure_linux_graphics, nvidia_driver_path, probe, GraphicsEnv, GraphicsSetting,
};
use mpv_render_linux::names::{Symbol, Variable};
use mpv_render_linux::notice::{create_error, render_error, Notice};
use mpv_render_linux::text::{contains, eq_ignore_ascii_case, equal, push_decimal};

fn decimal(n: i32) -> String {
    let mut out = String::from("<");
    push_decimal(n, &mut out);
    out
}

fn bare() -> GraphicsEnv<'static> {
    GraphicsEnv {
        legacy_graphics: None,
        nvidia_driver: false,
        session_type: None,
        wayland_display: None,
        explicit_sync: None,
    }
}

#[test]
fn text_is_compared_and_searched() {
    assert!(equal("", ""));
    assert!(equal("wayland", "wayland"));
    assert!(!equal("wayland", "Wayland"));
    assert!(!equal("1", "10"));
    assert!(eq_ignore_ascii_case("WayLand", "wayland"));
    assert!(!eq_ignore_ascii_case("wayland ", "wayland"));
    assert!(!eq_ignore_ascii_case("\u{c4}", "\u{e4}"));
    assert!(!eq_ignore_ascii_case("[", "{"));
    assert!(contains("GdkX11Display", "X11"));
    assert!(contains("X11", "X11"));
    assert!(contains("abc", ""));
    assert!(!contains("X1", "X11"));
    assert!(!contains("GdkWaylanDisplay", "Wayland"));
}

#[test]
fn decimals_are_spelled() {
    for n in [0, 7, 10, 1920, -1, -18, i32::MAX, i32::MIN] {
        assert_eq!(decimal(n), format!("<{}", n));
    }
}

#[test]
fn display_type_decides_the_backend() {
    assert_eq!(detect_backend(Some("GdkWaylandDisplay"), Some("x11")), Backend::Wayland);
    assert_eq!(detect_backend(Some("GdkX11Display"), Some("wayland")), Backend::X11);
    assert_eq!(detect_backend(Some("X11Wayland"), None), Backend::Wayland);
}

#[test]
fn session_type_decides_where_the_display_does_not() {
    assert_eq!(detect_backend(None, Some("WAYLAND")), Backend::Wayland);
    assert_eq!(detect_backend(Some("GdkBroadwayDisplay"), Some("wayland")), Backend::Wayland);
    assert_eq!(detect_backend(Some("GdkBroadwayDisplay"), Some("tty")), Backend::X11);
    assert_eq!(detect_backend(None, None), Backend::X11);
    assert!(wayland_session(Some("Wayland")));
    assert!(!wayland_session(None));
}

#[test]
fn native_display_follows_the_backend() {
    assert_eq!(native_display(Backend::X11, 0), NativeDisplay::Absent);
    assert_eq!(native_display(Backend::Wayland, 0), NativeDisplay::Absent);
    assert_eq!(native_display(Backend::X11, 5), NativeDisplay::XDisplay);
    assert_eq!(native_display(Backend::Wayland, 5), NativeDisplay::WlDisplay);
    assert_eq!(proc_backend(true), Backend::Wayland);
    assert_eq!(proc_backend(false), Backend::X11);
    assert_eq!(backend_label(Backend::X11), "x11");
    assert_eq!(backend_label(Backend::Wayland), "wayland");
}

#[test]
fn switches_are_on_at_one_only() {
    assert!(probe(Some("1")));
    assert!(!probe(Some("0")));
    assert!(!probe(Some("")));
    assert!(!probe(Some("1 ")));
    assert!(!probe(None));
}

#[test]
fn nothing_is_set_by_default() {
    assert_eq!(configure_linux_graphics(&bare()), vec![]);
    let nvidia = GraphicsEnv { nvidia_driver: true, session_type: Some("x11"), ..bare() };
    assert_eq!(configure_linux_graphics(&nvidia), vec![]);
    let wayland = GraphicsEnv { session_type: Some("wayland"), ..bare() };
    assert_eq!(configure_linux_graphics(&wayland), vec![]);
    let empty_display = GraphicsEnv { nvidia_driver: true, wayland_display: Some(""), ..bare() };
    assert_eq!(configure_linux_graphics(&empty_display), vec![]);
    let zero = GraphicsEnv { legacy_graphics: Some("0"), ..bare() };
    assert_eq!(configure_linux_graphics(&zero), vec![]);
}

#[test]
fn legacy_graphics_disables_compositing() {
    let env = GraphicsEnv { legacy_graphics: Some("1"), ..bare() };
    let settings = configure_linux_graphics(&env);
    assert_eq!(settings, vec![GraphicsSetting::DisableCompositing]);
    assert_eq!(settings[0].variable(), Variable::DisableCompositing);
    assert_eq!(settings[0].variable().name(), "WEBKIT_DISABLE_COMPOSITING_MODE");
    assert_eq!(settings[0].value(), "1");
    assert_eq!(settings[0].notice(), Notice::LegacyCompositing);
}

#[test]
fn nvidia_on_wayland_loses_explicit_sync_once() {
    let by_session =
        GraphicsEnv { nvidia_driver: true, session_type: Some("Wayland"), ..bare() };
    assert_eq!(
        configure_linux_graphics(&by_session),
        vec![GraphicsSetting::DisableExplicitSync]
    );
    let by_display =
        GraphicsEnv { nvidia_driver: true, wayland_display: Some("wayland-0"), ..bare() };
    assert_eq!(
        configure_linux_graphics(&by_display),
        vec![GraphicsSetting::DisableExplicitSync]
    );
    let chosen = GraphicsEnv { explicit_sync: Some("0"), ..by_display };
    assert_eq!(configure_linux_graphics(&chosen), vec![]);
    let both = GraphicsEnv { legacy_graphics: Some("1"), ..by_session };
    assert_eq!(
        configure_linux_graphics(&both),
        vec![GraphicsSetting::DisableCompositing, GraphicsSetting::DisableExplicitSync]
    );
    assert_eq!(GraphicsSetting::DisableExplicitSync.variable(), Variable::DisableExplicitSync);
    assert_eq!(GraphicsSetting::DisableExplicitSync.notice(), Notice::ExplicitSyncOff);
    assert_eq!(nvidia_driver_path(), "/proc/driver/nvidia/version");
}

#[test]
fn configuring_twice_is_configuring_once() {
    let mut compositing = None;
    let mut explicit_sync = None;
    for _ in 0..2 {
        let env = GraphicsEnv {
            legacy_graphics: Some("1"),
            nvidia_driver: true,
            session_type: Some("wayland"),
            explicit_sync,
            ..bare()
        };
        for setting in configure_linux_graphics(&env) {
            match setting.variable() {
                Variable::DisableCompositing => compositing = Some(setting.value()),
                Variable::DisableExplicitSync => explicit_sync = Some(setting.value()),
                other => panic!("{:?} is not to be set", other),
            }
        }
        assert_eq!((compositing, explicit_sync), (Some("1"), Some("1")));
    }
}

#[test]
fn names_are_spelled() {
    assert_eq!(Symbol::EpoxyGetProcAddress.name(), "epoxy_get_proc_address");
    assert_eq!(Symbol::EglGetProcAddress.name(), "eglGetProcAddress");
    assert_eq!(Symbol::GlxGetProcAddressArb.name(), "glXGetProcAddressARB");
    assert_eq!(Symbol::GlGetIntegerv.name(), "glGetIntegerv");
    assert_eq!(
        Symbol::GlGetFramebufferAttachmentParameteriv.name(),
        "glGetFramebufferAttachmentParameteriv"
    );
    assert_eq!(Symbol::GlBindRenderbuffer.name(), "glBindRenderbuffer");
    assert_eq!(Symbol::GlGetRenderbufferParameteriv.name(), "glGetRenderbufferParameteriv");
    assert_eq!(Symbol::GlViewport.name(), "glViewport");
    assert_eq!(Symbol::GlScissor.name(), "glScissor");
    assert_eq!(Symbol::GlDisable.name(), "glDisable");
    assert_eq!(Symbol::GlBlendFunc.name(), "glBlendFunc");
    assert_eq!(Symbol::GlClearColor.name(), "glClearColor");
    assert_eq!(
        Symbol::WebkitWebViewSetBackgroundColor.name(),
        "webkit_web_view_set_background_color"
    );
    assert_eq!(Variable::LegacyGraphics.name(), "HARBOR_LINUX_LEGACY_GFX");
    assert_eq!(Variable::SessionType.name(), "XDG_SESSION_TYPE");
    assert_eq!(Variable::WaylandDisplay.name(), "WAYLAND_DISPLAY");
    assert_eq!(Variable::DisableExplicitSync.name(), "__NV_DISABLE_EXPLICIT_SYNC");
    assert_eq!(Variable::OpaqueWebview.name(), "HARBOR_LINUX_OPAQUE_WEBVIEW");
    assert_eq!(Variable::DamageUi.name(), "HARBOR_LINUX_DAMAGE_UI");
    assert_eq!(Variable::NoAppPaintable.name(), "HARBOR_LINUX_NO_APP_PAINTABLE");
}

#[test]
fn log_lines_are_spelled() {
    assert_eq!(create_error(-12), "render init failed: -12");
    assert_eq!(render_error(-4), "mpv_render_context_render failed: -4");
    assert_eq!(
        Notice::Installed(Backend::Wayland).line(),
        "[harbor::mpv_linux] installed backend=wayland"
    );
    assert_eq!(Notice::Uninstalled.line(), "[harbor::mpv_linux] uninstalled");
    assert_eq!(
        Notice::ContextInitFailed(-18).line(),
        "[harbor::mpv_linux] render ctx init failed: render init failed: -18"
    );
    assert_eq!(
        Notice::RenderSurface { width: 1920, height: 1080 }.line(),
        "[harbor::mpv_linux] render surface 1920x1080 px"
    );
    assert_eq!(
        Notice::RenderFailed(-1).line(),
        "[harbor::mpv_linux] render failed: mpv_render_context_render failed: -1"
    );
    assert_eq!(
        Notice::LegacyCompositing.line(),
        "[harbor::mpv_linux] HARBOR_LINUX_LEGACY_GFX=1: disabling WebKit accelerated compositing (legacy behaviour)"
    );
    assert_eq!(
        Notice::ExplicitSyncOff.line(),
        "[harbor::mpv_linux] NVIDIA + Wayland detected; setting __NV_DISABLE_EXPLICIT_SYNC=1"
    );
    assert_eq!(
        Notice::PainterKept.line(),
        "[harbor::mpv_linux] probe: leaving GtkWindow background painter enabled"
    );
    assert_eq!(
        Notice::WebviewLeftOpaque.line(),
        "[harbor::mpv_linux] probe: webview left opaque; video will be hidden, ghosting result is what matters"
    );
    assert_eq!(
        Notice::FramebufferZero.line(),
        "[harbor::mpv_linux] WARNING: GtkGLArea FBO query returned 0; mpv will render to the default framebuffer and the video region will stay BLACK. glGetIntegerv or the GL proc loader likely failed to resolve."
    );
}
