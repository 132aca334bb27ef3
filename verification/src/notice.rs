//! What the log is told.

use vstd::prelude::*;

use crate::backend::{backend_label, Backend};
use crate::text::push_decimal;

verus! {

/// A line for the log.
#[derive(Clone, Copy, Debug, PartialEq, Eq, Structural)]
pub enum Notice {
    /// Accelerated compositing is being switched off on request.
    LegacyCompositing,
    /// Explicit sync is being switched off for the NVIDIA driver on Wayland.
    ExplicitSyncOff,
    /// The window keeps its background painter on request.
    PainterKept,
    /// The web view stays opaque on request.
    WebviewLeftOpaque,
    /// The video area is in place.
    Installed(Backend),
    /// The video area is gone.
    Uninstalled,
    /// mpv refused to make a render context, with this code.
    ContextInitFailed(i32),
    /// The surface that is rendered to has another size than before.
    RenderSurface { width: i32, height: i32 },
    /// The framebuffer query gave zero.
    FramebufferZero,
    /// mpv failed to render a frame, with this code.
    RenderFailed(i32),
}

/// The mark at the start of every line.
pub open spec fn log_prefix() -> Seq<char> {
    "[harbor::mpv_linux] "@
}

/// What `mpv_render_context_create` failing with `code` is reported as.
pub open spec fn create_failure(code: int) -> Seq<char> {
    "render init failed: "@ + crate::text::decimal(code)
}

/// What `mpv_render_context_render` failing with `code` is reported as.
pub open spec fn render_failure(code: int) -> Seq<char> {
    "mpv_render_context_render failed: "@ + crate::text::decimal(code)
}

impl Notice {
    /// The line without the mark at its start.
    pub open spec fn body(self) -> Seq<char> {
        match self {
            Notice::LegacyCompositing =>
                "HARBOR_LINUX_LEGACY_GFX=1: disabling WebKit accelerated compositing (legacy behaviour)"@,
            Notice::ExplicitSyncOff =>
                "NVIDIA + Wayland detected; setting __NV_DISABLE_EXPLICIT_SYNC=1"@,
            Notice::PainterKept => "probe: leaving GtkWindow background painter enabled"@,
            Notice::WebviewLeftOpaque =>
                "probe: webview left opaque; video will be hidden, ghosting result is what matters"@,
            Notice::Installed(backend) => "installed backend="@ + match backend {
                Backend::X11 => "x11"@,
                Backend::Wayland => "wayland"@,
            },
            Notice::Uninstalled => "uninstalled"@,
            Notice::ContextInitFailed(code) => "render ctx init failed: "@ + create_failure(
                code as int,
            ),
            Notice::RenderSurface { width, height } => "render surface "@ + crate::text::decimal(
                width as int,
            ) + "x"@ + crate::text::decimal(height as int) + " px"@,
            Notice::FramebufferZero =>
                "WARNING: GtkGLArea FBO query returned 0; mpv will render to the default framebuffer and the video region will stay BLACK. glGetIntegerv or the GL proc loader likely failed to resolve."@,
            Notice::RenderFailed(code) => "render failed: "@ + render_failure(code as int),
        }
    }

    /// The whole line.
    pub fn line(self) -> (line: String)
        ensures
            line@ == log_prefix() + self.body(),
    {
        let mut line = String::from_str("[harbor::mpv_linux] ");
        match self {
            Notice::LegacyCompositing => {
                line.append(
                    "HARBOR_LINUX_LEGACY_GFX=1: disabling WebKit accelerated compositing (legacy behaviour)",
                );
            },
            Notice::ExplicitSyncOff => {
                line.append("NVIDIA + Wayland detected; setting __NV_DISABLE_EXPLICIT_SYNC=1");
            },
            Notice::PainterKept => {
                line.append("probe: leaving GtkWindow background painter enabled");
            },
            Notice::WebviewLeftOpaque => {
                line.append(
                    "probe: webview left opaque; video will be hidden, ghosting result is what matters",
                );
            },
            Notice::Installed(backend) => {
                line.append("installed backend=");
                line.append(backend_label(backend));
            },
            Notice::Uninstalled => {
                line.append("uninstalled");
            },
            Notice::ContextInitFailed(code) => {
                line.append("render ctx init failed: ");
                line.append(create_error(code).as_str());
            },
            Notice::RenderSurface { width, height } => {
                line.append("render surface ");
                push_decimal(width, &mut line);
                line.append("x");
                push_decimal(height, &mut line);
                line.append(" px");
            },
            Notice::FramebufferZero => {
                line.append(
                    "WARNING: GtkGLArea FBO query returned 0; mpv will render to the default framebuffer and the video region will stay BLACK. glGetIntegerv or the GL proc loader likely failed to resolve.",
                );
            },
            Notice::RenderFailed(code) => {
                line.append("render failed: ");
                line.append(render_error(code).as_str());
            },
        }
        line
    }
}

/// The message for `mpv_render_context_create` failing with `code`.
pub fn create_error(code: i32) -> (message: String)
    ensures
        message@ == create_failure(code as int),
{
    let mut message = String::from_str("render init failed: ");
    push_decimal(code, &mut message);
    message
}

/// The message for `mpv_render_context_render` failing with `code`.
pub fn render_error(code: i32) -> (message: String)
    ensures
        message@ == render_failure(code as int),
{
    let mut message = String::from_str("mpv_render_context_render failed: ");
    push_decimal(code, &mut message);
    message
}

/// The lines that carry a value show that value: the label of the backend, the width before the
/// height, and the code that mpv gave, each number in decimal notation.
pub proof fn law_lines_show_their_values(width: i32, height: i32, code: i32)
    ensures
        Notice::Installed(Backend::X11).body() == "installed backend="@ + "x11"@,
        Notice::Installed(Backend::Wayland).body() == "installed backend="@ + "wayland"@,
        (Notice::RenderSurface { width, height }).body() == "render surface "@
            + crate::text::decimal(width as int) + "x"@ + crate::text::decimal(height as int)
            + " px"@,
        Notice::ContextInitFailed(code).body() == "render ctx init failed: "@ + (
        "render init failed: "@ + crate::text::decimal(code as int)),
        Notice::RenderFailed(code).body() == "render failed: "@ + (
        "mpv_render_context_render failed: "@ + crate::text::decimal(code as int)),
        create_failure(code as int) == "render init failed: "@ + crate::text::decimal(code as int),
        render_failure(code as int) == "mpv_render_context_render failed: "@
            + crate::text::decimal(code as int),
        log_prefix() == "[harbor::mpv_linux] "@,
{
}

} // verus!
