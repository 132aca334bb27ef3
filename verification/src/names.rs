//! Names of the outside world: dynamic symbols and environment variables.

use vstd::prelude::*;

verus! {

/// A symbol that is looked up in the process at run time.
#[derive(Clone, Copy, Debug, PartialEq, Eq, Structural)]
pub enum Symbol {
    EpoxyGetProcAddress,
    EglGetProcAddress,
    GlxGetProcAddressArb,
    GlGetIntegerv,
    GlGetFramebufferAttachmentParameteriv,
    GlBindRenderbuffer,
    GlGetRenderbufferParameteriv,
    GlViewport,
    GlScissor,
    GlDisable,
    GlBlendFunc,
    GlClearColor,
    WebkitWebViewSetBackgroundColor,
}

impl Symbol {
    /// The name under which the dynamic linker knows the symbol.
    pub open spec fn spelled(self) -> Seq<char> {
        match self {
            Symbol::EpoxyGetProcAddress => "epoxy_get_proc_address"@,
            Symbol::EglGetProcAddress => "eglGetProcAddress"@,
            Symbol::GlxGetProcAddressArb => "glXGetProcAddressARB"@,
            Symbol::GlGetIntegerv => "glGetIntegerv"@,
            Symbol::GlGetFramebufferAttachmentParameteriv =>
                "glGetFramebufferAttachmentParameteriv"@,
            Symbol::GlBindRenderbuffer => "glBindRenderbuffer"@,
            Symbol::GlGetRenderbufferParameteriv => "glGetRenderbufferParameteriv"@,
            Symbol::GlViewport => "glViewport"@,
            Symbol::GlScissor => "glScissor"@,
            Symbol::GlDisable => "glDisable"@,
            Symbol::GlBlendFunc => "glBlendFunc"@,
            Symbol::GlClearColor => "glClearColor"@,
            Symbol::WebkitWebViewSetBackgroundColor => "webkit_web_view_set_background_color"@,
        }
    }

    /// The name under which the dynamic linker knows the symbol.
    pub fn name(self) -> (name: &'static str)
        ensures
            name@ == self.spelled(),
    {
        match self {
            Symbol::EpoxyGetProcAddress => "epoxy_get_proc_address",
            Symbol::EglGetProcAddress => "eglGetProcAddress",
            Symbol::GlxGetProcAddressArb => "glXGetProcAddressARB",
            Symbol::GlGetIntegerv => "glGetIntegerv",
            Symbol::GlGetFramebufferAttachmentParameteriv =>
                "glGetFramebufferAttachmentParameteriv",
            Symbol::GlBindRenderbuffer => "glBindRenderbuffer",
            Symbol::GlGetRenderbufferParameteriv => "glGetRenderbufferParameteriv",
            Symbol::GlViewport => "glViewport",
            Symbol::GlScissor => "glScissor",
            Symbol::GlDisable => "glDisable",
            Symbol::GlBlendFunc => "glBlendFunc",
            Symbol::GlClearColor => "glClearColor",
            Symbol::WebkitWebViewSetBackgroundColor => "webkit_web_view_set_background_color",
        }
    }
}

/// An environment variable that is read or set.
#[derive(Clone, Copy, Debug, PartialEq, Eq, Structural)]
pub enum Variable {
    LegacyGraphics,
    DisableCompositing,
    SessionType,
    WaylandDisplay,
    DisableExplicitSync,
    OpaqueWebview,
    DamageUi,
    NoAppPaintable,
}

impl Variable {
    /// The name of the variable.
    pub open spec fn spelled(self) -> Seq<char> {
        match self {
            Variable::LegacyGraphics => "HARBOR_LINUX_LEGACY_GFX"@,
            Variable::DisableCompositing => "WEBKIT_DISABLE_COMPOSITING_MODE"@,
            Variable::SessionType => "XDG_SESSION_TYPE"@,
            Variable::WaylandDisplay => "WAYLAND_DISPLAY"@,
            Variable::DisableExplicitSync => "__NV_DISABLE_EXPLICIT_SYNC"@,
            Variable::OpaqueWebview => "HARBOR_LINUX_OPAQUE_WEBVIEW"@,
            Variable::DamageUi => "HARBOR_LINUX_DAMAGE_UI"@,
            Variable::NoAppPaintable => "HARBOR_LINUX_NO_APP_PAINTABLE"@,
        }
    }

    /// The name of the variable.
    pub fn name(self) -> (name: &'static str)
        ensures
            name@ == self.spelled(),
    {
        match self {
            Variable::LegacyGraphics => "HARBOR_LINUX_LEGACY_GFX",
            Variable::DisableCompositing => "WEBKIT_DISABLE_COMPOSITING_MODE",
            Variable::SessionType => "XDG_SESSION_TYPE",
            Variable::WaylandDisplay => "WAYLAND_DISPLAY",
            Variable::DisableExplicitSync => "__NV_DISABLE_EXPLICIT_SYNC",
            Variable::OpaqueWebview => "HARBOR_LINUX_OPAQUE_WEBVIEW",
            Variable::DamageUi => "HARBOR_LINUX_DAMAGE_UI",
            Variable::NoAppPaintable => "HARBOR_LINUX_NO_APP_PAINTABLE",
        }
    }
}

} // verus!
