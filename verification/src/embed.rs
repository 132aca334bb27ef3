//! Putting the video area under the web view, and taking it away again.
//!
//! The widget work is told by `Command`s, which the toolkit side performs in order. Where a
//! decision hangs on the widgets themselves, a small state machine says what to look at and
//! takes what was seen. `E` stands for the toolkit handles of an embedded video area.

use vstd::prelude::*;

use crate::backend::{detect_backend, native_display, Backend, NativeDisplay};
use crate::graphics::probe;
use crate::notice::Notice;

verus! {

/// The widgets that take part.
#[derive(Clone, Copy, Debug, PartialEq, Eq, Structural)]
pub enum Widget {
    Window,
    Vbox,
    WebView,
    Overlay,
    Area,
}

/// An mpv handle that waits for its video area.
#[derive(Clone, Copy, Debug, PartialEq, Eq, Structural)]
pub struct Pending {
    /// The address of the mpv handle.
    pub mpv: u64,
    pub backend: Backend,
    /// The address of the native display; zero where there is none.
    pub display_native: u64,
}

/// Something to do with the widgets or the log.
#[derive(Clone, Copy, Debug, PartialEq, Eq, Structural)]
pub enum Command {
    /// Tell the log.
    Log(Notice),
    /// Give the window the RGBA visual of its screen.
    SetVisual,
    SetAppPaintable(Widget, bool),
    /// Paint the background of the web view black where true, fully transparent where false.
    SetWebviewBackground(bool),
    /// Make the overlay.
    NewOverlay,
    /// Make the GL area.
    NewArea,
    SetAutoRender(bool),
    SetUseEs(bool),
    SetHasDepthBuffer(bool),
    SetHasStencilBuffer(bool),
    SetHexpand(bool),
    SetVexpand(bool),
    Remove { container: Widget, child: Widget },
    /// Take the widget out of the container that it is in.
    RemoveFromParent(Widget),
    Add { container: Widget, child: Widget },
    /// Put the widget on top of the overlay's main child.
    AddOverlay(Widget),
    SetOverlayPassThrough(Widget, bool),
    /// Pack the widget at the start of the box, expanding and filling it, without padding.
    PackStart(Widget),
    Show(Widget),
    ShowAll(Widget),
    /// From now on a resize of the area invalidates the surface size and queues a render.
    ConnectResize,
    /// From now on the area renders with a context for this handle.
    ConnectRender(Pending),
    /// Queue a render of the area.
    QueueRender,
    /// Queue a redraw of the web view.
    QueueDraw,
}

/// What is remembered between calls.
pub struct Embedding<E> {
    pub pending: Option<Pending>,
    pub embed: Option<E>,
    /// GL entry points are looked up the Wayland way.
    pub proc_wayland: bool,
}

impl<E> Embedding<E> {
    /// Nothing is prepared and nothing is embedded.
    pub open spec fn initial() -> Self {
        Embedding { pending: None, embed: None, proc_wayland: false }
    }

    /// What is remembered once a backend is picked.
    pub open spec fn with_backend(self, backend: Backend) -> Self {
        Embedding { proc_wayland: backend is Wayland, ..self }
    }

    /// What is remembered once a handle is prepared.
    pub open spec fn with_handle(self, handle: Pending) -> Self {
        Embedding { pending: Some(handle), ..self }
    }

    /// Nothing is prepared and nothing is embedded.
    pub fn new() -> (state: Self)
        ensures
            state == Self::initial(),
            state == (Embedding { pending: None, embed: None::<E>, proc_wayland: false }),
    {
        Embedding { pending: None, embed: None, proc_wayland: false }
    }
}

/// The backend that was picked, and where its native display comes from.
#[derive(Clone, Copy, Debug, PartialEq, Eq, Structural)]
pub struct Preparation {
    pub backend: Backend,
    pub source: NativeDisplay,
}

/// Where the native display of a backend comes from.
pub open spec fn display_source(backend: Backend, display: u64) -> NativeDisplay {
    if display == 0 {
        NativeDisplay::Absent
    } else {
        match backend {
            Backend::X11 => NativeDisplay::XDisplay,
            Backend::Wayland => NativeDisplay::WlDisplay,
        }
    }
}

/// The backend for an mpv handle, and where its native display comes from.
pub open spec fn preparation_for(
    display_type: Option<&str>,
    session_type: Option<&str>,
    display: u64,
) -> Preparation {
    let backend = crate::backend::backend_for(
        crate::backend::optional_text(display_type),
        crate::backend::optional_text(session_type),
    );
    Preparation { backend, source: display_source(backend, display) }
}

/// Picks the backend for an mpv handle that is about to be embedded. The arguments are those
/// of `detect_backend`, and the address of the default `GdkDisplay` (zero where there is none).
/// `prepared` has to follow, with what the source of the native display gives.
pub fn prepare<E>(
    state: &mut Embedding<E>,
    display_type: Option<&str>,
    session_type: Option<&str>,
    display: u64,
) -> (preparation: Preparation)
    ensures
        preparation.backend == crate::backend::backend_for(
            crate::backend::optional_text(display_type),
            crate::backend::optional_text(session_type),
        ),
        preparation.source == display_source(preparation.backend, display),
        preparation == preparation_for(display_type, session_type, display),
        preparation.source is Absent <==> display == 0,
        preparation.source is XDisplay <==> display != 0 && preparation.backend is X11,
        preparation.source is WlDisplay <==> display != 0 && preparation.backend is Wayland,
        *final(state) == old(state).with_backend(preparation.backend),
        final(state).proc_wayland == (preparation.backend is Wayland),
        final(state).pending == old(state).pending,
        final(state).embed == old(state).embed,
{
    let backend = detect_backend(display_type, session_type);
    state.proc_wayland = backend == Backend::Wayland;
    let source = native_display(backend, display);
    Preparation { backend, source }
}

/// Where the native display comes from, by the values that `prepare` is given: from nowhere
/// exactly where there is no display; and from the display of the backend that was picked
/// otherwise, be it X11 or Wayland. The backend is Wayland exactly where the type name of the
/// display has "Wayland" in it, or has neither that nor "X11" in it while the session type is
/// "wayland" in small or capital letters.
pub proof fn law_preparation(display_type: Option<&str>, session_type: Option<&str>, display: u64)
    ensures
        ({
            let preparation = preparation_for(display_type, session_type, display);
            let named_wayland = display_type matches Some(name) && exists|
                before: Seq<char>,
                after: Seq<char>,
            | name@ == #[trigger] (before + "Wayland"@ + after);
            let named_x11 = display_type matches Some(name) && exists|
                before: Seq<char>,
                after: Seq<char>,
            | name@ == #[trigger] (before + "X11"@ + after);
            let session = session_type matches Some(value) && value@.len() == 7 && forall|i: int|
                0 <= i < 7 ==> (#[trigger] value@[i] == "wayland"@[i] || value@[i]
                    == "WAYLAND"@[i]);
            &&& preparation.backend is Wayland <==> named_wayland || (!named_x11 && session)
            &&& display == 0 ==> preparation.source is Absent
            &&& display != 0 && preparation.backend is X11 ==> preparation.source is XDisplay
            &&& display != 0 && preparation.backend is Wayland ==> preparation.source is WlDisplay
        }),
{
    crate::backend::law_backend_choice(display_type, session_type);
}

/// The handle that is kept for the next `install`.
pub open spec fn kept_handle(mpv: u64, preparation: Preparation, native: u64) -> Pending {
    Pending {
        mpv,
        backend: preparation.backend,
        display_native: if preparation.source is Absent {
            0
        } else {
            native
        },
    }
}

/// The handle that is kept is the one that was given, with the backend that was picked, and with
/// the native display as it was given, wherever there is a source for one; a null display stays
/// null without one.
pub proof fn law_kept_handle(mpv: u64, preparation: Preparation, native: u64)
    ensures
        ({
            let handle = kept_handle(mpv, preparation, native);
            &&& handle.mpv == mpv
            &&& handle.backend == preparation.backend
            &&& preparation.source is Absent ==> handle.display_native == 0
            &&& preparation.source is XDisplay ==> handle.display_native == native
            &&& preparation.source is WlDisplay ==> handle.display_native == native
        }),
{
}

/// Preparing leaves an embedding that is there alone. A handle that was prepared before stays
/// until the new one takes its place, and the way of looking GL up is that of the backend that
/// was picked. In the beginning nothing is prepared and nothing is embedded.
pub proof fn law_preparing<E>(
    state: Embedding<E>,
    preparation: Preparation,
    mpv: u64,
    native: u64,
)
    ensures
        ({
            let begun = state.with_backend(preparation.backend);
            let done = begun.with_handle(kept_handle(mpv, preparation, native));
            &&& begun.pending == state.pending
            &&& begun.embed == state.embed
            &&& begun.proc_wayland <==> preparation.backend is Wayland
            &&& done.pending matches Some(handle) && handle.mpv == mpv && handle.backend
                == preparation.backend
            &&& done.embed == state.embed
            &&& done.proc_wayland <==> preparation.backend is Wayland
            &&& Embedding::<E>::initial().pending is None
            &&& Embedding::<E>::initial().embed is None
        }),
{
}

/// Keeps the mpv handle for the next `install`, in place of one that was kept before.
/// `native` is the address of the native display, which counts only where there is a source
/// for it.
pub fn prepared<E>(
    state: &mut Embedding<E>,
    mpv: u64,
    preparation: Preparation,
    native: u64,
) -> (outcome: Result<(), String>)
    ensures
        outcome is Ok,
        final(state).pending == Some(
            Pending {
                mpv,
                backend: preparation.backend,
                display_native: (if preparation.source is Absent {
                    0
                } else {
                    native
                }),
            },
        ),
        *final(state) == old(state).with_handle(kept_handle(mpv, preparation, native)),
        final(state).embed == old(state).embed,
        final(state).proc_wayland == old(state).proc_wayland,
{
    let display_native: u64 = match preparation.source {
        NativeDisplay::Absent => 0,
        _ => native,
    };
    state.pending = Some(Pending { mpv, backend: preparation.backend, display_native });
    Ok(())
}

/// The commands that make the background of the web view opaque or transparent. WebKit paints
/// a transparent background only on an app-paintable widget.
pub open spec fn background_commands(opaque: bool) -> Seq<Command> {
    seq![
        Command::SetAppPaintable(Widget::WebView, !opaque),
        Command::SetWebviewBackground(opaque),
    ]
}

/// Makes the background of the web view transparent.
pub fn set_webview_transparent() -> (commands: Vec<Command>)
    ensures
        commands@ == background_commands(false),
{
    vec![Command::SetAppPaintable(Widget::WebView, true), Command::SetWebviewBackground(false)]
}

/// Makes the background of the web view opaque.
pub fn set_webview_opaque() -> (commands: Vec<Command>)
    ensures
        commands@ == background_commands(true),
{
    vec![Command::SetAppPaintable(Widget::WebView, false), Command::SetWebviewBackground(true)]
}

/// The commands that ready the window for a transparent web view.
pub open spec fn visual_commands(available: bool, keep_painter: bool) -> Seq<Command> {
    if !available {
        seq![]
    } else if keep_painter {
        seq![Command::SetVisual, Command::Log(Notice::PainterKept)]
    } else {
        seq![Command::SetVisual, Command::SetAppPaintable(Widget::Window, true)]
    }
}

/// Readies the window for a transparent web view, where its screen has an RGBA visual.
/// `no_app_paintable` is the value of `HARBOR_LINUX_NO_APP_PAINTABLE`: a window that is not
/// app-paintable keeps painting its background.
pub fn apply_rgba_visual(available: bool, no_app_paintable: Option<&str>) -> (commands: Vec<
    Command,
>)
    ensures
        commands@ == visual_commands(
            available,
            crate::graphics::is_on(crate::backend::optional_text(no_app_paintable)),
        ),
{
    let mut commands: Vec<Command> = Vec::new();
    if available {
        commands.push(Command::SetVisual);
        if probe(no_app_paintable) {
            commands.push(Command::Log(Notice::PainterKept));
        } else {
            commands.push(Command::SetAppPaintable(Widget::Window, true));
        }
    }
    commands
}

/// The commands that put the video area under the web view.
pub open spec fn arranging_commands(pending: Pending, opaque_webview: bool) -> Seq<Command> {
    seq![
        Command::NewOverlay,
        Command::NewArea,
        Command::SetAutoRender(false),
        Command::SetUseEs(false),
        Command::SetHasDepthBuffer(false),
        Command::SetHasStencilBuffer(false),
        Command::SetAppPaintable(Widget::Area, true),
        Command::SetHexpand(true),
        Command::SetVexpand(true),
        Command::Remove { container: Widget::Window, child: Widget::Vbox },
        Command::Remove { container: Widget::Vbox, child: Widget::WebView },
        Command::Add { container: Widget::Overlay, child: Widget::Area },
        Command::AddOverlay(Widget::WebView),
        Command::SetOverlayPassThrough(Widget::WebView, false),
        Command::Add { container: Widget::Window, child: Widget::Overlay },
    ] + (if opaque_webview {
        seq![Command::Log(Notice::WebviewLeftOpaque)]
    } else {
        seq![]
    }) + background_commands(opaque_webview) + seq![
        Command::ShowAll(Widget::Overlay),
        Command::ConnectResize,
        Command::ConnectRender(pending),
    ]
}

/// The area fills the overlay by its expand flags: a size request would hold the window to
/// the size of the video on Wayland.
fn arrange(pending: Pending, opaque_webview: Option<&str>) -> (commands: Vec<Command>)
    ensures
        commands@ == arranging_commands(
            pending,
            crate::graphics::is_on(crate::backend::optional_text(opaque_webview)),
        ),
{
    let mut commands: Vec<Command> = vec![
        Command::NewOverlay,
        Command::NewArea,
        Command::SetAutoRender(false),
        Command::SetUseEs(false),
        Command::SetHasDepthBuffer(false),
        Command::SetHasStencilBuffer(false),
        Command::SetAppPaintable(Widget::Area, true),
        Command::SetHexpand(true),
        Command::SetVexpand(true),
        Command::Remove { container: Widget::Window, child: Widget::Vbox },
        Command::Remove { container: Widget::Vbox, child: Widget::WebView },
        Command::Add { container: Widget::Overlay, child: Widget::Area },
        Command::AddOverlay(Widget::WebView),
        Command::SetOverlayPassThrough(Widget::WebView, false),
        Command::Add { container: Widget::Window, child: Widget::Overlay },
    ];
    let mut background: Vec<Command>;
    if probe(opaque_webview) {
        commands.push(Command::Log(Notice::WebviewLeftOpaque));
        background = set_webview_opaque();
    } else {
        background = set_webview_transparent();
    }
    commands.append(&mut background);
    commands.push(Command::ShowAll(Widget::Overlay));
    commands.push(Command::ConnectResize);
    commands.push(Command::ConnectRender(pending));
    commands
}

/// What a widget is in.
#[derive(Clone, Copy, Debug, PartialEq, Eq, Structural)]
pub enum Parent {
    /// It has no parent.
    Missing,
    /// Its parent is a container.
    Container,
    /// Its parent is no container.
    Other,
}

/// Putting the web view back into its box, step by step.
#[derive(Clone, Copy, Debug, PartialEq, Eq, Structural)]
pub enum Restore {
    /// The web view is to leave what it is in.
    FreeWebView,
    /// The overlay is to leave what it is in.
    FreeOverlay,
    /// The web view is to go back into the box.
    PackWebView,
    /// The box is to go back into the window.
    AddVbox,
    Finished,
}

/// The first step of putting the web view back, and what is done before it.
pub open spec fn restore_start() -> (Restore, Seq<Command>) {
    (Restore::FreeWebView, background_commands(true))
}

/// Starts putting the web view back.
pub fn restore_webview() -> (start: (Restore, Vec<Command>))
    ensures
        (start.0, start.1@) == restore_start(),
{
    (Restore::FreeWebView, set_webview_opaque())
}

/// `commands`, where `wanted` holds.
pub open spec fn only_when(wanted: bool, commands: Seq<Command>) -> Seq<Command> {
    if wanted {
        commands
    } else {
        seq![]
    }
}

impl Restore {
    /// The widget whose parent is looked at.
    pub open spec fn examined(self) -> Option<Widget> {
        match self {
            Restore::FreeWebView => Some(Widget::WebView),
            Restore::FreeOverlay => Some(Widget::Overlay),
            Restore::PackWebView => Some(Widget::WebView),
            Restore::AddVbox => Some(Widget::Vbox),
            Restore::Finished => None,
        }
    }

    /// The step that follows, and what is done before it.
    pub open spec fn answered(self, parent: Parent) -> (Restore, Seq<Command>) {
        match self {
            Restore::FreeWebView => (
                Restore::FreeOverlay,
                only_when(
                    parent is Container,
                    seq![Command::RemoveFromParent(Widget::WebView)],
                ),
            ),
            Restore::FreeOverlay => (
                Restore::PackWebView,
                only_when(
                    parent is Container,
                    seq![Command::RemoveFromParent(Widget::Overlay)],
                ),
            ),
            Restore::PackWebView => (
                Restore::AddVbox,
                only_when(
                    parent is Missing,
                    seq![Command::PackStart(Widget::WebView), Command::Show(Widget::WebView)],
                ),
            ),
            Restore::AddVbox => (
                Restore::Finished,
                only_when(
                    parent is Missing,
                    seq![Command::Add { container: Widget::Window, child: Widget::Vbox }],
                ) + seq![Command::ShowAll(Widget::Vbox)],
            ),
            Restore::Finished => (self, seq![]),
        }
    }

    /// How many steps can still come.
    pub open spec fn left(self) -> nat {
        match self {
            Restore::FreeWebView => 4,
            Restore::FreeOverlay => 3,
            Restore::PackWebView => 2,
            Restore::AddVbox => 1,
            Restore::Finished => 0,
        }
    }

    /// The widget whose parent has to be looked at; `None` once all is back in place.
    pub fn wanted(self) -> (widget: Option<Widget>)
        ensures
            widget == self.examined(),
    {
        match self {
            Restore::FreeWebView => Some(Widget::WebView),
            Restore::FreeOverlay => Some(Widget::Overlay),
            Restore::PackWebView => Some(Widget::WebView),
            Restore::AddVbox => Some(Widget::Vbox),
            Restore::Finished => None,
        }
    }

    /// Takes what the widget is in, and gives the next step and what to do before it.
    pub fn answer(self, parent: Parent) -> (next: (Restore, Vec<Command>))
        ensures
            (next.0, next.1@) == self.answered(parent),
            !(self is Finished) ==> next.0.left() < self.left(),
    {
        let mut commands: Vec<Command> = Vec::new();
        match self {
            Restore::FreeWebView => {
                if parent == Parent::Container {
                    commands.push(Command::RemoveFromParent(Widget::WebView));
                }
                (Restore::FreeOverlay, commands)
            },
            Restore::FreeOverlay => {
                if parent == Parent::Container {
                    commands.push(Command::RemoveFromParent(Widget::Overlay));
                }
                (Restore::PackWebView, commands)
            },
            Restore::PackWebView => {
                if parent == Parent::Missing {
                    commands.push(Command::PackStart(Widget::WebView));
                    commands.push(Command::Show(Widget::WebView));
                }
                (Restore::AddVbox, commands)
            },
            Restore::AddVbox => {
                if parent == Parent::Missing {
                    commands.push(
                        Command::Add { container: Widget::Window, child: Widget::Vbox },
                    );
                }
                commands.push(Command::ShowAll(Widget::Vbox));
                (Restore::Finished, commands)
            },
            Restore::Finished => (Restore::Finished, commands),
        }
    }
}

/// Why an mpv handle could not be embedded.
#[derive(Clone, Copy, Debug, PartialEq, Eq, Structural)]
pub enum InstallError {
    /// `prepare` was not called since the last time.
    NoPending,
    /// The box has no child.
    NoWebview,
}

impl InstallError {
    /// The message for the error.
    pub open spec fn spelled(self) -> Seq<char> {
        match self {
            InstallError::NoPending => "no pending mpv ctx for linux install"@,
            InstallError::NoWebview => "no webview child in vbox"@,
        }
    }

    /// The message for the error.
    pub fn message(self) -> (message: String)
        ensures
            message@ == self.spelled(),
    {
        match self {
            InstallError::NoPending => String::from_str("no pending mpv ctx for linux install"),
            InstallError::NoWebview => String::from_str("no webview child in vbox"),
        }
    }
}

/// What embedding asks for.
#[derive(Clone, Copy, Debug, PartialEq, Eq)]
pub enum InstallAction {
    /// Look at what this widget of the stale embedding is in.
    ReadParent(Widget),
    /// See whether the window's screen has an RGBA visual, and read
    /// `HARBOR_LINUX_NO_APP_PAINTABLE`.
    ReadVisual,
    /// See whether the box has a first child, which is the web view, and read
    /// `HARBOR_LINUX_OPAQUE_WEBVIEW`.
    ReadChild,
    /// Hand over the handles of the new embedding.
    Keep,
    /// The embedding is done, or has failed.
    Finished(Result<(), InstallError>),
}

/// What came of an action.
pub enum InstallReply<'a, E> {
    Parent(Parent),
    Visual { available: bool, no_app_paintable: Option<&'a str> },
    Child { present: bool, opaque_webview: Option<&'a str> },
    Embed(E),
}

/// Embedding an mpv handle, step by step.
#[derive(Clone, Copy, Debug, PartialEq, Eq)]
pub enum Install {
    /// A stale embedding is being undone.
    Restoring(Restore),
    /// The window is being readied.
    Readying(Pending),
    /// The web view is being looked for.
    Seeking(Pending),
    /// The new embedding is to be kept.
    Keeping(Pending),
    Finished(Result<(), InstallError>),
}

/// What follows once no stale embedding is in the way.
pub open spec fn unblocked(pending: Option<Pending>) -> Install {
    match pending {
        Some(handle) => Install::Readying(handle),
        None => Install::Finished(Err(InstallError::NoPending)),
    }
}

fn take_pending<E>(state: &mut Embedding<E>) -> (next: Install)
    ensures
        next == unblocked(old(state).pending),
        *final(state) == (Embedding { pending: None, ..*old(state) }),
{
    match state.pending.take() {
        Some(handle) => Install::Readying(handle),
        None => Install::Finished(Err(InstallError::NoPending)),
    }
}

/// The first step of embedding, what is remembered from then on, and what is done before that
/// step.
pub open spec fn install_start<E>(state: Embedding<E>) -> (Install, Embedding<E>, Seq<Command>) {
    if state.embed is Some {
        let (restore, commands) = restore_start();
        (Install::Restoring(restore), Embedding { embed: None, ..state }, commands)
    } else {
        (unblocked(state.pending), Embedding { pending: None, ..state }, seq![])
    }
}

/// Starts embedding the mpv handle that was prepared. A stale embedding is taken out first,
/// and handed over: the steps that undo it, and the commands given, are about its handles.
pub fn install<E>(state: &mut Embedding<E>) -> (start: (Option<E>, Install, Vec<Command>))
    ensures
        start.0 == old(state).embed,
        (start.1, *final(state), start.2@) == install_start(*old(state)),
{
    match state.embed.take() {
        Some(stale) => {
            let (restore, commands) = restore_webview();
            (Some(stale), Install::Restoring(restore), commands)
        },
        None => {
            let next = take_pending(state);
            (None, next, Vec::new())
        },
    }
}

impl Install {
    /// What has to be done at this step.
    pub open spec fn due(self) -> InstallAction {
        match self {
            Install::Restoring(restore) => match restore.examined() {
                Some(widget) => InstallAction::ReadParent(widget),
                None => InstallAction::ReadParent(Widget::WebView),
            },
            Install::Readying(_) => InstallAction::ReadVisual,
            Install::Seeking(_) => InstallAction::ReadChild,
            Install::Keeping(_) => InstallAction::Keep,
            Install::Finished(outcome) => InstallAction::Finished(outcome),
        }
    }

    /// The step that follows, what is remembered from then on, and what is done before that
    /// step. A reply that does not answer the action that is due changes nothing.
    pub open spec fn answered<E>(self, state: Embedding<E>, reply: InstallReply<'_, E>) -> (
        Install,
        Embedding<E>,
        Seq<Command>,
    ) {
        match (self, reply) {
            (Install::Restoring(restore), InstallReply::Parent(parent)) => {
                let (next, commands) = restore.answered(parent);
                if next is Finished {
                    (unblocked(state.pending), Embedding { pending: None, ..state }, commands)
                } else {
                    (Install::Restoring(next), state, commands)
                }
            },
            (
                Install::Readying(pending),
                InstallReply::Visual { available, no_app_paintable },
            ) => (
                Install::Seeking(pending),
                state,
                visual_commands(
                    available,
                    crate::graphics::is_on(crate::backend::optional_text(no_app_paintable)),
                ),
            ),
            (Install::Seeking(pending), InstallReply::Child { present, opaque_webview }) => {
                if present {
                    (
                        Install::Keeping(pending),
                        state,
                        arranging_commands(
                            pending,
                            crate::graphics::is_on(crate::backend::optional_text(opaque_webview)),
                        ),
                    )
                } else {
                    (Install::Finished(Err(InstallError::NoWebview)), state, seq![])
                }
            },
            (Install::Keeping(pending), InstallReply::Embed(embed)) => (
                Install::Finished(Ok(())),
                Embedding { embed: Some(embed), ..state },
                seq![Command::QueueRender, Command::Log(Notice::Installed(pending.backend))],
            ),
            _ => (self, state, seq![]),
        }
    }

    /// What has to be done next.
    pub fn action(self) -> (action: InstallAction)
        ensures
            action == self.due(),
    {
        match self {
            Install::Restoring(restore) => match restore.wanted() {
                Some(widget) => InstallAction::ReadParent(widget),
                None => InstallAction::ReadParent(Widget::WebView),
            },
            Install::Readying(pending) => InstallAction::ReadVisual,
            Install::Seeking(pending) => InstallAction::ReadChild,
            Install::Keeping(pending) => InstallAction::Keep,
            Install::Finished(outcome) => InstallAction::Finished(outcome),
        }
    }

    /// Takes what came of the action, and gives the next step and what to do before it.
    pub fn answer<E>(self, state: &mut Embedding<E>, reply: InstallReply<'_, E>) -> (next: (
        Install,
        Vec<Command>,
    ))
        ensures
            (next.0, *final(state), next.1@) == self.answered(*old(state), reply),
    {
        match (self, reply) {
            (Install::Restoring(restore), InstallReply::Parent(parent)) => {
                let (next, commands) = restore.answer(parent);
                match next {
                    Restore::Finished => {
                        let unblocked_by = take_pending(state);
                        (unblocked_by, commands)
                    },
                    _ => (Install::Restoring(next), commands),
                }
            },
            (
                Install::Readying(pending),
                InstallReply::Visual { available, no_app_paintable },
            ) => (Install::Seeking(pending), apply_rgba_visual(available, no_app_paintable)),
            (Install::Seeking(pending), InstallReply::Child { present, opaque_webview }) => {
                if present {
                    (Install::Keeping(pending), arrange(pending, opaque_webview))
                } else {
                    (Install::Finished(Err(InstallError::NoWebview)), Vec::new())
                }
            },
            (Install::Keeping(pending), InstallReply::Embed(embed)) => {
                state.embed = Some(embed);
                (
                    Install::Finished(Ok(())),
                    vec![Command::QueueRender, Command::Log(Notice::Installed(pending.backend))],
                )
            },
            _ => (self, Vec::new()),
        }
    }
}

/// An embedding that is to be undone: its handles, the first step, what to do before it, and
/// what to tell the log once the steps are done.
pub struct Removal<E> {
    pub embed: E,
    pub restore: Restore,
    pub commands: Vec<Command>,
    pub notice: Notice,
}

/// What is remembered once the embedding is undone, and what undoing it takes, if there is one:
/// its handles, the first step, what is done before that step, and what the log is told.
pub open spec fn uninstall_start<E>(state: Embedding<E>) -> (
    Embedding<E>,
    Option<(E, Restore, Seq<Command>, Notice)>,
) {
    let (restore, commands) = restore_start();
    (
        Embedding { embed: None, ..state },
        match state.embed {
            Some(embed) => Some((embed, restore, commands, Notice::Uninstalled)),
            None => None,
        },
    )
}

/// Undoes the embedding; `None` where there is none. A prepared handle stays prepared.
pub fn uninstall<E>(state: &mut Embedding<E>) -> (outcome: Result<Option<Removal<E>>, String>)
    ensures
        *final(state) == (Embedding { embed: None, ..*old(state) }),
        outcome matches Ok(removal) && match old(state).embed {
            Some(embed) => removal matches Some(due) && {
                &&& due.embed == embed
                &&& (due.restore, due.commands@) == restore_start()
                &&& due.notice == Notice::Uninstalled
            },
            None => removal is None,
        },
        *final(state) == uninstall_start(*old(state)).0,
        outcome matches Ok(removal) && match removal {
            Some(due) => uninstall_start(*old(state)).1 == Some(
                (due.embed, due.restore, due.commands@, due.notice),
            ),
            None => uninstall_start(*old(state)).1 is None,
        },
{
    match state.embed.take() {
        Some(embed) => {
            let (restore, commands) = restore_webview();
            Ok(Some(Removal { embed, restore, commands, notice: Notice::Uninstalled }))
        },
        None => Ok(None),
    }
}

/// Follows a change of the video geometry, which asks for nothing, whatever is embedded: the
/// area fills the window by its expand flags, so there is no geometry to track.
pub fn resize_to<E>(state: &Embedding<E>) -> (outcome: Result<Option<Command>, String>)
    ensures
        outcome is Ok,
        outcome->Ok_0 is None,
{
    Ok(None)
}

/// What readies the window, by the values that decide: nothing where its screen has no RGBA
/// visual; else the visual, and then either an app-paintable window or, exactly where the switch
/// is the one character "1", a line in the log.
pub proof fn law_visual_commands(available: bool, no_app_paintable: Option<&str>)
    ensures
        ({
            let commands = visual_commands(
                available,
                crate::graphics::is_on(crate::backend::optional_text(no_app_paintable)),
            );
            let kept = no_app_paintable matches Some(value) && value@.len() == 1 && value@[0]
                == '1';
            &&& !available ==> commands.len() == 0
            &&& available ==> commands.len() == 2 && commands[0] is SetVisual
            &&& available && kept ==> commands[1] == Command::Log(Notice::PainterKept)
            &&& available && !kept ==> commands[1] == Command::SetAppPaintable(Widget::Window, true)
        }),
{
    crate::graphics::law_switch(no_app_paintable);
}

/// Arranging the widgets connects the render handler exactly once, as the last thing, and with
/// the very handle that was prepared: its mpv handle, its backend and its display. A resize
/// handler is connected before it, also once.
pub proof fn law_render_handler_gets_the_prepared_handle(
    pending: Pending,
    opaque_webview: Option<&str>,
    i: int,
)
    requires
        0 <= i < arranging_commands(
            pending,
            crate::graphics::is_on(crate::backend::optional_text(opaque_webview)),
        ).len(),
    ensures
        ({
            let commands = arranging_commands(
                pending,
                crate::graphics::is_on(crate::backend::optional_text(opaque_webview)),
            );
            let opaque = opaque_webview matches Some(value) && value@.len() == 1 && value@[0]
                == '1';
            &&& commands.len() == (if opaque {
                21int
            } else {
                20
            })
            &&& commands[i] is ConnectRender <==> i == commands.len() - 1
            &&& commands[i] is ConnectResize <==> i == commands.len() - 2
            &&& commands[i] matches Command::ConnectRender(handle) ==> {
                &&& handle.mpv == pending.mpv
                &&& handle.backend == pending.backend
                &&& handle.display_native == pending.display_native
            }
            &&& commands[i] matches Command::Log(notice) ==> notice is WebviewLeftOpaque && opaque
        }),
{
    crate::graphics::law_switch(opaque_webview);
}

/// A widget whose parent is no container is left where it is: nothing is taken out of such a
/// parent, and nothing that has one is put anywhere. The steps follow each other all the same.
pub proof fn law_odd_parents_are_left_alone(restore: Restore, parent: Parent)
    ensures
        forall|i: int|
            0 <= i < restore.answered(Parent::Other).1.len() ==> #[trigger] restore.answered(
                Parent::Other,
            ).1[i] == Command::ShowAll(Widget::Vbox),
        restore.answered(Parent::Other).1.len() == 1 <==> restore is AddVbox,
        restore.answered(parent).0 == restore.answered(Parent::Other).0,
        restore is FreeWebView ==> restore.answered(parent).0 is FreeOverlay,
        restore is FreeOverlay ==> restore.answered(parent).0 is PackWebView,
        restore is PackWebView ==> restore.answered(parent).0 is AddVbox,
        restore is AddVbox ==> restore.answered(parent).0 is Finished,
        restore.examined() is None <==> restore is Finished,
{
}

/// A reply that answers another action than the one that is due changes nothing and asks for
/// nothing, and an embedding that is done or has failed stays so.
pub proof fn law_install_goes_by_turns<E>(
    install: Install,
    state: Embedding<E>,
    reply: InstallReply<'_, E>,
)
    requires
        install.due() is ReadParent ==> !(reply is Parent),
        install.due() is ReadVisual ==> !(reply is Visual),
        install.due() is ReadChild ==> !(reply is Child),
        install.due() is Keep ==> !(reply is Embed),
    ensures
        install.answered(state, reply).0 == install,
        install.answered(state, reply).1 == state,
        install.answered(state, reply).2.len() == 0,
        install.due() is Finished <==> install is Finished,
{
}

} // verus!
