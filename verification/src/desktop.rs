//! A model of the widget tree, and what embedding and its undoing do to it.
//!
//! A `Desktop` is about one window, one box and one web view, which is the first child of the
//! box. Other children of the box, if there are any, stay in it throughout and do not show in
//! the model.

use vstd::prelude::*;

use crate::embed::{Command, Embedding, Install, InstallAction, InstallError, InstallReply};
use crate::embed::{Parent, Pending, Restore, Widget};
use crate::notice::Notice;

verus! {

/// Where a widget is.
pub enum Place {
    In(Widget),
    /// In some container that is not among the widgets.
    Elsewhere,
    /// In a parent that is no container.
    Odd,
}

/// How the GL area is set up. Nothing is known of the flags of a new area, which has no
/// handlers.
pub struct AreaSetup {
    pub auto_render: bool,
    pub use_es: bool,
    pub has_depth_buffer: bool,
    pub has_stencil_buffer: bool,
    pub paintable: bool,
    pub hexpand: bool,
    pub vexpand: bool,
    /// How many resize handlers are connected.
    pub resize_handlers: nat,
    /// The handle of each render handler that is connected.
    pub render_handlers: Seq<Pending>,
}

/// The widgets that matter: what each is in, and how the web view is painted; how the area is
/// set up; and what was asked of the window, the main loop and the log.
pub struct Desktop {
    pub vbox: Option<Place>,
    pub web_view: Option<Place>,
    pub overlay: Option<Place>,
    pub area: Option<Place>,
    /// The window holds a child that is none of the widgets above.
    pub window_has_other: bool,
    pub webview_paintable: bool,
    pub webview_opaque: bool,
    pub setup: AreaSetup,
    /// The window has the RGBA visual of its screen.
    pub window_visual: bool,
    pub window_paintable: bool,
    /// The web view lets events through to what lies under it.
    pub pass_through: bool,
    pub vbox_shown: bool,
    pub webview_shown: bool,
    pub overlay_shown: bool,
    pub area_shown: bool,
    /// How many renders of the area were queued.
    pub renders: nat,
    /// How many redraws of the web view were queued.
    pub draws: nat,
    pub log: Seq<Notice>,
}

impl Desktop {
    /// What a widget is in. A window is in nothing.
    pub open spec fn place_of(self, widget: Widget) -> Option<Place> {
        match widget {
            Widget::Window => None,
            Widget::Vbox => self.vbox,
            Widget::WebView => self.web_view,
            Widget::Overlay => self.overlay,
            Widget::Area => self.area,
        }
    }

    /// The desktop with a widget moved.
    pub open spec fn moved(self, widget: Widget, place: Option<Place>) -> Desktop {
        match widget {
            Widget::Window => self,
            Widget::Vbox => Desktop { vbox: place, ..self },
            Widget::WebView => Desktop { web_view: place, ..self },
            Widget::Overlay => Desktop { overlay: place, ..self },
            Widget::Area => Desktop { area: place, ..self },
        }
    }

    /// The window has its one child.
    pub open spec fn window_is_taken(self) -> bool {
        let there = Some(Place::In(Widget::Window));
        ||| self.window_has_other
        ||| self.vbox == there
        ||| self.web_view == there
        ||| self.overlay == there
        ||| self.area == there
    }

    /// The desktop with a widget put into a container. GTK refuses a widget that is in one
    /// already, and a second child of a window.
    pub open spec fn placed(self, widget: Widget, container: Widget) -> Desktop {
        if self.place_of(widget) is Some || (container is Window && self.window_is_taken()) {
            self
        } else {
            self.moved(widget, Some(Place::In(container)))
        }
    }

    /// What an old overlay held is elsewhere once there is a new one.
    pub open spec fn left_behind(place: Option<Place>) -> Option<Place> {
        if place == Some(Place::In(Widget::Overlay)) {
            Some(Place::Elsewhere)
        } else {
            place
        }
    }

    /// The desktop with a widget shown.
    pub open spec fn shown(self, widget: Widget) -> Desktop {
        match widget {
            Widget::Window => self,
            Widget::Vbox => Desktop { vbox_shown: true, ..self },
            Widget::WebView => Desktop { webview_shown: true, ..self },
            Widget::Overlay => Desktop { overlay_shown: true, ..self },
            Widget::Area => Desktop { area_shown: true, ..self },
        }
    }

    /// The desktop with a widget shown, and with it what the widget holds.
    pub open spec fn all_shown(self, widget: Widget) -> Desktop {
        let inside = Some(Place::In(widget));
        Desktop {
            vbox_shown: self.vbox_shown || widget is Vbox || self.vbox == inside,
            webview_shown: self.webview_shown || widget is WebView || self.web_view == inside,
            overlay_shown: self.overlay_shown || widget is Overlay || self.overlay == inside,
            area_shown: self.area_shown || widget is Area || self.area == inside,
            ..self
        }
    }

    /// The desktop after a command, by its meaning in GTK.
    #[verifier::opaque]
    pub open spec fn after(self, command: Command) -> Desktop {
        match command {
            Command::Log(notice) => Desktop { log: self.log.push(notice), ..self },
            Command::SetVisual => Desktop { window_visual: true, ..self },
            Command::SetAppPaintable(widget, paintable) => match widget {
                Widget::Window => Desktop { window_paintable: paintable, ..self },
                Widget::WebView => Desktop { webview_paintable: paintable, ..self },
                Widget::Area => Desktop { setup: AreaSetup { paintable, ..self.setup }, ..self },
                _ => self,
            },
            Command::SetWebviewBackground(opaque) => Desktop { webview_opaque: opaque, ..self },
            Command::NewOverlay => Desktop {
                vbox: Self::left_behind(self.vbox),
                web_view: Self::left_behind(self.web_view),
                overlay: None,
                area: Self::left_behind(self.area),
                overlay_shown: false,
                ..self
            },
            Command::NewArea => Desktop {
                area: None,
                area_shown: false,
                setup: AreaSetup { resize_handlers: 0, render_handlers: seq![], ..self.setup },
                ..self
            },
            Command::SetAutoRender(auto_render) => Desktop {
                setup: AreaSetup { auto_render, ..self.setup },
                ..self
            },
            Command::SetUseEs(use_es) => Desktop {
                setup: AreaSetup { use_es, ..self.setup },
                ..self
            },
            Command::SetHasDepthBuffer(has_depth_buffer) => Desktop {
                setup: AreaSetup { has_depth_buffer, ..self.setup },
                ..self
            },
            Command::SetHasStencilBuffer(has_stencil_buffer) => Desktop {
                setup: AreaSetup { has_stencil_buffer, ..self.setup },
                ..self
            },
            Command::SetHexpand(hexpand) => Desktop {
                setup: AreaSetup { hexpand, ..self.setup },
                ..self
            },
            Command::SetVexpand(vexpand) => Desktop {
                setup: AreaSetup { vexpand, ..self.setup },
                ..self
            },
            Command::Remove { container, child } => if self.place_of(child) == Some(
                Place::In(container),
            ) {
                self.moved(child, None)
            } else {
                self
            },
            Command::RemoveFromParent(widget) => self.moved(widget, None),
            Command::Add { container, child } => self.placed(child, container),
            Command::AddOverlay(widget) => self.placed(widget, Widget::Overlay),
            Command::PackStart(widget) => self.placed(widget, Widget::Vbox),
            Command::SetOverlayPassThrough(widget, through) => if widget is WebView {
                Desktop { pass_through: through, ..self }
            } else {
                self
            },
            Command::Show(widget) => self.shown(widget),
            Command::ShowAll(widget) => self.all_shown(widget),
            Command::ConnectResize => Desktop {
                setup: AreaSetup {
                    resize_handlers: self.setup.resize_handlers + 1,
                    ..self.setup
                },
                ..self
            },
            Command::ConnectRender(handle) => Desktop {
                setup: AreaSetup {
                    render_handlers: self.setup.render_handlers.push(handle),
                    ..self.setup
                },
                ..self
            },
            Command::QueueRender => Desktop { renders: self.renders + 1, ..self },
            Command::QueueDraw => Desktop { draws: self.draws + 1, ..self },
        }
    }

    /// The desktop after the first `count` commands.
    pub open spec fn after_first(self, commands: Seq<Command>, count: nat) -> Desktop
        decreases count,
    {
        if count == 0 {
            self
        } else {
            self.after_first(commands, (count - 1) as nat).after(commands[count - 1])
        }
    }

    /// The desktop after a row of commands.
    pub open spec fn after_all(self, commands: Seq<Command>) -> Desktop {
        self.after_first(commands, commands.len())
    }

    /// What looking at the parent of a widget shows.
    pub open spec fn parent_of(self, widget: Widget) -> Parent {
        match self.place_of(widget) {
            Some(Place::Odd) => Parent::Other,
            Some(_) => Parent::Container,
            None => Parent::Missing,
        }
    }

    /// The web view fills the window by way of the box.
    pub open spec fn is_plain(self) -> bool {
        &&& self.vbox == Some(Place::In(Widget::Window))
        &&& self.web_view == Some(Place::In(Widget::Vbox))
        &&& !self.window_has_other
    }

    /// The web view lies over the GL area, and both fill the window by way of the overlay.
    pub open spec fn is_embedded(self) -> bool {
        &&& self.vbox is None
        &&& self.overlay == Some(Place::In(Widget::Window))
        &&& self.area == Some(Place::In(Widget::Overlay))
        &&& self.web_view == Some(Place::In(Widget::Overlay))
        &&& !self.window_has_other
    }

    /// The desktop once the steps of putting the web view back are done.
    pub open spec fn after_steps(self, restore: Restore) -> Desktop
        decreases restore.left(),
    {
        match restore.examined() {
            Some(widget) => {
                let (next, commands) = restore.answered(self.parent_of(widget));
                self.after_all(commands).after_steps(next)
            },
            None => self,
        }
    }

    /// The desktop once the web view is put back, from the first command to the last step.
    pub open spec fn restored(self) -> Desktop {
        let (restore, commands) = crate::embed::restore_start();
        self.after_all(commands).after_steps(restore)
    }
}

proof fn lemma_one_command(desktop: Desktop, commands: Seq<Command>)
    ensures
        commands.len() == 0 ==> desktop.after_all(commands) == desktop,
        commands.len() == 1 ==> desktop.after_all(commands) == desktop.after(commands[0]),
{
    reveal_with_fuel(Desktop::after_first, 2);
}

proof fn lemma_two_commands(desktop: Desktop, commands: Seq<Command>)
    ensures
        commands.len() == 0 ==> desktop.after_all(commands) == desktop,
        commands.len() == 2 ==> desktop.after_all(commands) == desktop.after(commands[0]).after(
            commands[1],
        ),
{
    reveal_with_fuel(Desktop::after_first, 3);
}

proof fn lemma_made_opaque(desktop: Desktop)
    ensures
        desktop.after(Command::SetAppPaintable(Widget::WebView, false)).after(
            Command::SetWebviewBackground(true),
        ) == (Desktop { webview_paintable: false, webview_opaque: true, ..desktop }),
{
    reveal(Desktop::after);
}

proof fn lemma_taken_out(desktop: Desktop, widget: Widget)
    ensures
        desktop.after(Command::RemoveFromParent(widget)) == desktop.moved(widget, None),
{
    reveal(Desktop::after);
}

proof fn lemma_packed(desktop: Desktop)
    ensures
        desktop.web_view is None ==> desktop.after(Command::PackStart(Widget::WebView)).after(
            Command::Show(Widget::WebView),
        ) == (Desktop { web_view: Some(Place::In(Widget::Vbox)), webview_shown: true, ..desktop }),
{
    reveal(Desktop::after);
}

proof fn lemma_box_is_added(desktop: Desktop)
    requires
        desktop.web_view == Some(Place::Odd) || desktop.web_view == Some(Place::In(Widget::Vbox)),
        desktop.overlay is None || desktop.overlay == Some(Place::Odd),
    ensures
        ({
            let (next, adding) = Restore::AddVbox.answered(desktop.parent_of(Widget::Vbox));
            let there = Some(Place::In(Widget::Window));
            &&& next is Finished
            &&& desktop.after_all(adding) == (Desktop {
                vbox: if desktop.vbox is Some {
                    desktop.vbox
                } else if desktop.window_has_other || desktop.area == there {
                    None
                } else {
                    there
                },
                vbox_shown: true,
                webview_shown: desktop.webview_shown || desktop.web_view == Some(
                    Place::In(Widget::Vbox),
                ),
                area_shown: desktop.area_shown || desktop.area == Some(Place::In(Widget::Vbox)),
                ..desktop
            })
        }),
{
    let (next, adding) = Restore::AddVbox.answered(desktop.parent_of(Widget::Vbox));
    let there = Some(Place::In(Widget::Window));
    reveal(Desktop::after);
    if desktop.vbox is None {
        assert(adding.len() == 2);
        lemma_two_commands(desktop, adding);
        let added = Desktop {
            vbox: if desktop.window_has_other || desktop.area == there {
                None
            } else {
                there
            },
            ..desktop
        };
        assert(desktop.after(adding[0]) == added);
        assert(adding[1] == Command::ShowAll(Widget::Vbox));
    } else {
        assert(adding.len() == 1);
        lemma_one_command(desktop, adding);
        assert(adding[0] == Command::ShowAll(Widget::Vbox));
    }
}

/// Putting the web view back, from whatever state: it ends in the box, opaque and shown; the
/// overlay ends in nothing; and a box that was in nothing ends in the window, unless the window
/// has another child, be it the GL area itself or a widget from elsewhere. The box is shown. A
/// web view or an overlay whose parent is no container stays in it. All else is as it was.
pub proof fn law_restoring(desktop: Desktop)
    ensures
        desktop.restored() == (Desktop {
            vbox: (if desktop.vbox is Some {
                desktop.vbox
            } else if desktop.window_has_other || desktop.area == Some(
                Place::In(Widget::Window),
            ) {
                None
            } else {
                Some(Place::In(Widget::Window))
            }),
            web_view: (if desktop.web_view == Some(Place::Odd) {
                desktop.web_view
            } else {
                Some(Place::In(Widget::Vbox))
            }),
            overlay: (if desktop.overlay == Some(Place::Odd) {
                desktop.overlay
            } else {
                None
            }),
            webview_paintable: false,
            webview_opaque: true,
            vbox_shown: true,
            webview_shown: (desktop.webview_shown || desktop.web_view != Some(Place::Odd)),
            area_shown: (desktop.area_shown || desktop.area == Some(Place::In(Widget::Vbox))),
            ..desktop
        }),
{
    let (start, background) = crate::embed::restore_start();
    lemma_two_commands(desktop, background);
    let opaque = desktop.after_all(background);
    lemma_made_opaque(desktop);
    let (second, freeing) = start.answered(opaque.parent_of(Widget::WebView));
    lemma_one_command(opaque, freeing);
    lemma_taken_out(opaque, Widget::WebView);
    let freed = opaque.after_all(freeing);
    let (third, clearing) = second.answered(freed.parent_of(Widget::Overlay));
    lemma_one_command(freed, clearing);
    lemma_taken_out(freed, Widget::Overlay);
    let bare = freed.after_all(clearing);
    let (fourth, packing) = third.answered(bare.parent_of(Widget::WebView));
    lemma_two_commands(bare, packing);
    lemma_packed(bare);
    let packed = bare.after_all(packing);
    let (fifth, adding) = fourth.answered(packed.parent_of(Widget::Vbox));
    lemma_box_is_added(packed);
    let added = packed.after_all(adding);
    assert(desktop.restored() == opaque.after_steps(start));
    assert(opaque.after_steps(start) == freed.after_steps(second));
    assert(freed.after_steps(second) == bare.after_steps(third));
    assert(bare.after_steps(third) == packed.after_steps(fourth));
    assert(packed.after_steps(fourth) == added.after_steps(fifth));
    assert(added.after_steps(fifth) == added);
}

/// Putting the web view back a second time changes nothing.
pub proof fn law_restoring_twice(desktop: Desktop)
    ensures
        desktop.restored().restored() == desktop.restored(),
{
    law_restoring(desktop);
    law_restoring(desktop.restored());
}

/// What an embedding meets besides the widget tree.
pub struct InstallWorld<E> {
    /// The window's screen has an RGBA visual.
    pub visual: bool,
    pub no_app_paintable: Option<&'static str>,
    pub opaque_webview: Option<&'static str>,
    /// The handles of the new embedding.
    pub embed: E,
}

impl<E> InstallWorld<E> {
    /// What comes of an action. The box has a child where the web view is in it.
    pub open spec fn reply(self, action: InstallAction, desktop: Desktop) -> InstallReply<
        'static,
        E,
    > {
        match action {
            InstallAction::ReadParent(widget) => InstallReply::Parent(desktop.parent_of(widget)),
            InstallAction::ReadVisual => InstallReply::Visual {
                available: self.visual,
                no_app_paintable: self.no_app_paintable,
            },
            InstallAction::ReadChild => InstallReply::Child {
                present: desktop.web_view == Some(Place::In(Widget::Vbox)),
                opaque_webview: self.opaque_webview,
            },
            InstallAction::Keep => InstallReply::Embed(self.embed),
            InstallAction::Finished(_) => InstallReply::Embed(self.embed),
        }
    }

    /// The web view is to stay opaque.
    pub open spec fn wants_opaque(self) -> bool {
        crate::graphics::is_on(crate::backend::optional_text(self.opaque_webview))
    }

    /// The desktop whose window is readied: with the visual of its screen, if there is one, and
    /// then app-paintable, unless the switch is the one character "1", which the log is told of.
    pub open spec fn readied(self, desktop: Desktop) -> Desktop {
        let keeps_painter = self.no_app_paintable matches Some(value) && value@ == seq!['1'];
        if !self.visual {
            desktop
        } else if keeps_painter {
            Desktop {
                window_visual: true,
                log: desktop.log + seq![Notice::PainterKept],
                ..desktop
            }
        } else {
            Desktop { window_visual: true, window_paintable: true, ..desktop }
        }
    }
}

/// How many actions can still come.
pub open spec fn install_left(install: Install) -> nat {
    match install {
        Install::Restoring(restore) => restore.left() + 4,
        Install::Readying(_) => 3,
        Install::Seeking(_) => 2,
        Install::Keeping(_) => 1,
        Install::Finished(_) => 0,
    }
}

/// What an embedding ends with.
pub struct InstallRun<E> {
    pub outcome: Result<(), InstallError>,
    pub state: Embedding<E>,
    pub desktop: Desktop,
}

/// Runs an embedding from some step to its end.
pub open spec fn install_run<E>(
    install: Install,
    state: Embedding<E>,
    desktop: Desktop,
    world: InstallWorld<E>,
) -> InstallRun<E>
    decreases install_left(install),
{
    match install.due() {
        InstallAction::Finished(outcome) => InstallRun { outcome, state, desktop },
        action => {
            let (next, kept, commands) = install.answered(state, world.reply(action, desktop));
            install_run(next, kept, desktop.after_all(commands), world)
        },
    }
}

/// A whole embedding, from the call of `install` to its end, where a stale embedding has the
/// same window and box as the new one.
pub open spec fn whole_install<E>(
    state: Embedding<E>,
    desktop: Desktop,
    world: InstallWorld<E>,
) -> InstallRun<E> {
    let (install, kept, commands) = crate::embed::install_start(state);
    install_run(install, kept, desktop.after_all(commands), world)
}

/// The desktop that an embedding starts from, once a stale one is undone.
pub open spec fn cleared<E>(state: Embedding<E>, desktop: Desktop) -> Desktop {
    if state.embed is Some {
        desktop.restored()
    } else {
        desktop
    }
}

proof fn lemma_restoring_comes_first<E>(
    restore: Restore,
    state: Embedding<E>,
    desktop: Desktop,
    world: InstallWorld<E>,
)
    requires
        !(restore is Finished),
    ensures
        install_run(Install::Restoring(restore), state, desktop, world) == install_run(
            crate::embed::unblocked(state.pending),
            Embedding { pending: None, ..state },
            desktop.after_steps(restore),
            world,
        ),
    decreases restore.left(),
{
    let widget = restore.examined()->0;
    let (next, commands) = restore.answered(desktop.parent_of(widget));
    if next is Finished {
        reveal_with_fuel(Desktop::after_steps, 2);
    } else {
        lemma_restoring_comes_first(next, state, desktop.after_all(commands), world);
    }
}

proof fn lemma_visual_moves_nothing<E>(desktop: Desktop, world: InstallWorld<E>)
    ensures
        desktop.after_all(
            crate::embed::visual_commands(
                world.visual,
                crate::graphics::is_on(crate::backend::optional_text(world.no_app_paintable)),
            ),
        ) == world.readied(desktop),
{
    reveal(Desktop::after);
    reveal_with_fuel(Desktop::after_first, 3);
    reveal_strlit("1");
    assert("1"@ =~= seq!['1']);
    assert(desktop.log.push(Notice::PainterKept) =~= desktop.log + seq![Notice::PainterKept]);
}

/// What arranging the widgets makes of a desktop whose web view is in the box.
spec fn is_arranged(
    before: Desktop,
    after: Desktop,
    pending: Pending,
    opaque: bool,
) -> bool {
    &&& after.webview_opaque == opaque
    &&& after.webview_paintable == !opaque
    &&& !after.setup.auto_render
    &&& !after.setup.use_es
    &&& !after.setup.has_depth_buffer
    &&& !after.setup.has_stencil_buffer
    &&& after.setup.paintable
    &&& after.setup.hexpand
    &&& after.setup.vexpand
    &&& after.setup.resize_handlers == 1
    &&& after.setup.render_handlers == seq![pending]
    &&& !after.pass_through
    &&& after.web_view == Some(Place::In(Widget::Overlay))
    &&& after.area == Some(Place::In(Widget::Overlay))
    &&& after.webview_shown
    &&& after.area_shown
    &&& after.overlay_shown
    &&& after.vbox_shown == before.vbox_shown
    &&& after.window_visual == before.window_visual
    &&& after.window_paintable == before.window_paintable
    &&& after.renders == before.renders
    &&& after.draws == before.draws
    &&& after.log == (if opaque {
        before.log + seq![Notice::WebviewLeftOpaque]
    } else {
        before.log
    })
    &&& before.is_plain() ==> after.is_embedded()
}

proof fn lemma_area_is_set_up(desktop: Desktop, commands: Seq<Command>)
    requires
        commands[0] is NewOverlay,
        commands[1] is NewArea,
        commands[2] == Command::SetAutoRender(false),
        commands[3] == Command::SetUseEs(false),
        commands[4] == Command::SetHasDepthBuffer(false),
        commands[5] == Command::SetHasStencilBuffer(false),
        commands[6] == Command::SetAppPaintable(Widget::Area, true),
        commands[7] == Command::SetHexpand(true),
        commands[8] == Command::SetVexpand(true),
    ensures
        desktop.after_first(commands, 9) == (Desktop {
            vbox: Desktop::left_behind(desktop.vbox),
            web_view: Desktop::left_behind(desktop.web_view),
            overlay: None,
            area: None,
            overlay_shown: false,
            area_shown: false,
            setup: AreaSetup {
                auto_render: false,
                use_es: false,
                has_depth_buffer: false,
                has_stencil_buffer: false,
                paintable: true,
                hexpand: true,
                vexpand: true,
                resize_handlers: 0,
                render_handlers: seq![],
            },
            ..desktop
        }),
{
    reveal(Desktop::after);
    let first = desktop.after(commands[0]);
    assert(desktop.after_first(commands, 0) == desktop);
    assert(desktop.after_first(commands, 1) == first);
    let second = first.after(commands[1]);
    assert(desktop.after_first(commands, 2) == second);
    let third = second.after(commands[2]);
    assert(desktop.after_first(commands, 3) == third);
    let fourth = third.after(commands[3]);
    assert(desktop.after_first(commands, 4) == fourth);
    let fifth = fourth.after(commands[4]);
    assert(desktop.after_first(commands, 5) == fifth);
    let sixth = fifth.after(commands[5]);
    assert(desktop.after_first(commands, 6) == sixth);
    let seventh = sixth.after(commands[6]);
    assert(desktop.after_first(commands, 7) == seventh);
    let eighth = seventh.after(commands[7]);
    assert(desktop.after_first(commands, 8) == eighth);
    assert(desktop.after_first(commands, 9) == eighth.after(commands[8]));
}

proof fn lemma_removed(desktop: Desktop, container: Widget, child: Widget)
    ensures
        desktop.after(Command::Remove { container, child }) == (if desktop.place_of(child) == Some(
            Place::In(container),
        ) {
            desktop.moved(child, None)
        } else {
            desktop
        }),
{
    reveal(Desktop::after);
}

proof fn lemma_placed(desktop: Desktop, container: Widget, child: Widget)
    ensures
        desktop.after(Command::Add { container, child }) == desktop.placed(child, container),
        container is Overlay ==> desktop.after(Command::AddOverlay(child)) == desktop.placed(
            child,
            container,
        ),
{
    reveal(Desktop::after);
}

proof fn lemma_stacking(before: Desktop)
    requires
        before.web_view == Some(Place::In(Widget::Vbox)),
        before.overlay is None,
        before.area is None,
    ensures
        before.after(
            Command::Remove { container: Widget::Window, child: Widget::Vbox },
        ).after(Command::Remove { container: Widget::Vbox, child: Widget::WebView }).after(
            Command::Add { container: Widget::Overlay, child: Widget::Area },
        ).after(Command::AddOverlay(Widget::WebView)).after(
            Command::SetOverlayPassThrough(Widget::WebView, false),
        ).after(Command::Add { container: Widget::Window, child: Widget::Overlay }) == (Desktop {
            vbox: if before.vbox == Some(Place::In(Widget::Window)) {
                None
            } else {
                before.vbox
            },
            web_view: Some(Place::In(Widget::Overlay)),
            area: Some(Place::In(Widget::Overlay)),
            overlay: if before.window_has_other {
                None
            } else {
                Some(Place::In(Widget::Window))
            },
            pass_through: false,
            ..before
        }),
{
    let there = Some(Place::In(Widget::Window));
    let inside = Some(Place::In(Widget::Overlay));
    let unhung = Desktop {
        vbox: if before.vbox == there {
            None
        } else {
            before.vbox
        },
        ..before
    };
    lemma_removed(before, Widget::Window, Widget::Vbox);
    let emptied = Desktop { web_view: None, ..unhung };
    lemma_removed(unhung, Widget::Vbox, Widget::WebView);
    let filled = Desktop { area: inside, ..emptied };
    lemma_placed(emptied, Widget::Overlay, Widget::Area);
    let covered = Desktop { web_view: inside, ..filled };
    lemma_placed(filled, Widget::Overlay, Widget::WebView);
    let caught = Desktop { pass_through: false, ..covered };
    assert(covered.after(Command::SetOverlayPassThrough(Widget::WebView, false)) == caught) by {
        reveal(Desktop::after);
    }
    assert(caught.window_is_taken() == before.window_has_other);
    lemma_placed(caught, Widget::Window, Widget::Overlay);
}

proof fn lemma_widgets_are_stacked(desktop: Desktop, commands: Seq<Command>)
    requires
        commands[9] == (Command::Remove { container: Widget::Window, child: Widget::Vbox }),
        commands[10] == (Command::Remove { container: Widget::Vbox, child: Widget::WebView }),
        commands[11] == (Command::Add { container: Widget::Overlay, child: Widget::Area }),
        commands[12] == Command::AddOverlay(Widget::WebView),
        commands[13] == Command::SetOverlayPassThrough(Widget::WebView, false),
        commands[14] == (Command::Add { container: Widget::Window, child: Widget::Overlay }),
        desktop.after_first(commands, 9).web_view == Some(Place::In(Widget::Vbox)),
        desktop.after_first(commands, 9).overlay is None,
        desktop.after_first(commands, 9).area is None,
    ensures
        ({
            let before = desktop.after_first(commands, 9);
            let there = Some(Place::In(Widget::Window));
            let vbox = if before.vbox == there {
                None
            } else {
                before.vbox
            };
            desktop.after_first(commands, 15) == (Desktop {
                vbox,
                web_view: Some(Place::In(Widget::Overlay)),
                area: Some(Place::In(Widget::Overlay)),
                overlay: if before.window_has_other {
                    None
                } else {
                    there
                },
                pass_through: false,
                ..before
            })
        }),
{
    let before = desktop.after_first(commands, 9);
    lemma_stacking(before);
    let tenth = before.after(commands[9]);
    assert(desktop.after_first(commands, 10) == tenth);
    let eleventh = tenth.after(commands[10]);
    assert(desktop.after_first(commands, 11) == eleventh);
    let twelfth = eleventh.after(commands[11]);
    assert(desktop.after_first(commands, 12) == twelfth);
    let thirteenth = twelfth.after(commands[12]);
    assert(desktop.after_first(commands, 13) == thirteenth);
    let fourteenth = thirteenth.after(commands[13]);
    assert(desktop.after_first(commands, 14) == fourteenth);
    assert(desktop.after_first(commands, 15) == fourteenth.after(commands[14]));
}

proof fn lemma_handlers_are_connected(
    desktop: Desktop,
    commands: Seq<Command>,
    at: nat,
    pending: Pending,
    opaque: bool,
)
    requires
        commands[at as int] == Command::SetAppPaintable(Widget::WebView, !opaque),
        commands[at as int + 1] == Command::SetWebviewBackground(opaque),
        commands[at as int + 2] == Command::ShowAll(Widget::Overlay),
        commands[at as int + 3] is ConnectResize,
        commands[at as int + 4] == Command::ConnectRender(pending),
        desktop.after_first(commands, at).web_view == Some(Place::In(Widget::Overlay)),
        desktop.after_first(commands, at).area == Some(Place::In(Widget::Overlay)),
    ensures
        ({
            let before = desktop.after_first(commands, at);
            desktop.after_first(commands, at + 5) == (Desktop {
                webview_paintable: !opaque,
                webview_opaque: opaque,
                vbox_shown: before.vbox_shown || before.vbox == Some(Place::In(Widget::Overlay)),
                webview_shown: true,
                overlay_shown: true,
                area_shown: true,
                setup: AreaSetup {
                    resize_handlers: before.setup.resize_handlers + 1,
                    render_handlers: before.setup.render_handlers.push(pending),
                    ..before.setup
                },
                ..before
            })
        }),
{
    reveal(Desktop::after);
    let before = desktop.after_first(commands, at);
    let first = before.after(commands[at as int]);
    assert(desktop.after_first(commands, at + 1) == first);
    let second = first.after(commands[at as int + 1]);
    assert(desktop.after_first(commands, at + 2) == second);
    let third = second.after(commands[at as int + 2]);
    assert(desktop.after_first(commands, at + 3) == third);
    let fourth = third.after(commands[at as int + 3]);
    assert(desktop.after_first(commands, at + 4) == fourth);
    assert(desktop.after_first(commands, at + 5) == fourth.after(commands[at as int + 4]));
}

proof fn lemma_arranging(desktop: Desktop, pending: Pending, opaque: bool)
    requires
        desktop.web_view == Some(Place::In(Widget::Vbox)),
    ensures
        is_arranged(
            desktop,
            desktop.after_all(crate::embed::arranging_commands(pending, opaque)),
            pending,
            opaque,
        ),
{
    let commands = crate::embed::arranging_commands(pending, opaque);
    lemma_area_is_set_up(desktop, commands);
    lemma_widgets_are_stacked(desktop, commands);
    let hung = desktop.after_first(commands, 15);
    let at: nat = if opaque {
        16
    } else {
        15
    };
    if opaque {
        assert(commands[15] == Command::Log(Notice::WebviewLeftOpaque));
        assert(desktop.after_first(commands, 16) == hung.after(commands[15]));
        reveal(Desktop::after);
        assert(hung.log.push(Notice::WebviewLeftOpaque) =~= hung.log
            + seq![Notice::WebviewLeftOpaque]);
    }
    lemma_handlers_are_connected(desktop, commands, at, pending, opaque);
    assert(commands.len() == at + 5);
    assert(Seq::<Pending>::empty().push(pending) =~= seq![pending]);
}

proof fn lemma_embedding<E>(
    pending: Pending,
    state: Embedding<E>,
    start: Desktop,
    world: InstallWorld<E>,
)
    ensures
        ({
            let run = install_run(Install::Readying(pending), state, start, world);
            let readied = world.readied(start);
            let opaque = world.wants_opaque();
            &&& opaque <==> (world.opaque_webview matches Some(value) && value@ == seq!['1'])
            &&& start.web_view != Some(Place::In(Widget::Vbox)) ==> run == (InstallRun {
                outcome: Err(InstallError::NoWebview),
                state,
                desktop: readied,
            })
            &&& start.web_view == Some(Place::In(Widget::Vbox)) ==> {
                let arranged = readied.after_all(
                    crate::embed::arranging_commands(pending, opaque),
                );
                &&& is_arranged(readied, arranged, pending, opaque)
                &&& run == (InstallRun {
                    outcome: Ok(()),
                    state: Embedding { embed: Some(world.embed), ..state },
                    desktop: Desktop {
                        renders: arranged.renders + 1,
                        log: arranged.log.push(Notice::Installed(pending.backend)),
                        ..arranged
                    },
                })
            }
        }),
{
    lemma_visual_moves_nothing(start, world);
    let readied = world.readied(start);
    let opaque = world.wants_opaque();
    reveal_strlit("1");
    assert("1"@ =~= seq!['1']);
    assert(install_run(Install::Readying(pending), state, start, world) == install_run(
        Install::Seeking(pending),
        state,
        readied,
        world,
    ));
    if start.web_view == Some(Place::In(Widget::Vbox)) {
        lemma_arranging(readied, pending, opaque);
        let arranged = readied.after_all(crate::embed::arranging_commands(pending, opaque));
        assert(install_run(Install::Seeking(pending), state, readied, world) == install_run(
            Install::Keeping(pending),
            state,
            arranged,
            world,
        ));
        let kept = Embedding { embed: Some(world.embed), ..state };
        let last = Install::Keeping(pending).answered(
            state,
            InstallReply::Embed(world.embed),
        ).2;
        lemma_two_commands(arranged, last);
        reveal(Desktop::after);
        assert(install_run(Install::Keeping(pending), state, arranged, world) == install_run(
            Install::Finished(Ok(())),
            kept,
            arranged.after_all(last),
            world,
        ));
    } else {
        lemma_one_command(readied, seq![]);
        assert(install_run(Install::Seeking(pending), state, readied, world) == install_run(
            Install::Finished(Err(InstallError::NoWebview)),
            state,
            readied,
            world,
        ));
    }
}

/// What an embedding comes to, where a stale embedding, if there is one, has the same window
/// and the same box, and that box holds nothing but the web view. (With other children in it,
/// a web view that is put back comes after them, and the first child is another widget.)
///
/// It fails where nothing was prepared, or where the web view is
/// not in the box once a stale embedding is undone, and succeeds otherwise. Either way the
/// prepared handle is used up, and the stale embedding is gone. Without a prepared handle
/// nothing else is touched, and without a web view only the window is readied.
///
/// After success the GL area renders on demand, with desktop GL and without depth and stencil
/// buffers; it expands both ways; it has one resize handler and one render handler, and the
/// handle of that one is the handle that was prepared, whatever the switches say. The web view
/// catches the events over the area, and is opaque exactly where the switch is the one
/// character "1", which the log is told of. Everything in the overlay is shown, one render is
/// queued, and the log is told the backend of the prepared handle.
pub proof fn law_install_outcome<E>(
    state: Embedding<E>,
    desktop: Desktop,
    world: InstallWorld<E>,
)
    ensures
        ({
            let run = whole_install(state, desktop, world);
            let start = cleared(state, desktop);
            &&& run.outcome == (if state.pending is None {
                Err(InstallError::NoPending)
            } else if start.web_view != Some(Place::In(Widget::Vbox)) {
                Err(InstallError::NoWebview)
            } else {
                Ok(())
            })
            &&& run.state == (Embedding {
                pending: None,
                embed: if run.outcome is Ok {
                    Some(world.embed)
                } else {
                    None
                },
                proc_wayland: state.proc_wayland,
            })
            &&& state.pending is None ==> run.desktop == start
            &&& state.pending is Some && run.outcome is Err ==> run.desktop == world.readied(start)
            &&& run.outcome is Ok ==> {
                let readied = world.readied(start);
                let opaque = world.opaque_webview matches Some(value) && value@ == seq!['1'];
                let after = run.desktop;
                &&& after.setup.render_handlers == seq![state.pending->0]
                &&& after.setup.resize_handlers == 1
                &&& !after.setup.auto_render
                &&& !after.setup.use_es
                &&& !after.setup.has_depth_buffer
                &&& !after.setup.has_stencil_buffer
                &&& after.setup.paintable
                &&& after.setup.hexpand
                &&& after.setup.vexpand
                &&& !after.pass_through
                &&& after.webview_opaque == opaque
                &&& after.webview_paintable == !opaque
                &&& opaque == world.wants_opaque()
                &&& after.web_view == Some(Place::In(Widget::Overlay))
                &&& after.area == Some(Place::In(Widget::Overlay))
                &&& after.webview_shown && after.area_shown && after.overlay_shown
                &&& after.window_visual == readied.window_visual
                &&& after.window_paintable == readied.window_paintable
                &&& after.renders == start.renders + 1
                &&& after.draws == start.draws
                &&& after.log == readied.log + (if opaque {
                    seq![Notice::WebviewLeftOpaque]
                } else {
                    seq![]
                }) + seq![Notice::Installed((state.pending->0).backend)]
                &&& start.is_plain() ==> after.is_embedded()
            }
        }),
{
    let start = cleared(state, desktop);
    let emptied = Embedding { pending: None, embed: None::<E>, proc_wayland: state.proc_wayland };
    if state.embed is Some {
        lemma_restoring_comes_first(
            Restore::FreeWebView,
            Embedding { embed: None, ..state },
            desktop.after_all(crate::embed::background_commands(true)),
            world,
        );
    }
    assert(whole_install(state, desktop, world) == install_run(
        crate::embed::unblocked(state.pending),
        emptied,
        start,
        world,
    ));
    if let Some(pending) = state.pending {
        lemma_embedding(pending, emptied, start, world);
    }
}

/// Embedding into a plain desktop and undoing it leads back to the plain desktop, with the web
/// view opaque and nothing in the window but the box.
pub proof fn law_uninstall_undoes_install<E>(
    state: Embedding<E>,
    desktop: Desktop,
    world: InstallWorld<E>,
)
    requires
        state.pending is Some,
        state.embed is None,
        desktop.is_plain(),
    ensures
        ({
            let installed = whole_install(state, desktop, world);
            let after = installed.desktop.restored();
            &&& installed.outcome is Ok
            &&& installed.desktop.is_embedded()
            &&& after.is_plain()
            &&& after.overlay is None
            &&& after.webview_opaque
            &&& !after.webview_paintable
        }),
{
    law_install_outcome(state, desktop, world);
    law_restoring(whole_install(state, desktop, world).desktop);
}

/// Embedding a prepared handle over an embedding that is still there, in the same window and
/// the same box, works as well where that box holds nothing but the web view: the old embedding
/// is undone, and the new one takes its place.
pub proof fn law_install_replaces_stale_embedding<E>(
    state: Embedding<E>,
    desktop: Desktop,
    world: InstallWorld<E>,
)
    requires
        state.pending is Some,
        state.embed is Some,
        desktop.is_embedded(),
    ensures
        ({
            let run = whole_install(state, desktop, world);
            &&& run.outcome is Ok
            &&& run.state.embed == Some(world.embed)
            &&& run.desktop.is_embedded()
        }),
{
    law_install_outcome(state, desktop, world);
    law_restoring(desktop);
}

/// What an embedding ends with where a stale one shares no widget with it.
pub struct ApartRun<E> {
    pub outcome: Result<(), InstallError>,
    pub state: Embedding<E>,
    /// The widgets of the stale embedding.
    pub stale: Desktop,
    /// The widgets of the new one.
    pub fresh: Desktop,
}

/// Runs an embedding from some step to its end. The steps that undo the stale embedding are
/// about its widgets, and all others are about the new ones.
pub open spec fn apart_run<E>(
    install: Install,
    state: Embedding<E>,
    stale: Desktop,
    fresh: Desktop,
    world: InstallWorld<E>,
) -> ApartRun<E>
    decreases install_left(install),
{
    match install.due() {
        InstallAction::Finished(outcome) => ApartRun { outcome, state, stale, fresh },
        InstallAction::ReadParent(widget) => {
            let (next, kept, commands) = install.answered(
                state,
                world.reply(InstallAction::ReadParent(widget), stale),
            );
            apart_run(next, kept, stale.after_all(commands), fresh, world)
        },
        action => {
            let (next, kept, commands) = install.answered(state, world.reply(action, fresh));
            apart_run(next, kept, stale, fresh.after_all(commands), world)
        },
    }
}

/// A whole embedding, from the call of `install` to its end, over a stale embedding that shares
/// no widget with it.
pub open spec fn whole_apart<E>(
    state: Embedding<E>,
    stale: Desktop,
    fresh: Desktop,
    world: InstallWorld<E>,
) -> ApartRun<E>
    recommends
        state.embed is Some,
{
    let (install, kept, commands) = crate::embed::install_start(state);
    apart_run(install, kept, stale.after_all(commands), fresh, world)
}

proof fn lemma_stale_is_left_alone<E>(
    install: Install,
    state: Embedding<E>,
    stale: Desktop,
    fresh: Desktop,
    world: InstallWorld<E>,
)
    requires
        !(install is Restoring),
    ensures
        ({
            let apart = apart_run(install, state, stale, fresh, world);
            let run = install_run(install, state, fresh, world);
            &&& apart.outcome == run.outcome
            &&& apart.state == run.state
            &&& apart.stale == stale
            &&& apart.fresh == run.desktop
        }),
    decreases install_left(install),
{
    if !(install is Finished) {
        let (next, kept, commands) = install.answered(state, world.reply(install.due(), fresh));
        lemma_stale_is_left_alone(next, kept, stale, fresh.after_all(commands), world);
    }
}

proof fn lemma_stale_is_restored_first<E>(
    restore: Restore,
    state: Embedding<E>,
    stale: Desktop,
    fresh: Desktop,
    world: InstallWorld<E>,
)
    requires
        !(restore is Finished),
    ensures
        apart_run(Install::Restoring(restore), state, stale, fresh, world) == apart_run(
            crate::embed::unblocked(state.pending),
            Embedding { pending: None, ..state },
            stale.after_steps(restore),
            fresh,
            world,
        ),
    decreases restore.left(),
{
    let widget = restore.examined()->0;
    let (next, commands) = restore.answered(stale.parent_of(widget));
    if next is Finished {
        reveal_with_fuel(Desktop::after_steps, 2);
    } else {
        lemma_stale_is_restored_first(next, state, stale.after_all(commands), fresh, world);
    }
}

/// Embedding into another window and box than those of a stale embedding. The stale one ends
/// restored in its own window and box, whatever the outcome; and all else goes as if there had
/// been no stale embedding: the outcome depends on the new box alone.
pub proof fn law_install_in_another_box<E>(
    state: Embedding<E>,
    stale: Desktop,
    fresh: Desktop,
    world: InstallWorld<E>,
)
    requires
        state.embed is Some,
    ensures
        ({
            let apart = whole_apart(state, stale, fresh, world);
            let run = whole_install(Embedding { embed: None, ..state }, fresh, world);
            &&& apart.stale == stale.restored()
            &&& apart.outcome == run.outcome
            &&& apart.state == run.state
            &&& apart.fresh == run.desktop
            &&& apart.outcome == (if state.pending is None {
                Err(InstallError::NoPending)
            } else if fresh.web_view != Some(Place::In(Widget::Vbox)) {
                Err(InstallError::NoWebview)
            } else {
                Ok(())
            })
            &&& apart.outcome is Err ==> apart.state.embed is None
            &&& state.pending is None ==> apart.fresh == fresh
            &&& state.pending is Some && apart.outcome is Err ==> apart.fresh == world.readied(
                fresh,
            )
            &&& apart.outcome is Ok ==> apart.state.embed == Some(world.embed)
            &&& apart.outcome is Ok ==> apart.fresh.setup.render_handlers == seq![state.pending->0]
            &&& apart.outcome is Ok && fresh.is_plain() ==> apart.fresh.is_embedded()
        }),
{
    let (restore, commands) = crate::embed::restore_start();
    let kept = Embedding { embed: None::<E>, ..state };
    lemma_stale_is_restored_first(restore, kept, stale.after_all(commands), fresh, world);
    lemma_stale_is_left_alone(
        crate::embed::unblocked(state.pending),
        Embedding { pending: None, ..kept },
        stale.restored(),
        fresh,
        world,
    );
    assert(fresh.after_all(seq![]) == fresh);
    law_install_outcome(kept, fresh, world);
}

/// A handle on its way from `prepare` to mpv. Once it is embedded, the one render handler of the
/// area starts without a context, asks for one for that handle, and the context is made for the
/// mpv handle that was given, with the backend that was picked; and with the native display
/// wherever there is a source for one.
pub proof fn law_prepared_handle_reaches_mpv<E, C: Copy, P: Copy, U: Copy>(
    state: Embedding<E>,
    desktop: Desktop,
    world: InstallWorld<E>,
    mpv: u64,
    preparation: crate::embed::Preparation,
    native: u64,
    met: crate::context::BuildWorld<C, P, U>,
)
    requires
        state.pending == Some(crate::embed::kept_handle(mpv, preparation, native)),
        whole_install(state, desktop, world).outcome is Ok,
    ensures
        ({
            let handlers = whole_install(state, desktop, world).desktop.setup.render_handlers;
            let slot = crate::context::RenderSlot::<C, P, U>::initial(handlers[0]);
            let (actions, outcome) = met.run(
                crate::context::Build::<C, P, U>::initial(slot.due()->BuildContext_0),
            );
            &&& handlers.len() == 1
            &&& slot.due() is BuildContext
            &&& actions[0] == crate::context::BuildAction::<C, P>::AllocateLookup(
                preparation.backend,
            )
            &&& actions[1] == (crate::context::BuildAction::<C, P>::Create {
                mpv,
                backend: preparation.backend,
                display_native: (if preparation.source is Absent {
                    0
                } else {
                    native
                }),
                proc_ctx: met.proc_ctx,
            })
        }),
{
    law_install_outcome(state, desktop, world);
    crate::context::law_building(crate::embed::kept_handle(mpv, preparation, native), met);
}

/// Undoing an embedding: its own handles are handed over, and it is gone from then on, while a
/// prepared handle and the way of looking GL up stay; from an embedded desktop it leads to the
/// plain one, with the web view opaque and shown; and the log is told in the end. Without an
/// embedding nothing is done.
pub proof fn law_uninstall<E>(state: Embedding<E>, desktop: Desktop)
    ensures
        ({
            let (kept, due) = crate::embed::uninstall_start(state);
            &&& kept.embed is None
            &&& kept.pending == state.pending
            &&& kept.proc_wayland == state.proc_wayland
            &&& due is Some <==> state.embed is Some
            &&& due matches Some((embed, restore, commands, notice)) ==> {
                let after = desktop.after_all(commands).after_steps(restore);
                &&& state.embed == Some(embed)
                &&& notice is Uninstalled
                &&& after.webview_opaque
                &&& !after.webview_paintable
                &&& desktop.is_embedded() ==> {
                    &&& after.is_plain()
                    &&& after.overlay is None
                    &&& after.area == desktop.area
                    &&& after.webview_shown && after.vbox_shown
                    &&& after.setup == desktop.setup
                    &&& after.log == desktop.log
                    &&& after.renders == desktop.renders
                    &&& after.draws == desktop.draws
                }
            }
        }),
{
    law_restoring(desktop);
}

} // verus!
