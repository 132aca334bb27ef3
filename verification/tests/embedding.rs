use mpv_render_linux::backend::{Backend, NativeDisplay};
use mpv_render_linux::embed::{
    apply_rgba_visual, install, prepare, prepared, resize_to, set_webview_opaque,
    set_webview_transparent, uninstall, Command, Embedding, Install, InstallAction, InstallError,
    InstallReply, Parent, Pending, Restore, Widget,
};
use mpv_render_linux::notice::Notice;
use mpv_render_linux::redraw::{RedrawLatch, Repeat};

/// The widget tree as GTK would keep it; a window holds one child at most.
struct Tree {
    parents: Vec<(Widget, Widget)>,
}

impl Tree {
    fn plain() -> Tree {
        Tree { parents: vec![(Widget::Vbox, Widget::Window), (Widget::WebView, Widget::Vbox)] }
    }

    fn parent(&self, widget: Widget) -> Option<Widget> {
        self.parents.iter().find(|entry| entry.0 == widget).map(|entry| entry.1)
    }

    fn put(&mut self, widget: Widget, container: Widget) {
        assert_eq!(self.parent(widget), None);
        if container == Widget::Window {
            assert!(self.parents.iter().all(|entry| entry.1 != Widget::Window));
        }
        self.parents.push((widget, container));
    }

    fn perform(&mut self, commands: &[Command]) {
        for command in commands {
            match *command {
                Command::NewOverlay => {
                    self.parents.retain(|e| e.0 != Widget::Overlay && e.1 != Widget::Overlay)
                }
                Command::NewArea => self.parents.retain(|e| e.0 != Widget::Area),
                Command::Remove { container, child } => {
                    assert_eq!(self.parent(child), Some(container));
                    self.parents.retain(|e| e.0 != child);
                }
                Command::RemoveFromParent(widget) => self.parents.retain(|e| e.0 != widget),
                Command::Add { container, child } => self.put(child, container),
                Command::AddOverlay(widget) => self.put(widget, Widget::Overlay),
                Command::PackStart(widget) => self.put(widget, Widget::Vbox),
                _ => {}
            }
        }
    }

    fn kind(&self, widget: Widget) -> Parent {
        if self.parent(widget).is_some() {
            Parent::Container
        } else {
            Parent::Missing
        }
    }

    fn is_plain(&self) -> bool {
        self.parent(Widget::Vbox) == Some(Widget::Window)
            && self.parent(Widget::WebView) == Some(Widget::Vbox)
            && self.parent(Widget::Overlay).is_none()
    }

    fn is_embedded(&self) -> bool {
        self.parent(Widget::Vbox).is_none()
            && self.parent(Widget::Overlay) == Some(Widget::Window)
            && self.parent(Widget::Area) == Some(Widget::Overlay)
            && self.parent(Widget::WebView) == Some(Widget::Overlay)
    }
}

fn run_install(
    state: &mut Embedding<&'static str>,
    tree: &mut Tree,
    embed: &'static str,
    opaque: Option<&'static str>,
) -> (Result<(), InstallError>, Vec<Command>) {
    let (_, mut step, mut done) = install(state);
    tree.perform(&done);
    loop {
        let reply = match step.action() {
            InstallAction::ReadParent(widget) => InstallReply::Parent(tree.kind(widget)),
            InstallAction::ReadVisual => {
                InstallReply::Visual { available: true, no_app_paintable: None }
            }
            InstallAction::ReadChild => InstallReply::Child {
                present: tree.parent(Widget::WebView) == Some(Widget::Vbox),
                opaque_webview: opaque,
            },
            InstallAction::Keep => InstallReply::Embed(embed),
            InstallAction::Finished(outcome) => return (outcome, done),
        };
        let (next, commands) = step.answer(state, reply);
        tree.perform(&commands);
        done.extend(commands);
        step = next;
    }
}

/// Embeds into the box of `fresh` while a stale embedding lies in `stale`.
fn run_apart(
    state: &mut Embedding<&'static str>,
    stale: &mut Tree,
    fresh: &mut Tree,
) -> Result<(), InstallError> {
    let (_, mut step, commands) = install(state);
    stale.perform(&commands);
    loop {
        let reply = match step.action() {
            InstallAction::ReadParent(widget) => InstallReply::Parent(stale.kind(widget)),
            InstallAction::ReadVisual => {
                InstallReply::Visual { available: false, no_app_paintable: None }
            }
            InstallAction::ReadChild => InstallReply::Child {
                present: fresh.parent(Widget::WebView) == Some(Widget::Vbox),
                opaque_webview: None,
            },
            InstallAction::Keep => InstallReply::Embed("new"),
            InstallAction::Finished(outcome) => return outcome,
        };
        let restoring = matches!(step, Install::Restoring(_));
        let (next, commands) = step.answer(state, reply);
        if restoring {
            stale.perform(&commands);
        } else {
            fresh.perform(&commands);
        }
        step = next;
    }
}

fn run_restore(mut restore: Restore, tree: &mut Tree) -> Vec<Command> {
    let mut done = Vec::new();
    while let Some(widget) = restore.wanted() {
        let (next, commands) = restore.answer(tree.kind(widget));
        tree.perform(&commands);
        done.extend(commands);
        restore = next;
    }
    done
}

fn make_ready(state: &mut Embedding<&'static str>) {
    let preparation = prepare(state, Some("GdkWaylandDisplay"), None, 77);
    assert_eq!(prepared(state, 5, preparation, 88), Ok(()));
}

#[test]
fn preparing_keeps_the_handle() {
    let mut state: Embedding<&'static str> = Embedding::new();
    let preparation = prepare(&mut state, Some("GdkWaylandDisplay"), None, 77);
    assert_eq!(preparation.backend, Backend::Wayland);
    assert_eq!(preparation.source, NativeDisplay::WlDisplay);
    assert!(state.proc_wayland);
    assert_eq!(state.pending, None);
    assert_eq!(prepared(&mut state, 5, preparation, 88), Ok(()));
    let kept = Pending { mpv: 5, backend: Backend::Wayland, display_native: 88 };
    assert_eq!(state.pending, Some(kept));

    let preparation = prepare(&mut state, None, None, 0);
    assert_eq!(preparation.source, NativeDisplay::Absent);
    assert!(!state.proc_wayland);
    assert_eq!(prepared(&mut state, 6, preparation, 88), Ok(()));
    let kept = Pending { mpv: 6, backend: Backend::X11, display_native: 0 };
    assert_eq!(state.pending, Some(kept));
}

#[test]
fn installing_needs_a_prepared_handle() {
    let mut state = Embedding::new();
    let mut tree = Tree::plain();
    let (outcome, commands) = run_install(&mut state, &mut tree, "a", None);
    assert_eq!(outcome, Err(InstallError::NoPending));
    assert_eq!(commands, vec![]);
    assert_eq!(InstallError::NoPending.message(), "no pending mpv ctx for linux install");
}

#[test]
fn installing_needs_a_web_view() {
    let mut state = Embedding::new();
    make_ready(&mut state);
    let mut tree = Tree { parents: vec![(Widget::Vbox, Widget::Window)] };
    let (outcome, commands) = run_install(&mut state, &mut tree, "a", None);
    assert_eq!(outcome, Err(InstallError::NoWebview));
    assert_eq!(
        commands,
        vec![Command::SetVisual, Command::SetAppPaintable(Widget::Window, true)]
    );
    assert_eq!(state.pending, None);
    assert_eq!(state.embed, None);
    assert_eq!(InstallError::NoWebview.message(), "no webview child in vbox");
}

#[test]
fn uninstalling_undoes_installing() {
    let mut state = Embedding::new();
    make_ready(&mut state);
    let mut tree = Tree::plain();
    let (outcome, commands) = run_install(&mut state, &mut tree, "a", None);
    assert_eq!(outcome, Ok(()));
    assert!(tree.is_embedded());
    assert_eq!(state.embed, Some("a"));
    assert_eq!(state.pending, None);
    let pending = Pending { mpv: 5, backend: Backend::Wayland, display_native: 88 };
    assert_eq!(
        commands,
        vec![
            Command::SetVisual,
            Command::SetAppPaintable(Widget::Window, true),
            Command::NewOverlay,
            Command::NewArea,
            Command::SetAutoRender(false),
            Command::SetUseEs(false),
            Command::SetHasDepthBuffer(false),
            Command::SetHasStencilBuffer(false),
            Command::SetAppPaintable(Widget::Area, true),
            Command::SetHexpand(true),
            Command::SetVexpand(true),
            Command::Remove { container: Widget::Window, child: Widget::Vbox },
            Command::Remove { container: Widget::Vbox, child: Widget::WebView },
            Command::Add { container: Widget::Overlay, child: Widget::Area },
            Command::AddOverlay(Widget::WebView),
            Command::SetOverlayPassThrough(Widget::WebView, false),
            Command::Add { container: Widget::Window, child: Widget::Overlay },
            Command::SetAppPaintable(Widget::WebView, true),
            Command::SetWebviewBackground(false),
            Command::ShowAll(Widget::Overlay),
            Command::ConnectResize,
            Command::ConnectRender(pending),
            Command::QueueRender,
            Command::Log(Notice::Installed(Backend::Wayland)),
        ]
    );

    let removal = uninstall(&mut state).unwrap().unwrap();
    assert_eq!(removal.embed, "a");
    assert_eq!(removal.commands, set_webview_opaque());
    assert_eq!(removal.notice, Notice::Uninstalled);
    assert_eq!(
        run_restore(removal.restore, &mut tree),
        vec![
            Command::RemoveFromParent(Widget::WebView),
            Command::RemoveFromParent(Widget::Overlay),
            Command::PackStart(Widget::WebView),
            Command::Show(Widget::WebView),
            Command::Add { container: Widget::Window, child: Widget::Vbox },
            Command::ShowAll(Widget::Vbox),
        ]
    );
    assert!(tree.is_plain());
    assert!(uninstall(&mut state).unwrap().is_none());
}

#[test]
fn installing_replaces_a_stale_embedding() {
    let mut state = Embedding::new();
    let mut tree = Tree::plain();
    make_ready(&mut state);
    assert_eq!(run_install(&mut state, &mut tree, "a", None).0, Ok(()));
    make_ready(&mut state);
    assert_eq!(run_install(&mut state, &mut tree, "b", Some("1")).0, Ok(()));
    assert!(tree.is_embedded());
    assert_eq!(state.embed, Some("b"));
    let (outcome, _) = run_install(&mut state, &mut tree, "c", None);
    assert_eq!(outcome, Err(InstallError::NoPending));
    assert_eq!(state.embed, None);
    assert!(tree.is_plain());
}

#[test]
fn another_box_decides_for_itself() {
    let mut state = Embedding::new();
    let mut old = Tree::plain();
    make_ready(&mut state);
    assert_eq!(run_install(&mut state, &mut old, "old", None).0, Ok(()));
    make_ready(&mut state);
    let mut empty = Tree { parents: vec![(Widget::Vbox, Widget::Window)] };
    assert_eq!(run_apart(&mut state, &mut old, &mut empty), Err(InstallError::NoWebview));
    assert!(old.is_plain());
    assert_eq!(state.embed, None);

    make_ready(&mut state);
    assert_eq!(run_install(&mut state, &mut old, "old", None).0, Ok(()));
    make_ready(&mut state);
    let mut new = Tree::plain();
    assert_eq!(run_apart(&mut state, &mut old, &mut new), Ok(()));
    assert!(old.is_plain());
    assert!(new.is_embedded());
    assert_eq!(state.embed, Some("new"));
}

#[test]
fn a_stale_embedding_is_handed_over() {
    let mut state = Embedding::new();
    state.embed = Some("a");
    let (stale, step, commands) = install(&mut state);
    assert_eq!(stale, Some("a"));
    assert_eq!(step, Install::Restoring(Restore::FreeWebView));
    assert_eq!(commands, set_webview_opaque());
}

#[test]
fn the_web_view_can_stay_opaque() {
    let mut state = Embedding::new();
    make_ready(&mut state);
    let (_, commands) = run_install(&mut state, &mut Tree::plain(), "a", Some("1"));
    assert_eq!(commands[17], Command::Log(Notice::WebviewLeftOpaque));
    assert_eq!(commands[18..20], set_webview_opaque());
    assert_eq!(
        set_webview_transparent(),
        vec![
            Command::SetAppPaintable(Widget::WebView, true),
            Command::SetWebviewBackground(false)
        ]
    );
    assert_eq!(
        set_webview_opaque(),
        vec![
            Command::SetAppPaintable(Widget::WebView, false),
            Command::SetWebviewBackground(true)
        ]
    );
}

#[test]
fn the_window_is_readied_where_it_can_be() {
    assert_eq!(apply_rgba_visual(false, None), vec![]);
    assert_eq!(
        apply_rgba_visual(true, Some("1")),
        vec![Command::SetVisual, Command::Log(Notice::PainterKept)]
    );
    assert_eq!(
        apply_rgba_visual(true, Some("0")),
        vec![Command::SetVisual, Command::SetAppPaintable(Widget::Window, true)]
    );
}

#[test]
fn restoring_twice_changes_nothing() {
    let mut tree = Tree::plain();
    run_restore(Restore::FreeWebView, &mut tree);
    assert!(tree.is_plain());
    run_restore(Restore::FreeWebView, &mut tree);
    assert!(tree.is_plain());
}

#[test]
fn a_parent_that_is_no_container_is_left_alone() {
    let (next, commands) = Restore::FreeWebView.answer(Parent::Other);
    assert_eq!((next, commands), (Restore::FreeOverlay, vec![]));
    let (next, commands) = Restore::PackWebView.answer(Parent::Other);
    assert_eq!((next, commands), (Restore::AddVbox, vec![]));
    let (next, commands) = Restore::AddVbox.answer(Parent::Other);
    assert_eq!((next, commands), (Restore::Finished, vec![Command::ShowAll(Widget::Vbox)]));
}

#[test]
fn resizing_asks_for_nothing() {
    let mut state: Embedding<&'static str> = Embedding::new();
    assert_eq!(resize_to(&state), Ok(None));
    state.embed = Some("a");
    assert_eq!(resize_to(&state), Ok(None));
}

#[test]
fn updates_share_one_redraw() {
    let mut latch = RedrawLatch::new();
    assert!(latch.schedule_redraw());
    assert!(!latch.schedule_redraw());
    assert!(!latch.schedule_redraw());
    assert_eq!(latch.redraw(true, None), (vec![Command::QueueRender], Repeat::Break));
    assert!(latch.schedule_redraw());
    assert_eq!(
        latch.redraw(true, Some("1")),
        (vec![Command::QueueRender, Command::QueueDraw], Repeat::Break)
    );
    assert!(latch.schedule_redraw());
    assert_eq!(latch.redraw(false, Some("1")), (vec![], Repeat::Break));
}

#[test]
fn an_update_during_a_redraw_is_kept() {
    let mut latch = RedrawLatch::new();
    assert!(latch.schedule_redraw());
    let (commands, repeat) = latch.redraw(true, None);
    assert!(latch.schedule_redraw());
    assert_eq!((commands, repeat), (vec![Command::QueueRender], Repeat::Break));
    assert!(latch.pending);
    assert!(!latch.schedule_redraw());
}
