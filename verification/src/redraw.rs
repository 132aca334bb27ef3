//! Bringing mpv's frame updates to the main loop, many of them in one redraw.

use vstd::prelude::*;

use crate::embed::Command;
use crate::graphics::probe;

verus! {

/// Whether a redraw is on its way to the main loop.
#[derive(Clone, Copy, Debug, PartialEq, Eq, Structural)]
pub struct RedrawLatch {
    pub pending: bool,
}

/// Whether an idle handler is called again.
#[derive(Clone, Copy, Debug, PartialEq, Eq, Structural)]
pub enum Repeat {
    Continue,
    Break,
}

/// What a redraw does.
pub open spec fn redraw_commands(embedded: bool, damage_ui: bool) -> Seq<Command> {
    if !embedded {
        seq![]
    } else if damage_ui {
        seq![Command::QueueRender, Command::QueueDraw]
    } else {
        seq![Command::QueueRender]
    }
}

impl RedrawLatch {
    /// No redraw is on its way.
    pub open spec fn initial() -> RedrawLatch {
        RedrawLatch { pending: false }
    }

    /// The latch once a redraw is asked for, and whether that adds an idle handler.
    pub open spec fn requested(self) -> (RedrawLatch, bool) {
        (RedrawLatch { pending: true }, !self.pending)
    }

    /// The latch once a redraw has begun, and whether its idle handler is called again.
    pub open spec fn redrawn(self) -> (RedrawLatch, Repeat) {
        (RedrawLatch { pending: false }, Repeat::Break)
    }

    /// No redraw is on its way.
    pub fn new() -> (latch: RedrawLatch)
        ensures
            latch == RedrawLatch::initial(),
    {
        RedrawLatch { pending: false }
    }

    /// Asks for a redraw. Where the result is true, an idle handler has to be added that calls
    /// `redraw`; otherwise one is there already.
    pub fn schedule_redraw(&mut self) -> (add_idle: bool)
        ensures
            (*final(self), add_idle) == old(self).requested(),
    {
        if self.pending {
            return false;
        }
        self.pending = true;
        true
    }

    /// What the idle handler does. The latch opens before the commands are performed, so that an
    /// update that comes meanwhile is not lost. `damage_ui` is the value of `HARBOR_LINUX_DAMAGE_UI`: a frame
    /// of mpv damages the GL area alone, and the web view is drawn anew only on request.
    pub fn redraw(&mut self, embedded: bool, damage_ui: Option<&str>) -> (done: (
        Vec<Command>,
        Repeat,
    ))
        ensures
            (*final(self), done.1) == old(self).redrawn(),
            done.0@ == redraw_commands(
                embedded,
                crate::graphics::is_on(crate::backend::optional_text(damage_ui)),
            ),
    {
        self.pending = false;
        let mut commands: Vec<Command> = Vec::new();
        if embedded {
            commands.push(Command::QueueRender);
            if probe(damage_ui) {
                commands.push(Command::QueueDraw);
            }
        }
        (commands, Repeat::Break)
    }
}

/// What happens to the latch over time. Updates come from any thread, at any moment.
pub enum RedrawEvent {
    /// mpv has a new frame.
    Update,
    /// The main loop is idle and runs no handler: it calls one, if one waits, and the latch
    /// opens.
    Open,
    /// The handler that runs performs its commands and returns.
    Perform,
}

/// A model of the latch and the main loop.
pub struct RedrawLoop {
    pub latch: RedrawLatch,
    /// How many idle handlers wait.
    pub handlers: nat,
    /// The handler that runs, by what it will return.
    pub running: Option<Repeat>,
    /// An update came after the latch was last opened.
    pub owed: bool,
    /// An update came, and no handler that was called after it has performed its commands.
    pub undrawn: bool,
}

impl RedrawLoop {
    /// The state before the first update.
    pub open spec fn initial() -> RedrawLoop {
        RedrawLoop {
            latch: RedrawLatch::initial(),
            handlers: 0,
            running: None,
            owed: false,
            undrawn: false,
        }
    }

    /// The state after an event.
    pub open spec fn after(self, event: RedrawEvent) -> RedrawLoop {
        match event {
            RedrawEvent::Update => {
                let (latch, add_idle) = self.latch.requested();
                RedrawLoop {
                    latch,
                    handlers: if add_idle {
                        self.handlers + 1
                    } else {
                        self.handlers
                    },
                    owed: true,
                    undrawn: true,
                    ..self
                }
            },
            RedrawEvent::Open => if self.handlers == 0 || self.running is Some {
                self
            } else {
                let (latch, repeat) = self.latch.redrawn();
                RedrawLoop {
                    latch,
                    handlers: (self.handlers - 1) as nat,
                    running: Some(repeat),
                    owed: false,
                    ..self
                }
            },
            RedrawEvent::Perform => match self.running {
                Some(repeat) => RedrawLoop {
                    handlers: if repeat is Continue {
                        self.handlers + 1
                    } else {
                        self.handlers
                    },
                    running: None,
                    undrawn: self.owed,
                    ..self
                },
                None => self,
            },
        }
    }

    /// The state after a row of events.
    pub open spec fn after_all(self, events: Seq<RedrawEvent>) -> RedrawLoop
        decreases events.len(),
    {
        if events.len() == 0 {
            self
        } else {
            self.after_all(events.drop_last()).after(events.last())
        }
    }
}

proof fn lemma_redraw_invariant(events: Seq<RedrawEvent>)
    ensures
        ({
            let state = RedrawLoop::initial().after_all(events);
            &&& state.handlers <= 1
            &&& state.latch.pending <==> state.handlers == 1
            &&& state.owed <==> state.handlers == 1
            &&& state.undrawn <==> state.owed || state.running is Some
            &&& state.running matches Some(repeat) ==> repeat is Break
        }),
    decreases events.len(),
{
    if events.len() > 0 {
        lemma_redraw_invariant(events.drop_last());
    }
}

/// However many updates come, and whenever they come, at most one idle handler waits, and the
/// latch is closed exactly while one does.
pub proof fn law_updates_share_one_redraw(events: Seq<RedrawEvent>)
    ensures
        ({
            let state = RedrawLoop::initial().after_all(events);
            &&& state.handlers <= 1
            &&& state.latch.pending <==> state.handlers == 1
        }),
{
    lemma_redraw_invariant(events);
}

/// No update is lost, not even one that comes while a handler runs: a handler waits exactly
/// where an update came after the latch was last opened, and an update that is not drawn yet
/// has a handler that waits or one that is about to perform its commands.
pub proof fn law_no_update_is_lost(events: Seq<RedrawEvent>)
    ensures
        ({
            let state = RedrawLoop::initial().after_all(events);
            &&& state.owed <==> state.handlers == 1
            &&& state.undrawn <==> state.handlers == 1 || state.running is Some
        }),
{
    lemma_redraw_invariant(events);
}

/// An update that comes while a handler runs gets a handler of its own, which waits once the
/// first one has returned.
pub proof fn law_update_during_redraw_is_kept(events: Seq<RedrawEvent>)
    requires
        RedrawLoop::initial().after_all(events).running is Some,
    ensures
        ({
            let state = RedrawLoop::initial().after_all(events);
            let after = state.after(RedrawEvent::Update).after(RedrawEvent::Perform);
            &&& after.running is None
            &&& after.handlers == 1
            &&& after.undrawn
        }),
{
    lemma_redraw_invariant(events);
}

/// What a redraw asks for: nothing without a video area; else a render of the area, once, and
/// after it a redraw of the web view exactly where the switch is the one character "1".
pub proof fn law_redraw_commands(embedded: bool, damage_ui: Option<&str>)
    ensures
        ({
            let commands = redraw_commands(
                embedded,
                crate::graphics::is_on(crate::backend::optional_text(damage_ui)),
            );
            let asked = damage_ui matches Some(value) && value@.len() == 1 && value@[0] == '1';
            &&& !embedded ==> commands.len() == 0
            &&& embedded ==> commands[0] is QueueRender
            &&& embedded && asked ==> commands.len() == 2 && commands[1] is QueueDraw
            &&& embedded && !asked ==> commands.len() == 1
        }),
{
    crate::graphics::law_switch(damage_ui);
}

/// The latch by its one flag: asking closes it, and adds a handler exactly where it was open;
/// a redraw opens it, and its handler is not called again. It starts open.
pub proof fn law_latch(latch: RedrawLatch)
    ensures
        !RedrawLatch::initial().pending,
        latch.requested().0.pending,
        latch.requested().1 <==> !latch.pending,
        !latch.redrawn().0.pending,
        latch.redrawn().1 is Break,
{
}

} // verus!
