//! Decisions behind embedding an mpv video surface in a GTK window on Linux.
//!
//! Nothing here touches GTK, GL, mpv or the environment. Each function takes plain facts about
//! them and says what to do; where facts and deeds alternate, a small state machine gives the
//! next action and takes what came of it.
//!
//! - `backend`, `graphics`, `names`: the windowing backend, and the environment variables.
//! - `loader`: finding GL entry points.
//! - `framebuffer`, `surface`, `gl_state`: measuring, drawing a frame, restoring GL state.
//! - `context`: the mpv render context and what it owns.
//! - `embed`, `desktop`: putting the video area under the web view, and what that does to the
//!   widget tree.
//! - `redraw`: bringing mpv's updates to the main loop.
//! - `notice`, `text`: the log, and the text helpers that it takes.

pub mod backend;
pub mod context;
pub mod desktop;
pub mod embed;
pub mod framebuffer;
pub mod gl_state;
pub mod graphics;
pub mod loader;
pub mod names;
pub mod notice;
pub mod redraw;
pub mod surface;
pub mod text;
