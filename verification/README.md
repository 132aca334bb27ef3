# mpv_render_linux

Embeds an mpv video surface under a WebKit web view in a GTK 3 window on Linux.

- `src/` is the library, verified with Verus: which windowing backend is used, which graphics
  variables are set, how GL entry points are found, how the framebuffer is measured, what one
  frame does, which GL state is given back to GDK, what a render context owns and in which order
  it is freed, and how widgets move when the video area comes and goes. The laws are the public
  proof functions whose names start with `law_`.
- `app/` performs those decisions with GTK, mpv and the dynamic linker.
- `tests/` runs the library.

One contract is taken on trust: that `std::str::from_utf8` decodes UTF-8 (`src/loader.rs`).
