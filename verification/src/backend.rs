//! The windowing backend, and the native display that belongs to it.

use vstd::prelude::*;

use crate::text::{contains, eq_ignore_ascii_case};

verus! {

/// The windowing system that the GTK display speaks to.
#[derive(Clone, Copy, Debug, PartialEq, Eq, Structural)]
pub enum Backend {
    X11,
    Wayland,
}

/// The backend told by the name of the display's GObject type, if it tells one.
pub open spec fn backend_of_display(display_type: Option<Seq<char>>) -> Option<Backend> {
    match display_type {
        Some(name) => if crate::text::occurs_in(name, "Wayland"@) {
            Some(Backend::Wayland)
        } else if crate::text::occurs_in(name, "X11"@) {
            Some(Backend::X11)
        } else {
            None
        },
        None => None,
    }
}

/// `XDG_SESSION_TYPE` holds "wayland", in any case.
pub open spec fn is_wayland_session(session_type: Option<Seq<char>>) -> bool {
    session_type matches Some(value) && crate::text::same_ignoring_ascii_case(value, "wayland"@)
}

/// The display decides; where it does not, the session type does, and X11 is the default.
pub open spec fn backend_for(
    display_type: Option<Seq<char>>,
    session_type: Option<Seq<char>>,
) -> Backend {
    match backend_of_display(display_type) {
        Some(backend) => backend,
        None => if is_wayland_session(session_type) {
            Backend::Wayland
        } else {
            Backend::X11
        },
    }
}

/// The characters of an optional text.
pub open spec fn optional_text(text: Option<&str>) -> Option<Seq<char>> {
    match text {
        Some(value) => Some(value@),
        None => None,
    }
}

/// The name of a backend, as the log shows it.
pub fn backend_label(backend: Backend) -> (label: &'static str)
    ensures
        label@ == match backend {
            Backend::X11 => "x11"@,
            Backend::Wayland => "wayland"@,
        },
{
    match backend {
        Backend::X11 => "x11",
        Backend::Wayland => "wayland",
    }
}

/// The backend whose GL entry points are wanted, from the flag that `prepare` keeps.
pub fn proc_backend(wayland: bool) -> (backend: Backend)
    ensures
        backend == (if wayland {
            Backend::Wayland
        } else {
            Backend::X11
        }),
{
    if wayland {
        Backend::Wayland
    } else {
        Backend::X11
    }
}

/// Whether the value of `XDG_SESSION_TYPE` names a Wayland session.
pub fn wayland_session(session_type: Option<&str>) -> (wayland: bool)
    ensures
        wayland == is_wayland_session(optional_text(session_type)),
{
    match session_type {
        Some(value) => eq_ignore_ascii_case(value, "wayland"),
        None => false,
    }
}

/// Picks the backend from the type name of the default display (`None` where there is no
/// display) and the value of `XDG_SESSION_TYPE` (`None` where it is unset or not Unicode).
pub fn detect_backend(display_type: Option<&str>, session_type: Option<&str>) -> (backend: Backend)
    ensures
        backend == backend_for(optional_text(display_type), optional_text(session_type)),
{
    if let Some(name) = display_type {
        if contains(name, "Wayland") {
            return Backend::Wayland;
        }
        if contains(name, "X11") {
            return Backend::X11;
        }
    }
    if wayland_session(session_type) {
        Backend::Wayland
    } else {
        Backend::X11
    }
}

/// Where the native display handle comes from.
#[derive(Clone, Copy, Debug, PartialEq, Eq, Structural)]
pub enum NativeDisplay {
    /// There is no display: the handle is null.
    Absent,
    /// `gdk_x11_display_get_xdisplay` gives it.
    XDisplay,
    /// `gdk_wayland_display_get_wl_display` gives it.
    WlDisplay,
}

/// Which call gives the native display, for the address of the default `GdkDisplay` (zero
/// where there is none).
pub fn native_display(backend: Backend, display: u64) -> (source: NativeDisplay)
    ensures
        source is Absent <==> display == 0,
        source is XDisplay <==> display != 0 && backend is X11,
        source is WlDisplay <==> display != 0 && backend is Wayland,
        source == crate::embed::display_source(backend, display),
{
    if display == 0 {
        return NativeDisplay::Absent;
    }
    match backend {
        Backend::X11 => NativeDisplay::XDisplay,
        Backend::Wayland => NativeDisplay::WlDisplay,
    }
}

/// A display whose type name tells its backend is taken at its word, whatever the session
/// type says.
pub proof fn law_display_outranks_session(
    display_type: Option<Seq<char>>,
    session: Option<Seq<char>>,
    other_session: Option<Seq<char>>,
)
    requires
        backend_of_display(display_type) is Some,
    ensures
        backend_for(display_type, session) == backend_for(display_type, other_session),
        Some(backend_for(display_type, session)) == backend_of_display(display_type),
{
}

/// Without a telling display and without a Wayland session, the backend is X11.
pub proof fn law_backend_defaults_to_x11(
    display_type: Option<Seq<char>>,
    session: Option<Seq<char>>,
)
    requires
        backend_of_display(display_type) is None,
        !is_wayland_session(session),
    ensures
        backend_for(display_type, session) is X11,
{
}

/// A text that a caller passes is looked at as it stands, and one that is not there is nothing.
pub proof fn law_texts_are_taken_as_they_stand(text: Option<&str>)
    ensures
        text matches Some(value) ==> optional_text(text) == Some(value@),
        text is None ==> optional_text(text) is None,
{
}

/// The session is a Wayland one exactly where its type has the seven letters of "wayland", each
/// of them small or capital.
pub proof fn law_wayland_session(session_type: Option<&str>)
    ensures
        is_wayland_session(optional_text(session_type)) <==> {
            &&& session_type matches Some(value)
            &&& value@.len() == 7
            &&& forall|i: int|
                0 <= i < 7 ==> (#[trigger] value@[i] == "wayland"@[i] || value@[i]
                    == "WAYLAND"@[i])
        },
{
    reveal_strlit("wayland");
    reveal_strlit("WAYLAND");
    if let Some(value) = session_type {
        crate::text::law_ascii_case_is_all_that_is_ignored(value@, "wayland"@);
        assert forall|i: int| 0 <= i < 7 implies ("WAYLAND"@[i] as int + 32
            == #[trigger] "wayland"@[i] as int && 'A' <= "WAYLAND"@[i] && "WAYLAND"@[i] <= 'Z') by {
            assert(i == 0 || i == 1 || i == 2 || i == 3 || i == 4 || i == 5 || i == 6);
        }
        if is_wayland_session(optional_text(session_type)) {
            assert forall|i: int| 0 <= i < 7 implies (#[trigger] value@[i] == "wayland"@[i]
                || value@[i] == "WAYLAND"@[i]) by {
                assert("WAYLAND"@[i] as int + 32 == "wayland"@[i] as int);
            }
        }
        if value@.len() == 7 && forall|i: int|
            0 <= i < 7 ==> (#[trigger] value@[i] == "wayland"@[i] || value@[i] == "WAYLAND"@[i]) {
            assert forall|i: int| 0 <= i < 7 implies crate::text::ascii_folded(
                #[trigger] value@[i],
            ) == crate::text::ascii_folded("wayland"@[i]) by {
                assert("WAYLAND"@[i] as int + 32 == "wayland"@[i] as int);
            }
        }
    }
}

/// The backend is Wayland exactly where the display's type name has "Wayland" in it, or tells
/// neither "Wayland" nor "X11" while the session type is "wayland" in small or capital letters;
/// it is X11 otherwise.
pub proof fn law_backend_choice(display_type: Option<&str>, session_type: Option<&str>)
    ensures
        ({
            let named_wayland = display_type matches Some(name) && exists|
                before: Seq<char>,
                after: Seq<char>,
            | name@ == #[trigger] (before + "Wayland"@ + after);
            let named_x11 = display_type matches Some(name) && exists|
                before: Seq<char>,
                after: Seq<char>,
            | name@ == #[trigger] (before + "X11"@ + after);
            let session = session_type matches Some(value) && value@.len() == 7 && forall|i: int|
                0 <= i < 7 ==> (#[trigger] value@[i] == "wayland"@[i] || value@[i]
                    == "WAYLAND"@[i]);
            let backend = backend_for(optional_text(display_type), optional_text(session_type));
            &&& backend is Wayland <==> named_wayland || (!named_x11 && session)
            &&& backend is X11 <==> !named_wayland && (named_x11 || !session)
        }),
{
    law_wayland_session(session_type);
    if let Some(name) = display_type {
        crate::text::law_occurring_is_standing_between(name@, "Wayland"@);
        crate::text::law_occurring_is_standing_between(name@, "X11"@);
    }
}

} // verus!
