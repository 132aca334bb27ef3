//! Environment switches, and the graphics variables that are set before the toolkit starts.

use vstd::prelude::*;

use crate::backend::wayland_session;
use crate::names::Variable;
use crate::notice::Notice;
use crate::text::equal;

verus! {

/// A switch is on where its variable holds exactly "1".
pub open spec fn is_on(value: Option<Seq<char>>) -> bool {
    value == Some("1"@)
}

/// Whether the switch whose variable holds `value` (`None` where it is unset or not Unicode)
/// is on.
pub fn probe(value: Option<&str>) -> (on: bool)
    ensures
        on == is_on(crate::backend::optional_text(value)),
{
    match value {
        Some(text) => equal(text, "1"),
        None => false,
    }
}

/// What the choice of graphics variables depends on. A variable that is unset or not Unicode
/// is `None`.
pub struct GraphicsEnv<'a> {
    /// `HARBOR_LINUX_LEGACY_GFX`
    pub legacy_graphics: Option<&'a str>,
    /// Whether the NVIDIA kernel driver is loaded.
    pub nvidia_driver: bool,
    /// `XDG_SESSION_TYPE`
    pub session_type: Option<&'a str>,
    /// `WAYLAND_DISPLAY`
    pub wayland_display: Option<&'a str>,
    /// `__NV_DISABLE_EXPLICIT_SYNC`
    pub explicit_sync: Option<&'a str>,
}

/// The model of a `GraphicsEnv`.
pub struct GraphicsFacts {
    pub legacy_graphics: Option<Seq<char>>,
    pub nvidia_driver: bool,
    pub session_type: Option<Seq<char>>,
    pub wayland_display: Option<Seq<char>>,
    pub explicit_sync: Option<Seq<char>>,
}

impl<'a> View for GraphicsEnv<'a> {
    type V = GraphicsFacts;

    open spec fn view(&self) -> GraphicsFacts {
        GraphicsFacts {
            legacy_graphics: crate::backend::optional_text(self.legacy_graphics),
            nvidia_driver: self.nvidia_driver,
            session_type: crate::backend::optional_text(self.session_type),
            wayland_display: crate::backend::optional_text(self.wayland_display),
            explicit_sync: crate::backend::optional_text(self.explicit_sync),
        }
    }
}

impl GraphicsFacts {
    /// The session type says Wayland, or a Wayland display is named.
    pub open spec fn on_wayland(self) -> bool {
        ||| crate::backend::is_wayland_session(self.session_type)
        ||| self.wayland_display matches Some(name) && name.len() > 0
    }

    /// The variables to set, in order.
    pub open spec fn settings(self) -> Seq<GraphicsSetting> {
        (if is_on(self.legacy_graphics) {
            seq![GraphicsSetting::DisableCompositing]
        } else {
            seq![]
        }) + (if self.nvidia_driver && self.on_wayland() && self.explicit_sync is None {
            seq![GraphicsSetting::DisableExplicitSync]
        } else {
            seq![]
        })
    }
}

/// A variable that is set to "1".
#[derive(Clone, Copy, Debug, PartialEq, Eq, Structural)]
pub enum GraphicsSetting {
    /// WebKit gives up accelerated compositing.
    DisableCompositing,
    /// The NVIDIA driver gives up explicit sync.
    DisableExplicitSync,
}

impl GraphicsSetting {
    /// The variable to set.
    pub open spec fn target(self) -> Variable {
        match self {
            GraphicsSetting::DisableCompositing => Variable::DisableCompositing,
            GraphicsSetting::DisableExplicitSync => Variable::DisableExplicitSync,
        }
    }

    /// The value to set it to.
    pub open spec fn wanted_value(self) -> Seq<char> {
        "1"@
    }

    /// The variable to set.
    pub fn variable(self) -> (variable: Variable)
        ensures
            variable == self.target(),
    {
        match self {
            GraphicsSetting::DisableCompositing => Variable::DisableCompositing,
            GraphicsSetting::DisableExplicitSync => Variable::DisableExplicitSync,
        }
    }

    /// The value to set it to.
    pub fn value(self) -> (value: &'static str)
        ensures
            value@ == self.wanted_value(),
    {
        "1"
    }

    /// What the log is told beforehand.
    pub fn notice(self) -> (notice: Notice)
        ensures
            notice == match self {
                GraphicsSetting::DisableCompositing => Notice::LegacyCompositing,
                GraphicsSetting::DisableExplicitSync => Notice::ExplicitSyncOff,
            },
    {
        match self {
            GraphicsSetting::DisableCompositing => Notice::LegacyCompositing,
            GraphicsSetting::DisableExplicitSync => Notice::ExplicitSyncOff,
        }
    }
}

/// The file that exists where the NVIDIA kernel driver is loaded.
pub fn nvidia_driver_path() -> (path: &'static str)
    ensures
        path@ == "/proc/driver/nvidia/version"@,
{
    "/proc/driver/nvidia/version"
}

/// Picks the variables to set before the toolkit starts.
///
/// WebKit only paints transparent backgrounds inside its accelerated compositor, and looks at
/// whether `WEBKIT_DISABLE_COMPOSITING_MODE` is there, not at its value. So that variable is
/// never set unless `HARBOR_LINUX_LEGACY_GFX=1` asks for it.
pub fn configure_linux_graphics(env: &GraphicsEnv<'_>) -> (settings: Vec<GraphicsSetting>)
    ensures
        settings@ == env@.settings(),
{
    let mut settings: Vec<GraphicsSetting> = Vec::new();
    if probe(env.legacy_graphics) {
        settings.push(GraphicsSetting::DisableCompositing);
    }
    if !env.nvidia_driver {
        return settings;
    }
    let named_display: bool = match env.wayland_display {
        Some(name) => !name.is_empty(),
        None => false,
    };
    let wayland: bool = wayland_session(env.session_type) || named_display;
    if wayland && env.explicit_sync.is_none() {
        settings.push(GraphicsSetting::DisableExplicitSync);
    }
    settings
}

/// Accelerated compositing is given up only where `HARBOR_LINUX_LEGACY_GFX` is "1".
pub proof fn law_compositing_stays_unless_asked(facts: GraphicsFacts)
    ensures
        facts.settings().contains(GraphicsSetting::DisableCompositing) <==> is_on(
            facts.legacy_graphics,
        ),
{
    if is_on(facts.legacy_graphics) {
        assert(facts.settings()[0] is DisableCompositing);
    }
}

/// Explicit sync is given up only for the NVIDIA driver on Wayland, and only where the
/// variable is not set yet.
pub proof fn law_explicit_sync_only_for_nvidia_on_wayland(facts: GraphicsFacts)
    ensures
        facts.settings().contains(GraphicsSetting::DisableExplicitSync) <==> facts.nvidia_driver
            && facts.on_wayland() && facts.explicit_sync is None,
{
    if facts.nvidia_driver && facts.on_wayland() && facts.explicit_sync is None {
        assert(facts.settings().last() is DisableExplicitSync);
    }
}

/// A model of the environment: the value of each variable that is set to Unicode text, and
/// whether the NVIDIA kernel driver is loaded.
pub struct Environment {
    pub values: Map<Variable, Seq<char>>,
    pub nvidia_driver: bool,
}

impl Environment {
    /// The value of a variable; `None` where it is unset or not Unicode.
    pub open spec fn value_of(self, variable: Variable) -> Option<Seq<char>> {
        if self.values.contains_key(variable) {
            Some(self.values[variable])
        } else {
            None
        }
    }

    /// What the choice of graphics variables sees of the environment.
    pub open spec fn facts(self) -> GraphicsFacts {
        GraphicsFacts {
            legacy_graphics: self.value_of(Variable::LegacyGraphics),
            nvidia_driver: self.nvidia_driver,
            session_type: self.value_of(Variable::SessionType),
            wayland_display: self.value_of(Variable::WaylandDisplay),
            explicit_sync: self.value_of(Variable::DisableExplicitSync),
        }
    }

    /// The environment once a row of settings is made.
    pub open spec fn after_all(self, settings: Seq<GraphicsSetting>) -> Environment
        decreases settings.len(),
    {
        if settings.len() == 0 {
            self
        } else {
            let before = self.after_all(settings.drop_last());
            let setting = settings.last();
            Environment {
                values: before.values.insert(setting.target(), setting.wanted_value()),
                ..before
            }
        }
    }

    /// The environment once the graphics variables are configured.
    pub open spec fn configured(self) -> Environment {
        self.after_all(self.facts().settings())
    }
}

proof fn lemma_configured(env: Environment)
    ensures
        ({
            let facts = env.facts();
            let compositing = if is_on(facts.legacy_graphics) {
                env.values.insert(Variable::DisableCompositing, "1"@)
            } else {
                env.values
            };
            env.configured() == (Environment {
                values: if facts.nvidia_driver && facts.on_wayland() && facts.explicit_sync is None {
                    compositing.insert(Variable::DisableExplicitSync, "1"@)
                } else {
                    compositing
                },
                ..env
            })
        }),
{
    reveal_with_fuel(Environment::after_all, 3);
    let settings = env.facts().settings();
    if settings.len() == 2 {
        assert(settings.drop_last() =~= seq![GraphicsSetting::DisableCompositing]);
    }
}

/// Configuring sets no variable but the two, and gives each of those no value but "1".
pub proof fn law_configuring_sets_two_variables_at_most(env: Environment, variable: Variable)
    ensures
        env.configured().value_of(variable) != env.value_of(variable) ==> {
            &&& variable is DisableCompositing || variable is DisableExplicitSync
            &&& env.configured().value_of(variable) == Some("1"@)
        },
{
    lemma_configured(env);
}

/// Configuring a second time leaves the whole environment as it was.
pub proof fn law_configuring_twice(env: Environment)
    ensures
        env.configured().configured() == env.configured(),
{
    lemma_configured(env);
    lemma_configured(env.configured());
    assert(env.configured().configured().values =~= env.configured().values);
}

/// A choice of explicit sync that is already made, by the user or by an earlier call, is left
/// alone.
pub proof fn law_explicit_sync_choice_is_kept(env: Environment)
    requires
        env.value_of(Variable::DisableExplicitSync) is Some,
    ensures
        env.configured().value_of(Variable::DisableExplicitSync) == env.value_of(
            Variable::DisableExplicitSync,
        ),
{
    lemma_configured(env);
}

/// A switch is on exactly where its value is the one character "1".
pub proof fn law_switch(value: Option<&str>)
    ensures
        is_on(crate::backend::optional_text(value)) <==> {
            &&& value matches Some(text)
            &&& text@.len() == 1
            &&& text@[0] == '1'
        },
{
    reveal_strlit("1");
    if let Some(text) = value {
        if text@.len() == 1 && text@[0] == '1' {
            assert(text@ =~= "1"@);
        }
    }
}

/// What is set, by the values of the variables themselves.
///
/// Compositing is switched off exactly where `HARBOR_LINUX_LEGACY_GFX` is "1". Explicit sync is
/// switched off only with the NVIDIA driver and where `__NV_DISABLE_EXPLICIT_SYNC` is not set;
/// then it is switched off wherever `XDG_SESSION_TYPE` is "wayland", in small or capital
/// letters, whatever `WAYLAND_DISPLAY` holds, and wherever `WAYLAND_DISPLAY` is set and not
/// empty, whatever `XDG_SESSION_TYPE` holds; and it is left alone where neither is so. Nothing
/// is set twice, and compositing comes first.
pub proof fn law_graphics_settings(env: GraphicsEnv<'_>)
    ensures
        ({
            let settings = env@.settings();
            let asked = env.legacy_graphics matches Some(value) && value@.len() == 1 && value@[0]
                == '1';
            let open = env.nvidia_driver && env.explicit_sync is None;
            let session = env.session_type matches Some(value) && value@.len() == 7 && forall|
                i: int,
            |
                0 <= i < 7 ==> (#[trigger] value@[i] == "wayland"@[i] || value@[i]
                    == "WAYLAND"@[i]);
            let display = env.wayland_display matches Some(name) && name@.len() > 0;
            let sync_off = GraphicsSetting::DisableExplicitSync;
            &&& settings.contains(GraphicsSetting::DisableCompositing) <==> asked
            &&& open && session ==> settings.contains(sync_off)
            &&& open && display ==> settings.contains(sync_off)
            &&& !open || (!session && !display) ==> !settings.contains(sync_off)
            &&& asked ==> settings[0] is DisableCompositing
            &&& settings.contains(sync_off) ==> settings.last() == sync_off
            &&& settings.no_duplicates()
        }),
{
    law_switch(env.legacy_graphics);
    crate::backend::law_wayland_session(env.session_type);
    law_compositing_stays_unless_asked(env@);
    law_explicit_sync_only_for_nvidia_on_wayland(env@);
}

/// Each setting goes to the variable of its name, with the value "1".
pub proof fn law_settings_go_to_their_variables(setting: GraphicsSetting)
    ensures
        setting is DisableCompositing <==> setting.target() is DisableCompositing,
        setting is DisableExplicitSync <==> setting.target() is DisableExplicitSync,
        setting.wanted_value() == seq!['1'],
{
    reveal_strlit("1");
    assert("1"@ =~= seq!['1']);
}

} // verus!
