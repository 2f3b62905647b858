//! The application: its life-cycle state, the systems registered for each
//! state, and the choice of a rendering backend.

use vstd::prelude::*;
use vstd::string::*;
use crate::metadata::ENGINE_NAME;

verus! {

/// Where the application is in its life cycle.
#[derive(Clone, Copy, Debug, PartialEq, Eq, Structural)]
pub enum AppState {
    PreInit,
    Init,
    Running,
    Paused,
    Quitting,
}

impl AppState {
    /// The state's name as text.
    pub open spec fn name(self) -> Seq<char> {
        match self {
            AppState::PreInit => "PreInit"@,
            AppState::Init => "Init"@,
            AppState::Running => "Running"@,
            AppState::Paused => "Paused"@,
            AppState::Quitting => "Quitting"@,
        }
    }

    /// The state's name.
    pub fn to_string(&self) -> (out: String)
        ensures
            out@ == self.name(),
    {
        match self {
            AppState::PreInit => String::from_str("PreInit"),
            AppState::Init => String::from_str("Init"),
            AppState::Running => String::from_str("Running"),
            AppState::Paused => String::from_str("Paused"),
            AppState::Quitting => String::from_str("Quitting"),
        }
    }
}

/// The graphics API the window is made with.
#[derive(Clone, Copy, Debug, PartialEq, Eq, Structural)]
pub enum Backend {
    /// OpenGL, asked for by `--opengl`.
    OpenGl,
    /// Vulkan, asked for by `--vulkano`.
    Vulkano,
    /// OpenGL, because no flag asked for anything.
    FallbackOpenGl,
}

/// Whether `flag` is one of the arguments.
pub open spec fn has_flag(args: Seq<String>, flag: Seq<char>) -> bool {
    exists|i: int| 0 <= i < args.len() && (#[trigger] args[i])@ == flag
}

/// The backend the command line asks for: `--opengl` wins over
/// `--vulkano`, and without either the choice falls on OpenGL.
pub open spec fn backend_for(args: Seq<String>) -> Backend {
    if has_flag(args, "--opengl"@) {
        Backend::OpenGl
    } else if has_flag(args, "--vulkano"@) {
        Backend::Vulkano
    } else {
        Backend::FallbackOpenGl
    }
}

/// The name of the graphics API in a window title.
pub open spec fn api_label(backend: Backend) -> Seq<char> {
    match backend {
        Backend::Vulkano => "Vulkan"@,
        _ => "OpenGL"@,
    }
}

/// The title of the game's window: the game and its version, then in
/// brackets the engine, its version and the graphics API.
pub open spec fn title_text(
    game_name: Seq<char>,
    game_version: Seq<char>,
    engine_version: Seq<char>,
    backend: Backend,
) -> Seq<char> {
    game_name + " v"@ + game_version + " - ["@ + ENGINE_NAME@ + " v"@ + engine_version + " - "@
        + api_label(backend) + "]"@
}

/// Whether `flag` is one of `args`.
pub fn contains_flag(args: &Vec<String>, flag: &str) -> (out: bool)
    ensures
        out == has_flag(args@, flag@),
{
    let key = String::from_str(flag);
    let mut i: usize = 0;
    while i < args.len()
        invariant
            key@ == flag@,
            i <= args@.len(),
            forall|k: int| 0 <= k < i ==> (#[trigger] args@[k])@ != flag@,
        decreases args@.len() - i,
    {
        if args[i] == key {
            return true;
        }
        i += 1;
    }
    false
}

/// Picks the backend that the command line asks for.
pub fn select_backend(args: &Vec<String>) -> (out: Backend)
    ensures
        out == backend_for(args@),
{
    if contains_flag(args, "--opengl") {
        Backend::OpenGl
    } else if contains_flag(args, "--vulkano") {
        Backend::Vulkano
    } else {
        Backend::FallbackOpenGl
    }
}

/// Writes the title of the game's window.
pub fn window_title(game_name: &str, game_version: &str, engine_version: &str, backend: Backend) -> (out:
    String)
    ensures
        out@ == title_text(game_name@, game_version@, engine_version@, backend),
{
    let mut out = String::from_str(game_name);
    out.append(" v");
    out.append(game_version);
    out.append(" - [");
    out.append(ENGINE_NAME);
    out.append(" v");
    out.append(engine_version);
    out.append(" - ");
    match backend {
        Backend::Vulkano => out.append("Vulkan"),
        _ => out.append("OpenGL"),
    }
    out.append("]");
    out
}

/// What `run` leaves to its caller: the window to open.
#[derive(Debug)]
pub struct Launch {
    pub backend: Backend,
    pub title: String,
    pub width: u32,
    pub height: u32,
}

/// A game application: name, version, window size, state, and the systems to
/// run in each state, in the order of their registration.
pub struct App<F: Fn()> {
    pub game_name: String,
    pub game_version: String,
    pub game_width: u32,
    pub game_height: u32,
    pub state: AppState,
    pub systems: Vec<(AppState, F)>,
    pub debug: bool,
}

impl<F: Fn()> App<F> {
    /// Every registered system can be called.
    pub open spec fn wf(&self) -> bool {
        forall|i: int|
            0 <= i < self.systems@.len() ==> call_requires(#[trigger] self.systems@[i].1, ())
    }

    /// A new application in state `PreInit` with no systems.
    pub fn new(game_name: &str, game_version: &str, game_width: u32, game_height: u32, debug: bool) -> (app: Self)
        ensures
            app.wf(),
            app.game_name@ == game_name@,
            app.game_version@ == game_version@,
            app.game_width == game_width,
            app.game_height == game_height,
            app.state == AppState::PreInit,
            app.systems@.len() == 0,
            app.debug == debug,
    {
        App {
            game_name: String::from_str(game_name),
            game_version: String::from_str(game_version),
            game_width,
            game_height,
            state: AppState::PreInit,
            systems: Vec::new(),
            debug,
        }
    }

    /// Registers `system` to run whenever systems are enabled in `state`.
    pub fn add_systems(&mut self, state: AppState, system: F)
        requires
            old(self).wf(),
            call_requires(system, ()),
        ensures
            final(self).wf(),
            final(self).systems@ == old(self).systems@.push((state, system)),
            final(self).state == old(self).state,
            final(self).game_name == old(self).game_name,
            final(self).game_version == old(self).game_version,
            final(self).game_width == old(self).game_width,
            final(self).game_height == old(self).game_height,
            final(self).debug == old(self).debug,
    {
        self.systems.push((state, system));
    }

    /// The systems after `run`: one more for the state the application
    /// was in and for each state it passed on its way to `Running`.
    pub open spec fn systems_after_run(
        state: AppState,
        systems: Seq<(AppState, F)>,
        pre_init: F,
        init: F,
        running: F,
    ) -> Seq<(AppState, F)> {
        match state {
            AppState::PreInit => systems.push((AppState::PreInit, pre_init)).push(
                (AppState::Init, init),
            ).push((AppState::Running, running)),
            AppState::Init => systems.push((AppState::Init, init)).push(
                (AppState::Running, running),
            ),
            AppState::Running => systems.push((AppState::Running, running)),
            _ => systems,
        }
    }

    /// Takes the application to `Running`: registers the loading system of
    /// each state from the current one on, and says which window to open
    /// for the given command line.
    pub fn run(self, args: &Vec<String>, engine_version: &str, pre_init: F, init: F, running: F) -> (out: (
        Self,
        Launch,
    ))
        requires
            self.wf(),
            call_requires(pre_init, ()),
            call_requires(init, ()),
            call_requires(running, ()),
        ensures
            out.0.wf(),
            out.0.state == AppState::Running,
            out.0.systems@ == Self::systems_after_run(
                self.state,
                self.systems@,
                pre_init,
                init,
                running,
            ),
            out.0.game_name == self.game_name,
            out.0.game_version == self.game_version,
            out.0.game_width == self.game_width,
            out.0.game_height == self.game_height,
            out.0.debug == self.debug,
            out.1.backend == backend_for(args@),
            out.1.title@ == title_text(
                self.game_name@,
                self.game_version@,
                engine_version@,
                backend_for(args@),
            ),
            out.1.width == self.game_width,
            out.1.height == self.game_height,
    {
        let mut app = self;
        if app.state == AppState::PreInit {
            app.add_systems(AppState::PreInit, pre_init);
            app.state = AppState::Init;
        }
        if app.state == AppState::Init {
            app.add_systems(AppState::Init, init);
            app.state = AppState::Running;
        }
        if app.state == AppState::Running {
            app.add_systems(AppState::Running, running);
        }
        app.state = AppState::Running;
        let backend = select_backend(args);
        let title = window_title(
            app.game_name.as_str(),
            app.game_version.as_str(),
            engine_version,
            backend,
        );
        let launch = Launch { backend, title, width: app.game_width, height: app.game_height };
        (app, launch)
    }

    /// Calls the systems registered for the current state, in the order of
    /// their registration, then moves from `Init` to `Running`. Returns
    /// whether that move took place.
    pub fn enable_system(&mut self) -> (moved: bool)
        requires
            old(self).wf(),
        ensures
            final(self).wf(),
            forall|i: int|
                0 <= i < old(self).systems@.len() && (#[trigger] old(self).systems@[i]).0 == old(
                    self,
                ).state ==> call_ensures(old(self).systems@[i].1, (), ()),
            moved == (old(self).state == AppState::Init),
            final(self).state == if old(self).state == AppState::Init {
                AppState::Running
            } else {
                old(self).state
            },
            final(self).systems@ == old(self).systems@,
            final(self).game_name == old(self).game_name,
            final(self).game_version == old(self).game_version,
            final(self).game_width == old(self).game_width,
            final(self).game_height == old(self).game_height,
            final(self).debug == old(self).debug,
    {
        let n = self.systems.len();
        let mut i: usize = 0;
        while i < n
            invariant
                self.wf(),
                self.systems@ == old(self).systems@,
                self.state == old(self).state,
                n == self.systems@.len(),
                i <= n,
                forall|k: int|
                    0 <= k < i && (#[trigger] self.systems@[k]).0 == self.state ==> call_ensures(
                        self.systems@[k].1,
                        (),
                        (),
                    ),
            decreases n - i,
        {
            if self.systems[i].0 == self.state {
                (self.systems[i].1)();
            }
            i += 1;
        }
        if self.state == AppState::Init {
            self.state = AppState::Running;
            true
        } else {
            false
        }
    }
}

} // verus!
