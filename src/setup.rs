//! The one-shot setup sequence that runs while the host starts.
//!
//! In a debug build the shell registers a logging plugin, looks up its main
//! window, and opens developer tools on it, or prints a warning when there is
//! no such window. In a release build it does none of this. The host performs
//! each action; the machine here decides the next one from what came back.
use vstd::prelude::*;

verus! {

/// Label of the window that developer tools are opened on.
pub const MAIN_WINDOW_LABEL: &'static str = "main";

/// Printed when the main window cannot be found in a debug build.
pub const MISSING_WINDOW_WARNING: &'static str =
    "warning: main window not found, label may need to be configured";

/// Where the setup sequence stands.
#[derive(PartialEq, Eq, Structural, Clone, Copy, Debug)]
pub enum Phase {
    /// Nothing has happened yet.
    Start,
    /// The logging plugin has been asked for.
    AwaitingPlugin,
    /// The main window has been looked up.
    AwaitingWindow,
    /// Developer tools or the warning have been asked for.
    Reporting,
    /// Setup finished successfully.
    Done,
    /// Setup failed; the error goes back to the host.
    Failed,
}

/// What the host reports back.
#[derive(PartialEq, Eq, Structural, Clone, Copy, Debug)]
pub enum Event {
    /// The host calls the setup hook.
    Begin,
    /// The logging plugin was registered.
    PluginRegistered,
    /// Registering the logging plugin returned an error.
    PluginFailed,
    /// A window with the main label exists.
    WindowFound,
    /// No window has the main label.
    WindowMissing,
    /// The last requested action was carried out.
    Performed,
}

/// What the host is asked to do next.
#[derive(PartialEq, Eq, Structural, Clone, Copy, Debug)]
pub enum Action {
    /// Register the logging plugin at debug level.
    RegisterLogPlugin,
    /// Look up the window labelled `MAIN_WINDOW_LABEL`.
    LookUpWindow,
    /// Open developer tools on the window that was found.
    OpenDevtools,
    /// Print `MISSING_WINDOW_WARNING` to standard output.
    WarnMissingWindow,
    /// Return success from the setup hook.
    Succeed,
    /// Return the error from the setup hook.
    Fail,
    /// The event does not fit the current phase: nothing to do.
    Ignore,
}

impl Phase {
    /// Setup is over, one way or the other.
    pub open spec fn spec_is_terminal(self) -> bool {
        self is Done || self is Failed
    }

    pub fn is_terminal(&self) -> (r: bool)
        ensures
            r == self.spec_is_terminal(),
    {
        matches!(*self, Phase::Done | Phase::Failed)
    }

    /// How many transitions at most remain before setup is over.
    pub open spec fn rank(self) -> nat {
        match self {
            Phase::Start => 4,
            Phase::AwaitingPlugin => 3,
            Phase::AwaitingWindow => 2,
            Phase::Reporting => 1,
            Phase::Done => 0,
            Phase::Failed => 0,
        }
    }
}

/// The next phase and action, given the build kind, the phase and the event.
pub open spec fn transition(debug: bool, phase: Phase, event: Event) -> (Phase, Action) {
    match (phase, event) {
        (Phase::Start, Event::Begin) => if debug {
            (Phase::AwaitingPlugin, Action::RegisterLogPlugin)
        } else {
            (Phase::Done, Action::Succeed)
        },
        (Phase::AwaitingPlugin, Event::PluginRegistered) => (
            Phase::AwaitingWindow,
            Action::LookUpWindow,
        ),
        (Phase::AwaitingPlugin, Event::PluginFailed) => (Phase::Failed, Action::Fail),
        (Phase::AwaitingWindow, Event::WindowFound) => (Phase::Reporting, Action::OpenDevtools),
        (Phase::AwaitingWindow, Event::WindowMissing) => (
            Phase::Reporting,
            Action::WarnMissingWindow,
        ),
        (Phase::Reporting, Event::Performed) => (Phase::Done, Action::Succeed),
        _ => (phase, Action::Ignore),
    }
}

/// The setup machine of one host start.
pub struct Setup {
    pub debug: bool,
    pub phase: Phase,
}

impl Setup {
    /// A machine for a debug or a release build, before the hook is called.
    pub fn new(debug: bool) -> (r: Setup)
        ensures
            r.debug == debug,
            r.phase == Phase::Start,
    {
        Setup { debug, phase: Phase::Start }
    }

    /// Takes the host's report and returns what it must do next.
    pub fn handle(&mut self, event: Event) -> (a: Action)
        ensures
            final(self).debug == old(self).debug,
            (final(self).phase, a) == transition(old(self).debug, old(self).phase, event),
    {
        let (next, a) = match (self.phase, event) {
            (Phase::Start, Event::Begin) => if self.debug {
                (Phase::AwaitingPlugin, Action::RegisterLogPlugin)
            } else {
                (Phase::Done, Action::Succeed)
            },
            (Phase::AwaitingPlugin, Event::PluginRegistered) => (
                Phase::AwaitingWindow,
                Action::LookUpWindow,
            ),
            (Phase::AwaitingPlugin, Event::PluginFailed) => (Phase::Failed, Action::Fail),
            (Phase::AwaitingWindow, Event::WindowFound) => (
                Phase::Reporting,
                Action::OpenDevtools,
            ),
            (Phase::AwaitingWindow, Event::WindowMissing) => (
                Phase::Reporting,
                Action::WarnMissingWindow,
            ),
            (Phase::Reporting, Event::Performed) => (Phase::Done, Action::Succeed),
            _ => (self.phase, Action::Ignore),
        };
        self.phase = next;
        a
    }

    /// Setup is over, one way or the other.
    pub fn is_finished(&self) -> (r: bool)
        ensures
            r == self.phase.spec_is_terminal(),
    {
        self.phase.is_terminal()
    }
}

/// The label that the main window is looked up by.
pub fn main_window_label() -> (r: &'static str)
    ensures
        r@ == MAIN_WINDOW_LABEL@,
{
    MAIN_WINDOW_LABEL
}

/// The warning printed when the main window is missing.
pub fn missing_window_warning() -> (r: &'static str)
    ensures
        r@ == MISSING_WINDOW_WARNING@,
{
    MISSING_WINDOW_WARNING
}

/// What the host reports after carrying out an action, given whether
/// registering the plugin succeeds and whether the main window exists.
pub open spec fn response(a: Action, plugin_ok: bool, window_found: bool) -> Event {
    match a {
        Action::RegisterLogPlugin => if plugin_ok {
            Event::PluginRegistered
        } else {
            Event::PluginFailed
        },
        Action::LookUpWindow => if window_found {
            Event::WindowFound
        } else {
            Event::WindowMissing
        },
        _ => Event::Performed,
    }
}

/// The actions asked for from `phase` on, once `event` has come in.
pub open spec fn run_from(
    debug: bool,
    plugin_ok: bool,
    window_found: bool,
    phase: Phase,
    event: Event,
) -> Seq<Action>
    decreases phase.rank(),
{
    let (next, a) = transition(debug, phase, event);
    if next.spec_is_terminal() || next.rank() >= phase.rank() {
        seq![a]
    } else {
        seq![a] + run_from(debug, plugin_ok, window_found, next, response(a, plugin_ok, window_found))
    }
}

/// The whole sequence of actions of one host start.
pub open spec fn setup_trace(debug: bool, plugin_ok: bool, window_found: bool) -> Seq<Action> {
    run_from(debug, plugin_ok, window_found, Phase::Start, Event::Begin)
}

/// How often `a` occurs in `s`.
pub open spec fn occurrences(s: Seq<Action>, a: Action) -> nat
    decreases s.len(),
{
    if s.len() == 0 {
        0
    } else {
        occurrences(s.drop_last(), a) + if s.last() == a {
            1nat
        } else {
            0nat
        }
    }
}

/// Whether the setup hook of this trace returns success.
pub open spec fn trace_succeeds(t: Seq<Action>) -> bool {
    t.len() > 0 && t.last() == Action::Succeed
}

impl Phase {
    pub fn rank_of(&self) -> (r: u8)
        ensures
            r as nat == self.rank(),
    {
        match *self {
            Phase::Start => 4,
            Phase::AwaitingPlugin => 3,
            Phase::AwaitingWindow => 2,
            Phase::Reporting => 1,
            Phase::Done => 0,
            Phase::Failed => 0,
        }
    }
}

fn host_response(a: Action, plugin_ok: bool, window_found: bool) -> (r: Event)
    ensures
        r == response(a, plugin_ok, window_found),
{
    match a {
        Action::RegisterLogPlugin => if plugin_ok {
            Event::PluginRegistered
        } else {
            Event::PluginFailed
        },
        Action::LookUpWindow => if window_found {
            Event::WindowFound
        } else {
            Event::WindowMissing
        },
        _ => Event::Performed,
    }
}

/// Runs the setup machine against a host whose outcomes are given, and
/// returns the actions it asks for, in order.
pub fn setup_actions(debug: bool, plugin_ok: bool, window_found: bool) -> (r: Vec<Action>)
    ensures
        r@ == setup_trace(debug, plugin_ok, window_found),
{
    let ghost full = setup_trace(debug, plugin_ok, window_found);
    let mut m = Setup::new(debug);
    let mut out: Vec<Action> = Vec::new();
    let mut event = Event::Begin;
    let mut done = false;
    while !done
        invariant
            m.debug == debug,
            done ==> out@ == full,
            !done ==> full == out@ + run_from(debug, plugin_ok, window_found, m.phase, event),
        decreases
            if done {
                0nat
            } else {
                m.phase.rank() + 1
            },
    {
        let before = m.phase.rank_of();
        let ghost old_out = out@;
        let ghost old_phase = m.phase;
        let ghost old_event = event;
        let a = m.handle(event);
        out.push(a);
        if m.is_finished() || m.phase.rank_of() >= before {
            assert(run_from(debug, plugin_ok, window_found, old_phase, old_event) == seq![a]);
            done = true;
        } else {
            event = host_response(a, plugin_ok, window_found);
            assert(full == out@ + run_from(debug, plugin_ok, window_found, m.phase, event)) by {
                assert(run_from(debug, plugin_ok, window_found, old_phase, old_event) == seq![a]
                    + run_from(debug, plugin_ok, window_found, m.phase, event));
                assert(old_out + (seq![a] + run_from(debug, plugin_ok, window_found, m.phase, event))
                    == out@ + run_from(debug, plugin_ok, window_found, m.phase, event));
            }
        }
    }
    out
}

/// A release build registers no logging plugin and opens no developer tools:
/// its setup hook succeeds at once, whatever the host would have reported.
pub proof fn release_build_stays_quiet(plugin_ok: bool, window_found: bool)
    ensures
        setup_trace(false, plugin_ok, window_found) == seq![Action::Succeed],
        occurrences(setup_trace(false, plugin_ok, window_found), Action::RegisterLogPlugin) == 0,
        occurrences(setup_trace(false, plugin_ok, window_found), Action::OpenDevtools) == 0,
{
    let t = setup_trace(false, plugin_ok, window_found);
    reveal_with_fuel(occurrences, 2);
    assert(t.drop_last() =~= Seq::<Action>::empty());
}

/// In a debug build where the logging plugin registers and the main window
/// exists, developer tools are opened exactly once, no warning is printed,
/// and setup succeeds.
pub proof fn debug_build_opens_devtools_once(plugin_ok: bool)
    requires
        plugin_ok,
    ensures
        occurrences(setup_trace(true, plugin_ok, true), Action::OpenDevtools) == 1,
        occurrences(setup_trace(true, plugin_ok, true), Action::WarnMissingWindow) == 0,
        trace_succeeds(setup_trace(true, plugin_ok, true)),
{
    let t = setup_trace(true, plugin_ok, true);
    reveal_with_fuel(run_from, 5);
    assert(t =~= seq![
        Action::RegisterLogPlugin,
        Action::LookUpWindow,
        Action::OpenDevtools,
        Action::Succeed,
    ]);
    reveal_with_fuel(occurrences, 5);
    assert(t.drop_last() =~= seq![Action::RegisterLogPlugin, Action::LookUpWindow, Action::OpenDevtools]);
    assert(t.drop_last().drop_last() =~= seq![Action::RegisterLogPlugin, Action::LookUpWindow]);
    assert(t.drop_last().drop_last().drop_last() =~= seq![Action::RegisterLogPlugin]);
    assert(t.drop_last().drop_last().drop_last().drop_last() =~= Seq::<Action>::empty());
}

/// In a debug build where the logging plugin registers and no window has the
/// main label, the warning is printed exactly once, developer tools are not
/// opened, and setup still succeeds.
pub proof fn debug_build_warns_once(plugin_ok: bool)
    requires
        plugin_ok,
    ensures
        occurrences(setup_trace(true, plugin_ok, false), Action::WarnMissingWindow) == 1,
        occurrences(setup_trace(true, plugin_ok, false), Action::OpenDevtools) == 0,
        trace_succeeds(setup_trace(true, plugin_ok, false)),
{
    let t = setup_trace(true, plugin_ok, false);
    reveal_with_fuel(run_from, 5);
    assert(t =~= seq![
        Action::RegisterLogPlugin,
        Action::LookUpWindow,
        Action::WarnMissingWindow,
        Action::Succeed,
    ]);
    reveal_with_fuel(occurrences, 5);
    assert(t.drop_last() =~= seq![Action::RegisterLogPlugin, Action::LookUpWindow, Action::WarnMissingWindow]);
    assert(t.drop_last().drop_last() =~= seq![Action::RegisterLogPlugin, Action::LookUpWindow]);
    assert(t.drop_last().drop_last().drop_last() =~= seq![Action::RegisterLogPlugin]);
    assert(t.drop_last().drop_last().drop_last().drop_last() =~= Seq::<Action>::empty());
}

/// When the logging plugin cannot be registered, the setup hook returns the
/// error to the host: it does not go on, and it never reports success.
pub proof fn plugin_error_is_returned(window_found: bool)
    ensures
        setup_trace(true, false, window_found) == seq![Action::RegisterLogPlugin, Action::Fail],
        !trace_succeeds(setup_trace(true, false, window_found)),
{
    reveal_with_fuel(run_from, 3);
    assert(setup_trace(true, false, window_found) =~= seq![Action::RegisterLogPlugin, Action::Fail]);
}

} // verus!
