//! The bootstrap state machine.
//!
//! Startup is a straight line: spawn the companion process, initialize the
//! GUI runtime with its plugins, grant the filesystem scope, enter the event
//! loop.  The two fallible steps — process creation and runtime
//! initialization — abort the whole run on failure, with no retry and no
//! fallback.  The machine decides; the embedding program performs each
//! action and reports the outcome back as an event.

use vstd::prelude::*;

verus! {

/// A phase of a bootstrap run.  No transition ever returns to an earlier
/// phase: startup has no restart or recovery path.
#[derive(Clone, Copy, Debug, PartialEq, Eq, Structural)]
pub enum Phase {
    /// Nothing has happened yet; the companion spawn is the next action.
    Start,
    /// The companion process was created; its handle is dropped and the
    /// process is never supervised again.
    ProcessSpawned,
    /// The GUI runtime is built with its plugin set.
    RuntimeInitialized,
    /// The one-time setup has granted the wildcard filesystem scope.
    ScopeConfigured,
    /// The GUI event loop holds the thread until the application ends.
    EventLoopRunning,
    /// The application ended normally.
    Exited,
    /// The event loop ended with a fatal runtime error.
    Crashed,
    /// A fallible startup step failed; the run is over, fail-fast.
    AbortedAtStartup,
}

/// The outcome of an action, reported back by the embedding program.
#[derive(Clone, Copy, Debug, PartialEq, Eq, Structural)]
pub enum Event {
    /// The operating system accepted the companion process creation.
    SpawnSucceeded,
    /// The operating system could not create the companion process.
    SpawnFailed,
    /// The GUI runtime was built with the requested plugins.
    RuntimeReady,
    /// The GUI runtime could not be built.
    RuntimeFailed,
    /// The filesystem scope grant was recorded.
    ScopeGranted,
    /// The thread entered the GUI event loop.
    LoopEntered,
    /// The application left the event loop normally.
    AppExited,
    /// The event loop ended with a fatal runtime error.
    AppCrashed,
}

/// What the embedding program must do next.
#[derive(Debug)]
pub enum Action {
    /// Ask the operating system to create the companion process.
    SpawnCompanion(crate::config::SpawnCommand),
    /// Build the GUI runtime with exactly these plugins, in this order.
    InitRuntime(Vec<crate::config::Plugin>),
    /// Grant this record to the runtime's filesystem scope.
    GrantScope(crate::scope::ScopeGrant),
    /// Hand the thread to the GUI event loop.
    EnterEventLoop,
    /// Terminate the whole application with a fatal error.
    Abort,
}

/// Whether a phase is terminal: the run is over and nothing is awaited.
pub open spec fn is_terminal(p: Phase) -> bool {
    p is Exited || p is Crashed || p is AbortedAtStartup
}

/// Whether the phase's pending action issues the companion spawn.  Only the
/// initial phase does: the machine has no other spawn, and no poll, wait or
/// restart of the companion exists at all.
pub open spec fn issues_spawn(p: Phase) -> bool {
    p is Start
}

/// Whether `e` is an outcome the machine awaits in phase `p`.  A run in
/// which every event answers the pending action is a well-formed run.
pub open spec fn responds_to(p: Phase, e: Event) -> bool {
    match p {
        Phase::Start => e is SpawnSucceeded || e is SpawnFailed,
        Phase::ProcessSpawned => e is RuntimeReady || e is RuntimeFailed,
        Phase::RuntimeInitialized => e is ScopeGranted,
        Phase::ScopeConfigured => e is LoopEntered,
        Phase::EventLoopRunning => e is AppExited || e is AppCrashed,
        _ => false,
    }
}

/// The transition relation.  An event the phase does not await changes
/// nothing; in particular every terminal phase absorbs every event.
pub open spec fn spec_step(p: Phase, e: Event) -> Phase {
    match (p, e) {
        (Phase::Start, Event::SpawnSucceeded) => Phase::ProcessSpawned,
        (Phase::Start, Event::SpawnFailed) => Phase::AbortedAtStartup,
        (Phase::ProcessSpawned, Event::RuntimeReady) => Phase::RuntimeInitialized,
        (Phase::ProcessSpawned, Event::RuntimeFailed) => Phase::AbortedAtStartup,
        (Phase::RuntimeInitialized, Event::ScopeGranted) => Phase::ScopeConfigured,
        (Phase::ScopeConfigured, Event::LoopEntered) => Phase::EventLoopRunning,
        (Phase::EventLoopRunning, Event::AppExited) => Phase::Exited,
        (Phase::EventLoopRunning, Event::AppCrashed) => Phase::Crashed,
        _ => p,
    }
}

/// Advances the machine by one reported outcome.
pub fn step(p: Phase, e: Event) -> (q: Phase)
    ensures
        q == spec_step(p, e),
{
    match (p, e) {
        (Phase::Start, Event::SpawnSucceeded) => Phase::ProcessSpawned,
        (Phase::Start, Event::SpawnFailed) => Phase::AbortedAtStartup,
        (Phase::ProcessSpawned, Event::RuntimeReady) => Phase::RuntimeInitialized,
        (Phase::ProcessSpawned, Event::RuntimeFailed) => Phase::AbortedAtStartup,
        (Phase::RuntimeInitialized, Event::ScopeGranted) => Phase::ScopeConfigured,
        (Phase::ScopeConfigured, Event::LoopEntered) => Phase::EventLoopRunning,
        (Phase::EventLoopRunning, Event::AppExited) => Phase::Exited,
        (Phase::EventLoopRunning, Event::AppCrashed) => Phase::Crashed,
        _ => p,
    }
}

/// The pending action of a phase, if any.  `None` means the machine waits
/// for the world: the event loop holds the thread, or the run ended well.
pub fn next_action(p: Phase) -> (a: Option<Action>)
    ensures
        p is Start ==> (a matches Some(act) && act matches Action::SpawnCompanion(c)
            && c.is_companion_launch()),
        p is ProcessSpawned ==> (a matches Some(act) && act matches Action::InitRuntime(ps)
            && ps@ == crate::config::spec_plugin_set()),
        p is RuntimeInitialized ==> (a matches Some(act) && act matches Action::GrantScope(g)
            && g.is_wildcard() && !g.recursive),
        p is ScopeConfigured ==> (a matches Some(act) && act is EnterEventLoop),
        p is EventLoopRunning || p is Exited ==> a is None,
        p is Crashed || p is AbortedAtStartup ==> (a matches Some(act) && act is Abort),
        (a matches Some(act) && act is SpawnCompanion) <==> issues_spawn(p),
{
    match p {
        Phase::Start => Some(Action::SpawnCompanion(crate::config::companion_command())),
        Phase::ProcessSpawned => Some(Action::InitRuntime(crate::config::plugin_set())),
        Phase::RuntimeInitialized => Some(Action::GrantScope(crate::scope::wildcard_grant())),
        Phase::ScopeConfigured => Some(Action::EnterEventLoop),
        Phase::EventLoopRunning => None,
        Phase::Exited => None,
        Phase::Crashed => Some(Action::Abort),
        Phase::AbortedAtStartup => Some(Action::Abort),
    }
}

/// How far along a run a phase is.  Terminal phases share the last rank.
pub open spec fn rank(p: Phase) -> int {
    match p {
        Phase::Start => 0,
        Phase::ProcessSpawned => 1,
        Phase::RuntimeInitialized => 2,
        Phase::ScopeConfigured => 3,
        Phase::EventLoopRunning => 4,
        Phase::Exited => 5,
        Phase::Crashed => 5,
        Phase::AbortedAtStartup => 5,
    }
}

/// A well-formed run: `phases` starts the recorded history, each event
/// answers the phase it arrived in, and each following phase is the step the
/// event caused.
pub open spec fn is_run(phases: Seq<Phase>, events: Seq<Event>) -> bool {
    &&& phases.len() == events.len() + 1
    &&& forall|i: int|
        0 <= i < events.len() ==> #[trigger] responds_to(phases[i], events[i])
    &&& forall|i: int|
        0 <= i < events.len() ==> phases[i + 1] == spec_step(phases[i], #[trigger] events[i])
}

/// No awaited event ever brings a run back to `Start`.
pub proof fn lemma_step_leaves_start(p: Phase, e: Event)
    requires
        responds_to(p, e),
    ensures
        spec_step(p, e) !is Start,
{
}

/// Law: the companion process is spawned exactly once per bootstrap
/// invocation.  In a well-formed run from `Start`, the first phase issues
/// the spawn and no later phase ever does.
pub proof fn lemma_spawn_once(phases: Seq<Phase>, events: Seq<Event>)
    requires
        is_run(phases, events),
        phases[0] is Start,
    ensures
        issues_spawn(phases[0]),
        forall|i: int| 0 < i < phases.len() ==> !issues_spawn(#[trigger] phases[i]),
{
    assert forall|i: int| 0 < i < phases.len() implies !issues_spawn(#[trigger] phases[i]) by {
        assert(phases[i] == spec_step(phases[i - 1], events[i - 1]));
        lemma_step_leaves_start(phases[i - 1], events[i - 1]);
    }
}

/// Law: the companion process is never supervised.  After the spawn — in any
/// well-formed run whose history no longer sits at `Start` — no phase issues
/// a spawn again, whatever the companion does; and the machine has no poll,
/// wait or restart action at all.
pub proof fn lemma_no_companion_supervision(phases: Seq<Phase>, events: Seq<Event>)
    requires
        is_run(phases, events),
        phases[0] !is Start,
    ensures
        forall|i: int| 0 <= i < phases.len() ==> !issues_spawn(#[trigger] phases[i]),
{
    assert forall|i: int| 0 <= i < phases.len() implies !issues_spawn(#[trigger] phases[i]) by {
        if i > 0 {
            assert(phases[i] == spec_step(phases[i - 1], events[i - 1]));
            lemma_step_leaves_start(phases[i - 1], events[i - 1]);
        }
    }
}

/// A terminal phase absorbs every event.
pub proof fn lemma_terminal_absorbs(p: Phase, e: Event)
    requires
        is_terminal(p),
    ensures
        spec_step(p, e) == p,
{
}

/// Helper for induction along a run: the phase at `i` of an aborted run is
/// still aborted.
proof fn lemma_aborted_at(phases: Seq<Phase>, events: Seq<Event>, i: int)
    requires
        is_run(phases, events),
        phases[0] is AbortedAtStartup,
        0 <= i < phases.len(),
    ensures
        phases[i] is AbortedAtStartup,
    decreases i,
{
    if i > 0 {
        lemma_aborted_at(phases, events, i - 1);
        assert(phases[i] == spec_step(phases[i - 1], events[i - 1]));
    }
}

/// Law: fail-fast on spawn error.  A failed spawn aborts the run at once,
/// and everything after it stays aborted: no second spawn is attempted and
/// runtime initialization is never reached.
pub proof fn lemma_fail_fast_on_spawn_error(phases: Seq<Phase>, events: Seq<Event>)
    requires
        is_run(phases, events),
        phases[0] == spec_step(Phase::Start, Event::SpawnFailed),
    ensures
        phases[0] is AbortedAtStartup,
        forall|i: int| 0 <= i < phases.len() ==> #[trigger] phases[i] is AbortedAtStartup,
        forall|i: int| 0 <= i < phases.len() ==> !issues_spawn(#[trigger] phases[i]),
{
    assert forall|i: int| 0 <= i < phases.len() implies #[trigger] phases[i]
        is AbortedAtStartup by {
        lemma_aborted_at(phases, events, i);
    }
}

/// One awaited step never lowers the rank: no transition returns to an
/// earlier phase.
pub proof fn lemma_step_monotone(p: Phase, e: Event)
    requires
        responds_to(p, e),
    ensures
        rank(p) <= rank(spec_step(p, e)),
{
}

/// Helper for induction along a run: rank never drops between two points.
proof fn lemma_rank_between(phases: Seq<Phase>, events: Seq<Event>, i: int, j: int)
    requires
        is_run(phases, events),
        0 <= i <= j < phases.len(),
    ensures
        rank(phases[i]) <= rank(phases[j]),
    decreases j - i,
{
    if i < j {
        lemma_rank_between(phases, events, i, j - 1);
        assert(phases[j] == spec_step(phases[j - 1], events[j - 1]));
        lemma_step_monotone(phases[j - 1], events[j - 1]);
    }
}

/// Law: startup never goes backwards.  In a well-formed run the rank of the
/// phase never decreases; in particular, once the event loop holds the
/// thread, every later phase is the loop itself or a terminal phase — the
/// run never returns to a startup phase.
pub proof fn lemma_no_return_to_earlier_phase(phases: Seq<Phase>, events: Seq<Event>)
    requires
        is_run(phases, events),
    ensures
        forall|i: int, j: int|
            0 <= i <= j < phases.len() ==> rank(#[trigger] phases[i]) <= rank(
                #[trigger] phases[j],
            ),
{
    assert forall|i: int, j: int| 0 <= i <= j < phases.len() implies rank(#[trigger] phases[i])
        <= rank(#[trigger] phases[j]) by {
        lemma_rank_between(phases, events, i, j);
    }
}

} // verus!
