//! The bootstrap lifecycle: one application shell is created, plugins are
//! registered against it while it is still configuring, the run loop is
//! started exactly once, and a terminal outcome of the run loop ends the
//! lifecycle with an exit report. The phases form a single linear sequence —
//! nothing can be registered after the run loop starts, and nothing runs
//! after it ends.

use vstd::prelude::*;
use crate::outcome::ExitReport;
use crate::outcome::RunOutcome;
use crate::outcome::after_run;
use crate::outcome::exit_report_matches;
use crate::plugin::PluginConfig;
use crate::plugin::standard_plugin_seq;

verus! {

/// Where the bootstrap stands in its linear lifecycle.
#[derive(Clone, Copy, Debug, PartialEq, Eq, Structural)]
pub enum Phase {
    /// The shell exists and plugins may still be registered.
    Configuring,
    /// The run loop has been started; the plugin set is final.
    Running,
    /// The run loop has ended; the process exits next.
    Ended,
}

/// The record of one application-shell bootstrap: its phase, the plugins
/// registered so far, and how often the run loop has been started.
pub struct Bootstrap {
    phase: Phase,
    plugins: Vec<PluginConfig>,
    runs_started: u64,
}

impl Bootstrap {
    /// The current phase.
    pub closed spec fn spec_phase(self) -> Phase {
        self.phase
    }

    /// The plugins registered so far, in registration order.
    pub closed spec fn spec_plugins(self) -> Seq<PluginConfig> {
        self.plugins@
    }

    /// How often the run loop has been started on this shell.
    pub closed spec fn spec_runs_started(self) -> u64 {
        self.runs_started
    }

    /// The lifecycle invariant: the run loop has not been started while the
    /// shell is still configuring, and has been started exactly once as soon
    /// as the shell has moved past configuration.
    pub open spec fn wf(self) -> bool {
        &&& self.spec_phase() is Configuring ==> self.spec_runs_started() == 0
        &&& !(self.spec_phase() is Configuring) ==> self.spec_runs_started() == 1
    }

    /// Create one application shell, still configuring, with no plugins and
    /// no run-loop start.
    pub fn new() -> (b: Bootstrap)
        ensures
            b.wf(),
            b.spec_phase() is Configuring,
            b.spec_plugins() == Seq::<PluginConfig>::empty(),
            b.spec_runs_started() == 0,
    {
        let b = Bootstrap { phase: Phase::Configuring, plugins: Vec::new(), runs_started: 0 };
        proof {
            assert(b.spec_plugins() =~= Seq::<PluginConfig>::empty());
        }
        b
    }

    /// Register one plugin. Only a shell that is still configuring accepts a
    /// registration, so every registered plugin precedes the run-loop start.
    pub fn register_plugin(&mut self, p: PluginConfig)
        requires
            old(self).wf(),
            old(self).spec_phase() is Configuring,
        ensures
            final(self).wf(),
            final(self).spec_phase() is Configuring,
            final(self).spec_plugins() == old(self).spec_plugins().push(p),
            final(self).spec_runs_started() == 0,
    {
        self.plugins.push(p);
    }

    /// Start the run loop. The phase moves from configuring to running, the
    /// plugin set is carried over unchanged, and the start is counted.
    pub fn start_run(&mut self)
        requires
            old(self).wf(),
            old(self).spec_phase() is Configuring,
        ensures
            final(self).wf(),
            final(self).spec_phase() is Running,
            final(self).spec_plugins() == old(self).spec_plugins(),
            final(self).spec_runs_started() == 1,
    {
        self.phase = Phase::Running;
        self.runs_started = self.runs_started + 1;
    }

    /// End the lifecycle with the run loop's terminal outcome and decide the
    /// process exit. No phase follows `Ended`: no method of this type accepts
    /// an ended shell, so nothing executes past the run loop but the exit.
    pub fn conclude(&mut self, outcome: RunOutcome) -> (r: ExitReport)
        requires
            old(self).wf(),
            old(self).spec_phase() is Running,
        ensures
            final(self).wf(),
            final(self).spec_phase() is Ended,
            final(self).spec_plugins() == old(self).spec_plugins(),
            final(self).spec_runs_started() == 1,
            exit_report_matches(outcome, r),
            r.code == 0 <==> outcome is ExternalExit,
    {
        self.phase = Phase::Ended;
        after_run(outcome)
    }

    /// Whether the shell is still configuring.
    pub fn is_configuring(&self) -> (r: bool)
        ensures
            r == (self.spec_phase() is Configuring),
    {
        match self.phase {
            Phase::Configuring => true,
            Phase::Running => false,
            Phase::Ended => false,
        }
    }

    /// Whether the run loop has been started and not yet ended.
    pub fn is_running(&self) -> (r: bool)
        ensures
            r == (self.spec_phase() is Running),
    {
        match self.phase {
            Phase::Configuring => false,
            Phase::Running => true,
            Phase::Ended => false,
        }
    }

    /// How often the run loop has been started on this shell.
    pub fn runs_started(&self) -> (r: u64)
        ensures
            r == self.spec_runs_started(),
    {
        self.runs_started
    }

    /// The plugins registered so far, in registration order.
    pub fn plugins(&self) -> (v: &Vec<PluginConfig>)
        ensures
            v@ == self.spec_plugins(),
    {
        &self.plugins
    }
}

/// The whole standard bootstrap, up to the hand-off: one shell is created,
/// the opener plugin and then the prevent-default plugin with the complete
/// suppression set are registered, and the run loop is started exactly once,
/// with both plugins registered before that single start.
pub fn standard_bootstrap() -> (b: Bootstrap)
    ensures
        b.wf(),
        b.spec_phase() is Running,
        b.spec_plugins() == standard_plugin_seq(),
        b.spec_runs_started() == 1,
{
    let mut b = Bootstrap::new();
    let plan = crate::plugin::standard_plugins();
    let mut i: usize = 0;
    while i < plan.len()
        invariant
            b.wf(),
            b.spec_phase() is Configuring,
            i <= plan.len(),
            plan@ == standard_plugin_seq(),
            b.spec_plugins() == plan@.subrange(0, i as int),
        decreases plan.len() - i,
    {
        let p = plan[i];
        b.register_plugin(p);
        proof {
            assert(plan@.subrange(0, i as int).push(plan@[i as int]) =~= plan@.subrange(
                0,
                i as int + 1,
            ));
        }
        i = i + 1;
    }
    proof {
        assert(plan@.subrange(0, plan@.len() as int) =~= plan@);
    }
    b.start_run();
    b
}

/// The run loop is started at most once in any reachable lifecycle state: a
/// shell never sees a second run-loop invocation.
pub proof fn lemma_run_started_at_most_once(b: Bootstrap)
    requires
        b.wf(),
    ensures
        b.spec_runs_started() <= 1,
{
}

/// A shell whose run loop is running or ended has started it exactly once,
/// and a shell that is still configuring has never started it.
pub proof fn lemma_run_count_follows_phase(b: Bootstrap)
    requires
        b.wf(),
    ensures
        b.spec_phase() is Configuring <==> b.spec_runs_started() == 0,
        !(b.spec_phase() is Configuring) <==> b.spec_runs_started() == 1,
{
}

} // verus!
