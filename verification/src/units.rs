//! Units, their services, and the registry that holds them.

use crate::lifecycle::{ExitStatus, Lifecycle, Polled, Runtime, SignalError, StartError, StopStep};
use crate::text::{ends_with, is_suffix, split_words, texts, words};
use vstd::prelude::*;

pub use crate::lifecycle::CurrState;

verus! {

/// How a unit is installed. Carried, not acted on.
#[derive(Debug)]
pub struct Install {
    pub wanted_by: Option<String>,
    pub alias: Option<String>,
}

/// When a service whose child has exited is started again.
#[derive(Debug, Copy, Clone, PartialEq, Eq, Structural)]
pub enum RestartMethod {
    OnFailure,
    Always,
    Never,
}

/// Which processes of a service a kill reaches. Carried, not acted on.
#[derive(Debug, Copy, Clone, PartialEq, Eq, Structural)]
pub enum KillModeEnum {
    Process,
    All,
}

/// How to start, stop and restart one daemon, and the state it is in.
#[derive(Debug)]
pub struct Service {
    /// The kind of service. Carried, not acted on.
    pub service_type: Option<String>,
    /// The command that starts the daemon: words separated by whitespace, the
    /// first of them the program.
    pub exec_start: String,
    /// The command that reloads the daemon's configuration. Reserved.
    pub exec_reload: Option<String>,
    /// The restart policy as the unit file gave it, if it gave one.
    pub restart: Option<RestartMethod>,
    /// A limit on the child's capabilities. Carried, not acted on.
    pub capability_bounding_set: Option<String>,
    /// Whether the child may gain privileges. Carried, not acted on.
    pub no_new_privs: Option<bool>,
    /// The restart policy in force.
    pub restart_policy: RestartMethod,
    /// The phase, the child and the last exit.
    pub runtime: Lifecycle,
}

impl Service {
    /// Whether `other` describes the same daemon: everything but the runtime
    /// state is equal.
    pub open spec fn same_definition(&self, other: &Service) -> bool {
        &&& self.service_type == other.service_type
        &&& self.exec_start == other.exec_start
        &&& self.exec_reload == other.exec_reload
        &&& self.restart == other.restart
        &&& self.capability_bounding_set == other.capability_bounding_set
        &&& self.no_new_privs == other.no_new_privs
        &&& self.restart_policy == other.restart_policy
    }

    /// The words of the command line.
    pub open spec fn argv(&self) -> Seq<Seq<char>> {
        words(self.exec_start@)
    }

    /// A stopped service that runs `exec_start` and restarts on failure.
    pub fn new(exec_start: String) -> (s: Service)
        ensures
            s.exec_start == exec_start,
            s.service_type is None,
            s.exec_reload is None,
            s.restart is None,
            s.capability_bounding_set is None,
            s.no_new_privs is None,
            s.restart_policy == RestartMethod::OnFailure,
            s.runtime@ == Runtime::initial(),
    {
        Service {
            service_type: None,
            exec_start,
            exec_reload: None,
            restart: None,
            capability_bounding_set: None,
            no_new_privs: None,
            restart_policy: RestartMethod::OnFailure,
            runtime: Lifecycle::new(),
        }
    }

    /// The current phase.
    pub fn status(&self) -> (s: CurrState)
        ensures
            s == self.runtime@.state,
    {
        self.runtime.state()
    }

    /// The runtime state as plain values. A child is held exactly in the phases
    /// `Starting`, `Running` and `Stopping`.
    pub fn snapshot(&self) -> (r: Runtime)
        ensures
            r == self.runtime@,
            r.consistent(),
            r.child is Some <==> r.state.holds_child(),
    {
        self.runtime.snapshot()
    }

    /// The child's process id, if the service has a running child.
    pub fn pid(&self) -> (p: Option<u32>)
        ensures
            p == self.runtime@.pid(),
            p is Some <==> (self.runtime@.state is Running || self.runtime@.state is Stopping),
            self.runtime@.consistent(),
    {
        self.runtime.pid()
    }

    /// The process id of the running child.
    pub fn child_id(&self) -> (id: u32)
        requires
            self.runtime@.pid() is Some,
        ensures
            self.runtime@.pid() == Some(id),
    {
        match self.runtime.pid() {
            Some(id) => id,
            None => 0,
        }
    }

    /// The last exit that was observed.
    pub fn exit_status(&self) -> (e: Option<ExitStatus>)
        ensures
            e == self.runtime@.exit_status,
    {
        self.runtime.exit_status()
    }

    /// Asks for a start. `Ok` holds the words of the command line: the caller has
    /// to spawn that program and report with `spawned`. A service that holds a
    /// child is left as it is; one without a command fails.
    pub fn start(&mut self) -> (r: Result<Vec<String>, StartError>)
        ensures
            final(self).same_definition(old(self)),
            final(self).runtime@ == old(self).runtime@.begin_start(old(self).argv().len() > 0),
            final(self).runtime@.consistent(),
            match r {
                Ok(argv) => {
                    &&& old(self).runtime@.start_error(old(self).argv().len() > 0) is None
                    &&& texts(argv@) == old(self).argv()
                },
                Err(e) => old(self).runtime@.start_error(old(self).argv().len() > 0) == Some(e),
            },
    {
        if self.runtime.has_child() {
            return Err(StartError::AlreadyRunning);
        }
        let argv = split_words(self.exec_start.as_str());
        assert(texts(argv@).len() == argv@.len());
        if self.runtime.begin_start(argv.len() > 0) {
            Ok(argv)
        } else {
            Err(StartError::EmptyCommand)
        }
    }

    /// Takes the answer to the spawn that `start` ordered: the child's process id,
    /// or nothing if it could not be spawned, which fails the service. The answer
    /// is `true` exactly when a spawn was pending.
    pub fn spawned(&mut self, outcome: Option<u32>) -> (accepted: bool)
        ensures
            final(self).same_definition(old(self)),
            final(self).runtime@ == old(self).runtime@.spawned(outcome),
            final(self).runtime@.consistent(),
            accepted == (old(self).runtime@.state is Starting),
    {
        self.runtime.spawned(outcome)
    }

    /// Asks for a stop. A running service starts stopping, and the caller has to
    /// send the graceful signal; any other service is left as it is.
    pub fn stop(&mut self) -> (step: StopStep)
        ensures
            final(self).same_definition(old(self)),
            final(self).runtime@ == old(self).runtime@.begin_stop(),
            final(self).runtime@.consistent(),
            step == (match old(self).runtime@.pid() {
                Some(pid) if old(self).runtime@.state is Running => StopStep::Interrupt { pid },
                _ => StopStep::Idle,
            }),
    {
        self.runtime.begin_stop()
    }

    /// Takes the answer to the graceful signal.
    pub fn interrupted(&mut self, result: Result<(), SignalError>) -> (step: StopStep)
        ensures
            final(self).same_definition(old(self)),
            final(self).runtime@ == old(self).runtime@.interrupted(result),
            final(self).runtime@.consistent(),
            step == (match old(self).runtime@.pid() {
                Some(pid) if old(self).runtime@.state is Stopping => {
                    crate::lifecycle::step_after_interrupt(pid, result)
                },
                _ => StopStep::Idle,
            }),
    {
        self.runtime.interrupted(result)
    }

    /// Takes what a poll of the child found, `elapsed_ms` after the graceful
    /// signal.
    pub fn stop_polled(&mut self, elapsed_ms: u64, polled: Polled) -> (step: StopStep)
        ensures
            final(self).same_definition(old(self)),
            final(self).runtime@ == old(self).runtime@.stop_polled(polled),
            final(self).runtime@.consistent(),
            step == (match old(self).runtime@.pid() {
                Some(pid) if old(self).runtime@.state is Stopping => {
                    crate::lifecycle::step_after_poll(pid, elapsed_ms, polled)
                },
                _ => StopStep::Idle,
            }),
    {
        self.runtime.stop_polled(elapsed_ms, polled)
    }

    /// Whom to kill: the running child, whatever the phase.
    pub fn kill(&self) -> (pid: Option<u32>)
        ensures
            pid == self.runtime@.pid(),
    {
        self.runtime.pid()
    }

    /// Records that the child was killed and reaped, with its exit if one was
    /// observed.
    pub fn killed(&mut self, status: Option<ExitStatus>)
        ensures
            final(self).same_definition(old(self)),
            final(self).runtime@ == old(self).runtime@.killed(status),
            final(self).runtime@.consistent(),
    {
        self.runtime.killed(status)
    }

    /// Takes what the monitor's poll of the child found. An exit is recorded and
    /// stops the service; anything else changes nothing.
    pub fn monitored(&mut self, polled: Polled)
        ensures
            final(self).same_definition(old(self)),
            final(self).runtime@ == old(self).runtime@.monitored(polled),
            final(self).runtime@.consistent(),
    {
        self.runtime.monitored(polled)
    }

    /// Reserved: reloading a daemon's configuration is not part of this library.
    pub fn reload() {
    }

    /// Reserved: a restart is a stop followed by a start, which the supervisor
    /// orders.
    pub fn restart() {
    }
}

/// A loaded service description.
#[derive(Debug)]
pub struct Unit {
    /// The path of the file the unit was read from. It is the unit's identity.
    pub path: String,
    /// What the unit is.
    pub description: String,
    /// Where its documentation is.
    pub documentation: Option<String>,
    /// The service it describes.
    pub service: Service,
    /// How it is installed.
    pub install: Install,
    /// The name of the unit this one is ordered after. Carried, not acted on.
    pub after: Option<String>,
    /// The name of the unit this one is ordered before. Carried, not acted on.
    pub before: Option<String>,
    /// The name of the unit this one wants. Carried, not acted on.
    pub wants: Option<String>,
}

impl Unit {
    /// Whether a lookup by `name` finds this unit: its path ends with `name`.
    pub open spec fn answers_to(&self, name: Seq<char>) -> bool {
        is_suffix(name, self.path@)
    }

    /// Whether `other` is the same unit but for its service.
    pub open spec fn same_description(&self, other: &Unit) -> bool {
        &&& self.path == other.path
        &&& self.description == other.description
        &&& self.documentation == other.documentation
        &&& self.install == other.install
        &&& self.after == other.after
        &&& self.before == other.before
        &&& self.wants == other.wants
    }

    /// A unit without relations to other units.
    pub fn new(
        path: String,
        description: String,
        documentation: Option<String>,
        service: Service,
        install: Install,
    ) -> (u: Unit)
        ensures
            u.path == path,
            u.description == description,
            u.documentation == documentation,
            u.service == service,
            u.install == install,
            u.after is None,
            u.before is None,
            u.wants is None,
    {
        Unit {
            path,
            description,
            documentation,
            service,
            install,
            after: None,
            before: None,
            wants: None,
        }
    }
}

/// The position of the first unit that answers to `name`, from `from` on.
pub open spec fn lookup_from(units: Seq<Unit>, name: Seq<char>, from: int) -> Option<int>
    decreases units.len() - from,
{
    if from < 0 || from >= units.len() {
        None
    } else if units[from].answers_to(name) {
        Some(from)
    } else {
        lookup_from(units, name, from + 1)
    }
}

/// The position of the first unit that answers to `name`.
pub open spec fn lookup(units: Seq<Unit>, name: Seq<char>) -> Option<int> {
    lookup_from(units, name, 0)
}

/// A lookup finds the first unit that answers to the name, and finds nothing
/// only if none does.
pub proof fn lemma_lookup_from(units: Seq<Unit>, name: Seq<char>, from: int)
    requires
        0 <= from <= units.len(),
    ensures
        match lookup_from(units, name, from) {
            Some(i) => {
                &&& from <= i < units.len()
                &&& units[i].answers_to(name)
                &&& forall|j: int| from <= j < i ==> !(#[trigger] units[j]).answers_to(name)
            },
            None => forall|j: int|
                from <= j < units.len() ==> !(#[trigger] units[j]).answers_to(name),
        },
    decreases units.len() - from,
{
    if from < units.len() && !units[from].answers_to(name) {
        lemma_lookup_from(units, name, from + 1);
    }
}

/// Lookup by name: a unit whose path ends with `name`, and before which no
/// other unit's path does, is the one that the lookup returns.
pub proof fn lemma_lookup_by_suffix(units: Seq<Unit>, name: Seq<char>, i: int)
    requires
        0 <= i < units.len(),
        is_suffix(name, units[i].path@),
        forall|j: int| 0 <= j < i ==> !is_suffix(name, (#[trigger] units[j]).path@),
    ensures
        lookup(units, name) == Some(i),
{
    lemma_lookup_from(units, name, 0);
}

/// Lookup by name: when some unit's path ends with `name`, the lookup returns a
/// unit, and that unit's path ends with `name`.
pub proof fn lemma_lookup_finds_a_match(units: Seq<Unit>, name: Seq<char>, i: int)
    requires
        0 <= i < units.len(),
        is_suffix(name, units[i].path@),
    ensures
        lookup(units, name) is Some,
        0 <= lookup(units, name)->0 <= i,
        is_suffix(name, units[lookup(units, name)->0].path@),
{
    lemma_lookup_from(units, name, 0);
}

/// Every service is consistent: it holds a child exactly in the phases
/// `Starting`, `Running` and `Stopping`.
pub open spec fn all_consistent(units: Seq<Unit>) -> bool {
    forall|i: int| 0 <= i < units.len() ==> (#[trigger] units[i]).service.runtime@.consistent()
}

/// Whether one of the units has exactly this path.
pub open spec fn holds_path(units: Seq<Unit>, path: Seq<char>) -> bool {
    exists|j: int| 0 <= j < units.len() && (#[trigger] units[j]).path@ == path
}

/// All the units of a system, in the order they were loaded.
#[derive(Debug)]
pub struct AllUnits {
    units: Vec<Unit>,
}

impl View for AllUnits {
    type V = Seq<Unit>;

    closed spec fn view(&self) -> Seq<Unit> {
        self.units@
    }
}

impl AllUnits {
    /// A registry without units.
    pub fn new() -> (all: AllUnits)
        ensures
            all@ == Seq::<Unit>::empty(),
    {
        AllUnits { units: Vec::new() }
    }

    /// Appends a unit.
    pub fn add_unit(&mut self, u: Unit)
        ensures
            final(self)@ == old(self)@.push(u),
    {
        self.units.push(u)
    }

    /// Appends units, in their order.
    pub fn add_all(&mut self, units: Vec<Unit>)
        ensures
            final(self)@ == old(self)@ + units@,
    {
        let mut units = units;
        self.units.append(&mut units);
    }

    /// The number of units.
    pub fn len(&self) -> (n: usize)
        ensures
            n == self@.len(),
    {
        self.units.len()
    }

    /// The unit at `index`.
    pub fn get(&self, index: usize) -> (u: Option<&Unit>)
        ensures
            match u {
                Some(unit) => index < self@.len() && *unit == self@[index as int],
                None => index >= self@.len(),
            },
    {
        if index < self.units.len() {
            Some(&self.units[index])
        } else {
            None
        }
    }

    /// The service of the unit at `index`, to be changed in place. Nothing else
    /// of the registry changes.
    pub fn service_mut(&mut self, index: usize) -> (service: &mut Service)
        requires
            index < old(self)@.len(),
        ensures
            *service == old(self)@[index as int].service,
            final(self)@.len() == old(self)@.len(),
            final(self)@[index as int].service == *final(service),
            final(self)@[index as int].same_description(&old(self)@[index as int]),
            forall|j: int|
                0 <= j < old(self)@.len() && j != index ==> final(self)@[j] == old(self)@[j],
    {
        &mut self.units[index].service
    }

    /// Whether a unit with exactly this path is held.
    pub fn holds(&self, path: &str) -> (r: bool)
        ensures
            r == holds_path(self@, path@),
    {
        let mut i: usize = 0;
        while i < self.units.len()
            invariant
                i <= self.units.len(),
                forall|j: int| 0 <= j < i ==> (#[trigger] self.units@[j]).path@ != path@,
            decreases self.units.len() - i,
        {
            if crate::text::same_text(self.units[i].path.as_str(), path) {
                return true;
            }
            i += 1;
        }
        false
    }

    /// The position of the first unit whose path ends with `name`.
    pub fn find(&self, name: &str) -> (found: Option<usize>)
        ensures
            match found {
                Some(i) => lookup(self@, name@) == Some(i as int) && i < self@.len(),
                None => lookup(self@, name@) is None,
            },
    {
        let mut i: usize = 0;
        while i < self.units.len()
            invariant
                i <= self.units.len(),
                lookup(self.units@, name@) == lookup_from(self.units@, name@, i as int),
            decreases self.units.len() - i,
        {
            if ends_with(self.units[i].path.as_str(), name) {
                return Some(i);
            }
            i += 1;
        }
        None
    }

    /// The first unit whose path ends with `name`: `example.service` finds
    /// `/etc/services/example.service`. The match is exact and case-sensitive.
    pub fn get_by_name(&self, name: &str) -> (found: Option<&Unit>)
        ensures
            match found {
                Some(unit) => {
                    &&& lookup(self@, name@) is Some
                    &&& *unit == self@[lookup(self@, name@)->0]
                    &&& unit.answers_to(name@)
                },
                None => {
                    &&& lookup(self@, name@) is None
                    &&& forall|j: int|
                        0 <= j < self@.len() ==> !(#[trigger] self@[j]).answers_to(name@)
                },
            },
    {
        proof {
            lemma_lookup_from(self@, name@, 0);
        }
        match self.find(name) {
            Some(i) => Some(&self.units[i]),
            None => None,
        }
    }
}

} // verus!
