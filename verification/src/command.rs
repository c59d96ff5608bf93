//! The phase executor: placeholder substitution over the raw phase
//! templates, execution of each phase as an external shell command, and
//! strict fail-fast sequencing of setup, build, and install.
use vstd::prelude::*;

use crate::errors::BuildError;
use crate::strutil::{replace, replace_all, trim, trim_spec};

verus! {

/// One of the three ordered build phases.
#[derive(Clone, Copy, PartialEq, Eq, Structural, Debug)]
pub enum Phase {
    Setup,
    Build,
    Install,
}

/// The position of a phase in execution order.
pub open spec fn phase_index(p: Phase) -> int {
    match p {
        Phase::Setup => 0,
        Phase::Build => 1,
        Phase::Install => 2,
    }
}

/// The phase at a position in execution order.
pub open spec fn phase_of(i: int) -> Phase {
    if i == 0 {
        Phase::Setup
    } else if i == 1 {
        Phase::Build
    } else {
        Phase::Install
    }
}

/// The lower-case name of a phase.
pub open spec fn phase_name(p: Phase) -> Seq<char> {
    match p {
        Phase::Setup => "setup"@,
        Phase::Build => "build"@,
        Phase::Install => "install"@,
    }
}

impl Phase {
    /// The lower-case name of this phase.
    pub fn name(&self) -> (r: String)
        ensures
            r@ == phase_name(*self),
    {
        match self {
            Phase::Setup => String::from_str("setup"),
            Phase::Build => String::from_str("build"),
            Phase::Install => String::from_str("install"),
        }
    }
}

/// What `%configure` expands to.
pub open spec fn configure_replacement() -> Seq<char> {
    "./configure --prefix=/usr"@
}

/// What `%make` expands to.
pub open spec fn make_replacement() -> Seq<char> {
    "make"@
}

/// What `%make_install` expands to: a staged install under `dest`.
pub open spec fn make_install_replacement(dest: Seq<char>) -> Seq<char> {
    "make DESTDIR="@ + dest + " install"@
}

/// The command text a phase template yields: the three recognized
/// placeholders replaced literally (unrecognized `%` tokens pass through
/// verbatim), then surrounding whitespace trimmed.
pub open spec fn spec_substitute(template: Seq<char>, dest: Seq<char>) -> Seq<char> {
    trim_spec(
        replace_all(
            replace_all(
                replace_all(template, "%configure"@, configure_replacement()),
                "%make_install"@,
                make_install_replacement(dest),
            ),
            "%make"@,
            make_replacement(),
        ),
    )
}

/// Expands the recognized placeholders in a phase template and trims the
/// result. `%make_install` is replaced before `%make` so that the longer
/// token is never clobbered by the shorter one.
pub fn substitute(template: &str, dest_dir: &str) -> (r: String)
    ensures
        r@ == spec_substitute(template@, dest_dir@),
{
    let a = replace(template, "%configure", "./configure --prefix=/usr");
    let mut install_cmd = String::from_str("make DESTDIR=");
    install_cmd.append(dest_dir);
    install_cmd.append(" install");
    let b = replace(a.as_str(), "%make_install", install_cmd.as_str());
    let c = replace(b.as_str(), "%make", "make");
    trim(c.as_str())
}

/// Relies on run_script::run: executes `script` through the platform shell
/// with `workdir` as working directory and returns the exit code together
/// with the captured standard output and standard error; on a launch
/// failure, the error's description. Nothing is assumed about the values
/// an external process produces.
#[verifier::external_body]
fn run_script_in(script: &str, workdir: &str) -> (r: Result<(i32, String, String), String>) {
    let mut options = run_script::ScriptOptions::new();
    options.working_directory = Some(std::path::PathBuf::from(workdir));
    let args = vec![];
    match run_script::run(script, &args, &options) {
        Ok(t) => Ok(t),
        Err(e) => Err(format!("{}", e)),
    }
}

/// What one executed phase left behind: the substituted command, its exit
/// code, and the captured output streams.
#[derive(Debug)]
pub struct PhaseReport {
    pub phase: Phase,
    pub command: String,
    pub exit_code: i32,
    pub stdout: String,
    pub stderr: String,
}

/// The terminal result of a whole invocation.
#[derive(Debug)]
pub enum BuildOutcome {
    Success,
    Failed(PhaseReport),
}

/// Substitutes one phase's template and runs it as an external command in
/// `source_dir`, capturing everything the process left behind.
pub fn run(phase: Phase, template: &str, source_dir: &str, dest_dir: &str) -> (r: Result<
    PhaseReport,
    BuildError,
>)
    ensures
        match r {
            Ok(rep) => rep.phase == phase && rep.command@ == spec_substitute(
                template@,
                dest_dir@,
            ),
            Err(e) => e matches BuildError::PhaseLaunch { phase: p, detail: _ } && p == phase,
        },
{
    let cmd = substitute(template, dest_dir);
    match run_script_in(cmd.as_str(), source_dir) {
        Ok((code, out, err)) => Ok(
            PhaseReport {
                phase,
                command: cmd,
                exit_code: code,
                stdout: out,
                stderr: err,
            },
        ),
        Err(detail) => Err(BuildError::PhaseLaunch { phase, detail }),
    }
}

/// Where the executor stands: a phase still pending, or a terminal state.
pub enum PhaseState {
    Pending(Phase),
    Success,
    Failed(PhaseReport),
}

/// Runs the three phases in strict order, aborting at the first non-zero
/// exit. `codes` records the exit code of every phase that actually ran,
/// in order.
pub struct PhaseExecutor {
    state: PhaseState,
    setup_template: String,
    build_template: String,
    install_template: String,
    source_dir: String,
    dest_dir: String,
    codes: Vec<i32>,
}

impl PhaseExecutor {
    /// Where the executor stands.
    pub closed spec fn spec_state(&self) -> PhaseState {
        self.state
    }

    /// The exit codes of the phases run so far, in order.
    pub closed spec fn spec_codes(&self) -> Seq<i32> {
        self.codes@
    }

    /// The raw template of a phase.
    pub closed spec fn template_of(&self, p: Phase) -> Seq<char> {
        match p {
            Phase::Setup => self.setup_template@,
            Phase::Build => self.build_template@,
            Phase::Install => self.install_template@,
        }
    }

    /// The working directory phases run in (the extracted source root).
    pub closed spec fn spec_source_dir(&self) -> Seq<char> {
        self.source_dir@
    }

    /// The staged-install destination substituted into `%make_install`.
    pub closed spec fn spec_dest_dir(&self) -> Seq<char> {
        self.dest_dir@
    }

    /// The executor's invariant: the recorded exit codes and the state
    /// tell one consistent story. Every phase before the last recorded one
    /// exited zero; a pending phase follows exactly the phases already
    /// run; a failure names the phase whose non-zero code ended the run.
    pub open spec fn wf(&self) -> bool {
        match self.spec_state() {
            PhaseState::Pending(p) => {
                &&& self.spec_codes().len() == phase_index(p)
                &&& forall|j: int| 0 <= j < self.spec_codes().len() ==> self.spec_codes()[j] == 0
            },
            PhaseState::Success => {
                &&& self.spec_codes().len() == 3
                &&& forall|j: int| 0 <= j < self.spec_codes().len() ==> self.spec_codes()[j] == 0
            },
            PhaseState::Failed(rep) => {
                &&& 1 <= self.spec_codes().len() <= 3
                &&& self.spec_codes().last() != 0
                &&& forall|j: int|
                    0 <= j < self.spec_codes().len() - 1 ==> self.spec_codes()[j] == 0
                &&& rep.phase == phase_of(self.spec_codes().len() - 1)
                &&& rep.exit_code == self.spec_codes().last()
                &&& rep.command@ == spec_substitute(
                    self.template_of(rep.phase),
                    self.spec_dest_dir(),
                )
            },
        }
    }

    /// A fresh executor: setup pending, nothing run yet.
    pub fn new(
        setup_template: String,
        build_template: String,
        install_template: String,
        source_dir: String,
        dest_dir: String,
    ) -> (r: PhaseExecutor)
        ensures
            r.wf(),
            r.spec_state() == PhaseState::Pending(Phase::Setup),
            r.spec_codes() == Seq::<i32>::empty(),
            r.template_of(Phase::Setup) == setup_template@,
            r.template_of(Phase::Build) == build_template@,
            r.template_of(Phase::Install) == install_template@,
            r.spec_source_dir() == source_dir@,
            r.spec_dest_dir() == dest_dir@,
    {
        PhaseExecutor {
            state: PhaseState::Pending(Phase::Setup),
            setup_template,
            build_template,
            install_template,
            source_dir,
            dest_dir,
            codes: Vec::new(),
        }
    }

    /// Whether the executor reached a terminal state.
    pub fn is_finished(&self) -> (r: bool)
        ensures
            r == !(self.spec_state() is Pending),
    {
        match &self.state {
            PhaseState::Pending(_) => false,
            _ => true,
        }
    }

    /// The phase that would run next, if any.
    pub fn current_phase(&self) -> (r: Option<Phase>)
        ensures
            match r {
                Some(p) => self.spec_state() == PhaseState::Pending(p),
                None => !(self.spec_state() is Pending),
            },
    {
        match &self.state {
            PhaseState::Pending(p) => Some(*p),
            _ => None,
        }
    }

    /// The exit codes of the phases run so far, in order.
    pub fn codes(&self) -> (r: &Vec<i32>)
        ensures
            r@ == self.spec_codes(),
    {
        &self.codes
    }

    /// Runs the pending phase, if any, and moves the state machine: a zero
    /// exit advances to the next phase (or to success after install), a
    /// non-zero exit is terminal failure. In a terminal state this does
    /// nothing. An error is a launch failure; it changes nothing.
    pub fn step(&mut self) -> (r: Result<(), BuildError>)
        requires
            old(self).wf(),
        ensures
            final(self).wf(),
            final(self).template_of(Phase::Setup) == old(self).template_of(Phase::Setup),
            final(self).template_of(Phase::Build) == old(self).template_of(Phase::Build),
            final(self).template_of(Phase::Install) == old(self).template_of(Phase::Install),
            final(self).spec_source_dir() == old(self).spec_source_dir(),
            final(self).spec_dest_dir() == old(self).spec_dest_dir(),
            match old(self).spec_state() {
                PhaseState::Pending(p) => match r {
                    Ok(u) => {
                        &&& final(self).spec_codes().len() == old(self).spec_codes().len() + 1
                        &&& final(self).spec_codes().take(old(self).spec_codes().len() as int)
                            == old(self).spec_codes()
                        &&& ({
                            let code = final(self).spec_codes().last();
                            if code == 0 {
                                final(self).spec_state() == (if phase_index(p) < 2 {
                                    PhaseState::Pending(phase_of(phase_index(p) + 1))
                                } else {
                                    PhaseState::Success
                                })
                            } else {
                                final(self).spec_state() matches PhaseState::Failed(rep)
                                    && rep.phase == p && rep.exit_code == code
                            }
                        })
                    },
                    Err(e) => {
                        &&& e matches BuildError::PhaseLaunch { phase: p2, detail: _ } && p2 == p
                        &&& *final(self) == *old(self)
                    },
                },
                _ => r is Ok && *final(self) == *old(self),
            },
    {
        let phase = match &self.state {
            PhaseState::Pending(p) => *p,
            _ => {
                return Ok(());
            },
        };
        let template = match phase {
            Phase::Setup => &self.setup_template,
            Phase::Build => &self.build_template,
            Phase::Install => &self.install_template,
        };
        match run(phase, template.as_str(), self.source_dir.as_str(), self.dest_dir.as_str()) {
            Ok(rep) => {
                let code = rep.exit_code;
                self.codes.push(code);
                if code == 0 {
                    self.state = match phase {
                        Phase::Setup => PhaseState::Pending(Phase::Build),
                        Phase::Build => PhaseState::Pending(Phase::Install),
                        Phase::Install => PhaseState::Success,
                    };
                } else {
                    self.state = PhaseState::Failed(rep);
                }
                Ok(())
            },
            Err(e) => Err(e),
        }
    }

    /// Runs phases in order until a terminal state: success after all
    /// three exit zero, failure at the first non-zero exit.
    pub fn run_to_end(&mut self) -> (r: Result<(), BuildError>)
        requires
            old(self).wf(),
        ensures
            final(self).wf(),
            final(self).template_of(Phase::Setup) == old(self).template_of(Phase::Setup),
            final(self).template_of(Phase::Build) == old(self).template_of(Phase::Build),
            final(self).template_of(Phase::Install) == old(self).template_of(Phase::Install),
            final(self).spec_source_dir() == old(self).spec_source_dir(),
            final(self).spec_dest_dir() == old(self).spec_dest_dir(),
            r is Ok ==> !(final(self).spec_state() is Pending),
            r matches Err(e) ==> e matches BuildError::PhaseLaunch { phase: _, detail: _ }
                && final(self).spec_state() is Pending,
    {
        loop
            invariant
                self.wf(),
                self.template_of(Phase::Setup) == old(self).template_of(Phase::Setup),
                self.template_of(Phase::Build) == old(self).template_of(Phase::Build),
                self.template_of(Phase::Install) == old(self).template_of(Phase::Install),
                self.spec_source_dir() == old(self).spec_source_dir(),
                self.spec_dest_dir() == old(self).spec_dest_dir(),
            decreases 3 - self.spec_codes().len(),
        {
            let finished = self.is_finished();
            if finished {
                return Ok(());
            }
            match self.step() {
                Ok(u) => {},
                Err(e) => {
                    return Err(e);
                },
            }
        }
    }

    /// The terminal outcome, once the executor is finished; None while a
    /// phase is still pending.
    pub fn into_outcome(self) -> (r: Option<BuildOutcome>)
        ensures
            match self.spec_state() {
                PhaseState::Pending(p) => r is None,
                PhaseState::Success => r == Some(BuildOutcome::Success),
                PhaseState::Failed(rep) => r matches Some(o) && o matches BuildOutcome::Failed(
                    rep2,
                ) && rep2 == rep,
            },
    {
        match self.state {
            PhaseState::Pending(_) => None,
            PhaseState::Success => Some(BuildOutcome::Success),
            PhaseState::Failed(rep) => Some(BuildOutcome::Failed(rep)),
        }
    }
}

/// Fail-fast sequencing: if the setup phase exits non-zero, no later phase
/// ever runs, and the recorded failure names the setup phase with exactly
/// that exit code.
pub proof fn phase_sequencing(e: &PhaseExecutor)
    requires
        e.wf(),
        e.spec_codes().len() >= 1,
        e.spec_codes()[0] != 0,
    ensures
        e.spec_codes().len() == 1,
        e.spec_state() matches PhaseState::Failed(rep) && rep.phase == Phase::Setup
            && rep.exit_code == e.spec_codes()[0],
{
    match e.spec_state() {
        PhaseState::Pending(p) => {
            assert(e.spec_codes()[0] == 0);
        },
        PhaseState::Success => {
            assert(e.spec_codes()[0] == 0);
        },
        PhaseState::Failed(rep) => {
            assert(e.spec_codes().len() == 1);
        },
    }
}

} // verus!
