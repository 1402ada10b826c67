//! Crash-exec handling: a process-wide command line to `exec` into
//! when a fatal signal arrives, replacing the process image in place.
//!
//! [`set_command_line`] builds the configuration — program, argument
//! list, environment entries and the owning process id — fully off to
//! the side, as one owned value; the caller then installs it with a
//! single atomic swap of the process-wide reference, so a concurrently
//! running handler never observes a partially-built configuration.
//! [`set_handler`] produces the installation plan for a signal set:
//! which signals to block first (race avoidance), which handlers to
//! install and in what order, and when to unblock. The handler itself,
//! running in signal context, takes its one decision through
//! [`exec_decision`]: exec the configured image, or report a fatal
//! post-fork mismatch.

use vstd::prelude::*;

use crate::os;
use crate::sig::Sig;
use crate::sigset::SignalSet;

verus! {

/// No byte of the sequence is a NUL: the form the OS exec call
/// requires of a program path, an argument and an environment entry.
pub open spec fn nul_free(bytes: Seq<u8>) -> bool {
    forall|i: int| 0 <= i < bytes.len() ==> bytes[i] != 0u8
}

/// The byte of `=`, which joins an environment key to its value.
pub const EQUALS_BYTE: u8 = 61;

/// One environment entry as handed to the OS: `key`, `=`, `value`.
pub open spec fn env_entry(key: Seq<u8>, value: Seq<u8>) -> Seq<u8> {
    key + seq![EQUALS_BYTE] + value
}

/// True when the bytes hold no NUL; the executable check for
/// [`nul_free`].
pub fn check_nul_free(bytes: &[u8]) -> (r: bool)
    ensures
        r == nul_free(bytes@),
{
    let mut j: usize = 0;
    while j < bytes.len()
        invariant
            j <= bytes@.len(),
            forall|i: int| 0 <= i < j ==> bytes@[i] != 0u8,
        decreases bytes@.len() - j,
    {
        if bytes[j] == 0 {
            return false;
        }
        j = j + 1;
    }
    true
}

/// The process-wide crash-exec configuration: everything the handler
/// may read when a configured signal arrives. Built as one owned
/// value and swapped in atomically; read-only from then on.
pub struct CrashExecConfig {
    program: Vec<u8>,
    args: Vec<Vec<u8>>,
    env_entries: Vec<Vec<u8>>,
    owner_pid: i32,
}

impl CrashExecConfig {
    /// The program path.
    pub closed spec fn spec_program(self) -> Seq<u8> {
        self.program@
    }

    /// The argument list, in order.
    pub closed spec fn spec_args(self) -> Seq<Seq<u8>> {
        self.args.deep_view()
    }

    /// The environment entries, in order, each of the form
    /// `key=value`.
    pub closed spec fn spec_env_entries(self) -> Seq<Seq<u8>> {
        self.env_entries.deep_view()
    }

    /// The id of the process that installed the configuration.
    pub closed spec fn spec_owner_pid(self) -> int {
        self.owner_pid as int
    }

    /// Everything the handler needs holds: no string contains a NUL,
    /// and the owner pid is a real process id.
    pub open spec fn wf(self) -> bool {
        &&& nul_free(self.spec_program())
        &&& forall|i: int| 0 <= i < self.spec_args().len() ==> nul_free(#[trigger] self.spec_args()[i])
        &&& forall|i: int|
            0 <= i < self.spec_env_entries().len() ==> nul_free(
                #[trigger] self.spec_env_entries()[i],
            )
        &&& self.spec_owner_pid() >= 1
    }

    /// The program path bytes.
    pub fn program(&self) -> (r: &Vec<u8>)
        ensures
            r@ == self.spec_program(),
    {
        &self.program
    }

    /// The argument list.
    pub fn args(&self) -> (r: &Vec<Vec<u8>>)
        ensures
            r.deep_view() == self.spec_args(),
    {
        &self.args
    }

    /// The environment entries.
    pub fn env_entries(&self) -> (r: &Vec<Vec<u8>>)
        ensures
            r.deep_view() == self.spec_env_entries(),
    {
        &self.env_entries
    }

    /// The owning process id.
    pub fn owner_pid(&self) -> (r: i32)
        ensures
            r == self.spec_owner_pid(),
    {
        self.owner_pid
    }
}

/// Appends all of `src` to `dst`.
fn append_bytes(dst: &mut Vec<u8>, src: &Vec<u8>)
    ensures
        final(dst)@ == old(dst)@ + src@,
{
    let mut j: usize = 0;
    while j < src.len()
        invariant
            j <= src@.len(),
            dst@ == old(dst)@ + src@.subrange(0, j as int),
        decreases src@.len() - j,
    {
        dst.push(src[j]);
        proof {
            assert(dst@ == old(dst)@ + src@.subrange(0, j + 1));
        }
        j = j + 1;
    }
    proof {
        assert(src@.subrange(0, src@.len() as int) == src@);
    }
}

/// Builds the configuration to execute when a configured signal
/// arrives: the given program, the arguments verbatim and in order
/// (the first is conventionally the program name, not re-derived from
/// the path), the environment pairs joined as `key=value` entries in
/// order, passed verbatim with no merging of the ambient environment,
/// and the calling process's id as owner. The caller installs the
/// returned value with one atomic swap; superseding an installed
/// configuration releases the old one whole.
pub fn set_command_line(program: Vec<u8>, args: Vec<Vec<u8>>, environ: Vec<(Vec<u8>, Vec<u8>)>) -> (c:
    CrashExecConfig)
    requires
        nul_free(program@),
        forall|i: int| 0 <= i < args@.len() ==> nul_free(#[trigger] args@[i]@),
        forall|i: int|
            0 <= i < environ@.len() ==> nul_free(#[trigger] environ@[i].0@) && nul_free(
                environ@[i].1@,
            ),
    ensures
        c.wf(),
        c.spec_program() == program@,
        c.spec_args() == args.deep_view(),
        c.spec_env_entries().len() == environ@.len(),
        forall|i: int|
            0 <= i < environ@.len() ==> #[trigger] c.spec_env_entries()[i] == env_entry(
                environ@[i].0@,
                environ@[i].1@,
            ),
        c.spec_owner_pid() >= 1,
{
    let mut env_entries: Vec<Vec<u8>> = Vec::new();
    let mut j: usize = 0;
    while j < environ.len()
        invariant
            j <= environ@.len(),
            forall|i: int|
                0 <= i < environ@.len() ==> nul_free(#[trigger] environ@[i].0@) && nul_free(
                    environ@[i].1@,
                ),
            env_entries@.len() == j,
            forall|i: int|
                0 <= i < j ==> #[trigger] env_entries@[i]@ == env_entry(
                    environ@[i].0@,
                    environ@[i].1@,
                ),
        decreases environ@.len() - j,
    {
        let mut pair: Vec<u8> = Vec::new();
        append_bytes(&mut pair, &environ[j].0);
        pair.push(EQUALS_BYTE);
        append_bytes(&mut pair, &environ[j].1);
        proof {
            assert(pair@ == env_entry(environ@[j as int].0@, environ@[j as int].1@));
        }
        env_entries.push(pair);
        j = j + 1;
    }
    let owner_pid = os::current_pid();
    let c = CrashExecConfig { program, args, env_entries, owner_pid };
    proof {
        assert forall|i: int|
            0 <= i < environ@.len() implies #[trigger] c.spec_env_entries()[i] == env_entry(
            environ@[i].0@,
            environ@[i].1@,
        ) by {
            assert(c.spec_env_entries()[i] == env_entries@[i]@);
        }
        assert forall|i: int|
            0 <= i < c.spec_env_entries().len() implies nul_free(
            #[trigger] c.spec_env_entries()[i],
        ) by {
            assert(c.spec_env_entries()[i] == env_entry(environ@[i].0@, environ@[i].1@));
        }
    }
    c
}

/// The one decision the crash handler takes when a configured signal
/// arrives.
#[derive(Clone, Copy, PartialEq, Eq, Structural, Debug)]
pub enum ExecDecision {
    /// The configuration belongs to this process: replace the process
    /// image with the configured command line.
    Exec,
    /// The process was forked after the configuration was installed
    /// and never re-registered: acting on the inherited configuration
    /// is not safe, and the handler must report this fatally instead
    /// of exec-ing.
    ForkMismatch,
}

/// Decides, inside the handler, whether the configuration may be
/// acted on: exec only when the current process is the one that
/// installed it.
pub fn exec_decision(config: &CrashExecConfig, current_pid: i32) -> (d: ExecDecision)
    ensures
        d is Exec <==> current_pid == config.spec_owner_pid(),
        d is ForkMismatch <==> current_pid != config.spec_owner_pid(),
{
    if current_pid == config.owner_pid {
        ExecDecision::Exec
    } else {
        ExecDecision::ForkMismatch
    }
}

/// One step of an installation plan.
#[derive(Clone, Copy, PartialEq, Eq, Structural, Debug)]
pub enum PlanAction {
    /// Block the whole set at the mask level.
    Block(SignalSet),
    /// Install the crash-exec handler for one signal.
    Install(Sig),
    /// Unblock the whole set.
    Unblock(SignalSet),
}

/// The ordered steps that install the crash-exec handler over a
/// signal set.
pub struct InstallPlan {
    installs: Vec<Sig>,
    block: Option<SignalSet>,
}

impl InstallPlan {
    /// The signals whose handlers the plan installs, in order.
    pub closed spec fn spec_installs(self) -> Seq<Sig> {
        self.installs@
    }

    /// The set blocked for the duration of the installation, when
    /// race avoidance was asked for.
    pub closed spec fn spec_block(self) -> Option<SignalSet> {
        self.block
    }

    /// The plan as one ordered action sequence: the block step first
    /// if any, then every install in order, then the unblock step if
    /// any.
    pub open spec fn spec_actions(self) -> Seq<PlanAction> {
        let installs = Seq::new(
            self.spec_installs().len(),
            |i: int| PlanAction::Install(self.spec_installs()[i]),
        );
        match self.spec_block() {
            Some(b) => seq![PlanAction::Block(b)] + installs + seq![PlanAction::Unblock(b)],
            None => installs,
        }
    }

    /// The signals to install, in order.
    pub fn installs(&self) -> (r: &Vec<Sig>)
        ensures
            r@ == self.spec_installs(),
    {
        &self.installs
    }

    /// The set to block before the first install, if any.
    pub fn block_set(&self) -> (r: Option<SignalSet>)
        ensures
            r == self.spec_block(),
    {
        self.block
    }

    /// The set to unblock once every install step has been performed:
    /// present only when the plan blocked a set and every installation
    /// succeeded. After a failed installation the set stays blocked —
    /// the caller reports the failure instead.
    pub fn unblock_set(&self, install_ok: bool) -> (r: Option<SignalSet>)
        ensures
            r == (if install_ok {
                self.spec_block()
            } else {
                Option::<SignalSet>::None
            }),
    {
        if install_ok {
            self.block
        } else {
            None
        }
    }
}

/// Plans the installation of the crash-exec handler for every signal
/// of the set, in the order given. With `avoid_race_condition` the
/// plan first blocks the whole set at the mask level and unblocks it
/// only after every handler is installed, so no signal of the set can
/// reach a pre-existing disposition after the first handler is armed
/// but before the last one is; this protects only signals installed
/// in this one call. The caller performs the steps in plan order and
/// reports the first OS failure; handlers installed before a failure
/// stay installed.
pub fn set_handler(signals: &[Sig], avoid_race_condition: bool) -> (p: InstallPlan)
    requires
        forall|i: int| 0 <= i < signals@.len() ==> (#[trigger] signals@[i]).valid(),
    ensures
        p.spec_installs() == signals@,
        p.spec_block() is Some <==> avoid_race_condition,
        p.spec_block() matches Some(b) ==> b.wf() && forall|n: int|
            #[trigger] b.has(n) <==> exists|i: int|
                0 <= i < signals@.len() && #[trigger] signals@[i].spec_number() == n,
{
    let installs = vstd::slice::slice_to_vec(signals);
    if avoid_race_condition {
        let block = SignalSet::from_slice(signals);
        InstallPlan { installs, block: Some(block) }
    } else {
        InstallPlan { installs, block: None }
    }
}

/// Race avoidance leaves no unarmed window: in the plan for a signal
/// set with `avoid_race_condition` on, every install step stands
/// strictly between the block of the whole set and its unblock, and
/// the blocked set holds the signal of every install step — so at
/// every install, every signal of the set is still blocked.
pub proof fn lemma_no_unarmed_window(p: InstallPlan)
    requires
        p.spec_block() is Some,
        forall|i: int|
            0 <= i < p.spec_installs().len() ==> p.spec_block()->0.has(
                (#[trigger] p.spec_installs()[i]).spec_number(),
            ),
    ensures
        p.spec_actions().len() == p.spec_installs().len() + 2,
        p.spec_actions().first() == PlanAction::Block(p.spec_block()->0),
        p.spec_actions().last() == PlanAction::Unblock(p.spec_block()->0),
        forall|k: int|
            0 < k < p.spec_actions().len() - 1 ==> #[trigger] p.spec_actions()[k]
                == PlanAction::Install(p.spec_installs()[k - 1]) && p.spec_block()->0.has(
                p.spec_installs()[k - 1].spec_number(),
            ),
{
    let b = p.spec_block()->0;
    let installs = Seq::new(
        p.spec_installs().len(),
        |i: int| PlanAction::Install(p.spec_installs()[i]),
    );
    let actions = p.spec_actions();
    assert(actions == seq![PlanAction::Block(b)] + installs + seq![PlanAction::Unblock(b)]);
    assert forall|k: int|
        0 < k < actions.len() - 1 implies #[trigger] actions[k] == PlanAction::Install(
        p.spec_installs()[k - 1],
    ) && b.has(p.spec_installs()[k - 1].spec_number()) by {
        assert(actions[k] == installs[k - 1]);
    }
}

} // verus!
