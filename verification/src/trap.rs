//! A scoped trap for handling signals synchronously.
//!
//! [`Trap::trap`] blocks a set of signals at the calling thread's mask
//! level and saves the prior mask. The caller then installs a no-op
//! handler for each trapped signal (an operation outside this
//! library's reach, performed through the OS `sigaction` call) and
//! records each saved disposition with [`Trap::record_install`]; the
//! guard keeps the saved dispositions in the order they were taken.
//! Once armed, pending trapped signals are consumed synchronously with
//! [`Trap::next`] or, with a deadline, through the [`TimedWait`]
//! session that [`Trap::wait`] opens. On release the caller restores
//! the saved dispositions in the recorded order ([`Trap::dispositions`])
//! and then the saved mask ([`Trap::restore_mask`]).

use vstd::arithmetic::div_mod::lemma_fundamental_div_mod;
use vstd::prelude::*;

use crate::os;
use crate::os::sigset_view;
use crate::os::OsError;
use crate::sig::Sig;
use crate::sig::MAX_SIGNAL_NUMBER;
use crate::sigset::SignalSet;

verus! {

/// How many consecutive interrupted attempts a blocking wait retries
/// before reporting the interruption itself. The bound exists so that
/// every loop in the library is provably bounded; it is far beyond
/// anything a running system can produce.
pub const INTERRUPT_RETRY_BOUND: u64 = 0xffff_ffff_ffff_ffff;

/// One saved signal disposition: the signal and the OS disposition it
/// had before the trap replaced it.
pub struct SavedDisposition {
    /// The signal whose disposition was saved.
    pub sig: Sig,
    /// The prior disposition, carried opaquely from save to restore.
    pub action: nix::sys::signal::SigAction,
}

/// A guard over a set of trapped signals: the blocked mask, the saved
/// prior mask, and the saved prior dispositions.
pub struct Trap {
    trapped: Vec<Sig>,
    set: SignalSet,
    osset: nix::sys::signal::SigSet,
    oldset: nix::sys::signal::SigSet,
    oldsigs: Vec<SavedDisposition>,
    released: bool,
}

impl Trap {
    /// The trapped signals, in the order given to [`Trap::trap`].
    pub closed spec fn spec_trapped(self) -> Seq<Sig> {
        self.trapped@
    }

    /// Membership: signal number `n` is trapped by this guard.
    pub closed spec fn traps(self, n: int) -> bool {
        self.set.has(n)
    }

    /// The saved dispositions, in the order they were recorded.
    pub closed spec fn spec_saved(self) -> Seq<SavedDisposition> {
        self.oldsigs@
    }

    /// The guard's mask has been restored; no further operation is
    /// legal.
    pub closed spec fn spec_released(self) -> bool {
        self.released
    }

    /// Every trapped signal's prior disposition has been recorded.
    pub open spec fn armed(self) -> bool {
        self.spec_saved().len() == self.spec_trapped().len()
    }

    /// Internal consistency: the bitmask set, the OS set and the
    /// trapped sequence all hold the same signals, and the saved
    /// dispositions line up with the trapped sequence.
    pub closed spec fn wf(self) -> bool {
        &&& self.set.wf()
        &&& forall|i: int| 0 <= i < self.trapped@.len() ==> (#[trigger] self.trapped@[i]).valid()
        &&& forall|n: int|
            self.set.has(n) <==> exists|i: int|
                0 <= i < self.trapped@.len() && #[trigger] self.trapped@[i].spec_number() == n
        &&& forall|n: int| #[trigger] sigset_view(self.osset).contains(n) <==> self.set.has(n)
        &&& self.oldsigs@.len() <= self.trapped@.len()
        &&& forall|i: int|
            0 <= i < self.oldsigs@.len() ==> (#[trigger] self.oldsigs@[i]).sig == self.trapped@[i]
    }

    /// Creates the trap for the given signals: blocks them all at the
    /// calling thread's mask level in one step, saving the prior mask.
    /// Signals not listed keep their asynchronous delivery. The guard
    /// starts with no dispositions recorded; it is armed once the
    /// caller has recorded one saved disposition per trapped signal,
    /// in order. An error means the OS refused the mask change, which
    /// leaves the process unchanged but is unrecoverable for a caller
    /// that needs the trap.
    pub fn trap(signals: &[Sig]) -> (r: Result<Trap, OsError>)
        requires
            forall|i: int| 0 <= i < signals@.len() ==> (#[trigger] signals@[i]).valid(),
        ensures
            r matches Ok(t) ==> {
                &&& t.wf()
                &&& !t.spec_released()
                &&& t.spec_trapped() == signals@
                &&& t.spec_saved() == Seq::<SavedDisposition>::empty()
                &&& forall|n: int|
                    t.traps(n) <==> exists|i: int|
                        0 <= i < signals@.len() && #[trigger] signals@[i].spec_number() == n
            },
    {
        let set = SignalSet::from_slice(signals);
        let mut osset = os::sigset_empty();
        let mut j: usize = 0;
        while j < signals.len()
            invariant
                j <= signals@.len(),
                forall|i: int| 0 <= i < signals@.len() ==> (#[trigger] signals@[i]).valid(),
                forall|n: int|
                    #[trigger] sigset_view(osset).contains(n) <==> exists|i: int|
                        0 <= i < j && #[trigger] signals@[i].spec_number() == n,
            decreases signals@.len() - j,
        {
            os::sigset_add(&mut osset, signals[j]);
            j = j + 1;
        }
        let oldset = match os::mask_block_swap(&osset) {
            Ok(old) => old,
            Err(e) => {
                return Err(e);
            },
        };
        let trapped = vstd::slice::slice_to_vec(signals);
        let t = Trap {
            trapped,
            set,
            osset,
            oldset,
            oldsigs: Vec::new(),
            released: false,
        };
        proof {
            assert forall|n: int| #[trigger] sigset_view(t.osset).contains(n) <==> t.set.has(
                n,
            ) by {}
            assert forall|n: int| t.set.has(n) implies exists|i: int|
                0 <= i < t.trapped@.len() && #[trigger] t.trapped@[i].spec_number() == n by {
                let i = choose|i: int|
                    0 <= i < signals@.len() && #[trigger] signals@[i].spec_number() == n;
                assert(t.trapped@[i].spec_number() == n);
            }
        }
        Ok(t)
    }

    /// The next signal whose prior disposition is still unrecorded:
    /// the caller saves the OS disposition for exactly this signal and
    /// hands it to [`Trap::record_install`]. `None` once the guard is
    /// armed.
    pub fn next_to_install(&self) -> (r: Option<Sig>)
        requires
            self.wf(),
        ensures
            r is Some <==> !self.armed(),
            r matches Some(g) ==> g == self.spec_trapped()[self.spec_saved().len() as int]
                && g.valid(),
    {
        if self.oldsigs.len() < self.trapped.len() {
            Some(self.trapped[self.oldsigs.len()])
        } else {
            None
        }
    }

    /// Records the saved prior disposition of the next trapped signal,
    /// in trap order.
    pub fn record_install(&mut self, action: nix::sys::signal::SigAction)
        requires
            old(self).wf(),
            !old(self).armed(),
            !old(self).spec_released(),
        ensures
            final(self).wf(),
            !final(self).spec_released(),
            final(self).spec_trapped() == old(self).spec_trapped(),
            forall|n: int| final(self).traps(n) == old(self).traps(n),
            final(self).spec_saved() == old(self).spec_saved().push(
                (SavedDisposition {
                    sig: old(self).spec_trapped()[old(self).spec_saved().len() as int],
                    action,
                }),
            ),
    {
        let sig = self.trapped[self.oldsigs.len()];
        self.oldsigs.push(SavedDisposition { sig, action });
        proof {
            assert forall|i: int|
                0 <= i < self.oldsigs@.len() implies (#[trigger] self.oldsigs@[i]).sig
                == self.trapped@[i] by {
                if i < self.oldsigs@.len() - 1 {
                    assert(self.oldsigs@[i] == old(self).oldsigs@[i]);
                }
            }
            assert forall|n: int| self.set.has(n) implies exists|i: int|
                0 <= i < self.trapped@.len() && #[trigger] self.trapped@[i].spec_number() == n by {
                let i = choose|i: int|
                    0 <= i < old(self).trapped@.len() && #[trigger] old(
                        self,
                    ).trapped@[i].spec_number() == n;
                assert(self.trapped@[i].spec_number() == n);
            }
        }
    }

    /// The saved dispositions, in the order they were recorded: the
    /// order in which the caller must restore them on release, before
    /// restoring the mask.
    pub fn dispositions(&self) -> (r: &Vec<SavedDisposition>)
        ensures
            r@ == self.spec_saved(),
    {
        &self.oldsigs
    }

    /// Blocks until a trapped signal is pending, consumes it and
    /// returns it; interrupted attempts are retried. Used as an
    /// iteration step this never ends the sequence on its own: an
    /// `Err` reports an OS failure that the caller must treat as
    /// fatal, never an end of iteration. The wait would block forever
    /// on an empty trapped set, so that case is excluded.
    pub fn next(&self) -> (r: Result<Sig, OsError>)
        requires
            self.wf(),
            !self.spec_released(),
            exists|n: int| self.traps(n),
        ensures
            r matches Ok(g) ==> g.valid() && self.traps(g.spec_number()),
    {
        let mut attempts: u64 = 0;
        while attempts < INTERRUPT_RETRY_BOUND
            invariant
                self.wf(),
                exists|n: int| self.traps(n),
            decreases INTERRUPT_RETRY_BOUND - attempts,
        {
            proof {
                let n = choose|n: int| self.traps(n);
                assert(sigset_view(self.osset).contains(n));
            }
            match os::sigset_wait(&self.osset) {
                Ok(number) => {
                    match Sig::from_number(number) {
                        Some(g) => {
                            return Ok(g);
                        },
                        None => {
                            proof {
                                assert(false);
                            }
                        },
                    }
                },
                Err(OsError::Interrupted) => {},
                Err(e) => {
                    return Err(e);
                },
            }
            attempts = attempts + 1;
        }
        Err(OsError::Interrupted)
    }

    /// Opens a timed-wait session over the trapped set with an
    /// absolute deadline in nanoseconds. A deadline, not a timeout:
    /// the remaining time is recomputed from it on every retry, so
    /// retries do not drift.
    pub fn wait(&self, deadline_ns: u64) -> (w: TimedWait)
        requires
            self.wf(),
        ensures
            w.spec_deadline() == deadline_ns as int,
            forall|n: int| w.traps(n) == self.traps(n),
    {
        TimedWait { deadline_ns, set: self.set }
    }

    /// Restores the thread's signal mask to the exact value saved when
    /// the trap was created. Called after the dispositions have been
    /// restored in their saved order. An error leaves the guard
    /// unreleased; the process's signal environment is then
    /// inconsistent and the condition is unrecoverable for the caller.
    pub fn restore_mask(&mut self) -> (r: Result<(), OsError>)
        requires
            old(self).wf(),
            !old(self).spec_released(),
        ensures
            final(self).wf(),
            final(self).spec_trapped() == old(self).spec_trapped(),
            final(self).spec_saved() == old(self).spec_saved(),
            forall|n: int| final(self).traps(n) == old(self).traps(n),
            final(self).spec_released() == (r is Ok),
    {
        let r = os::mask_set_restore(&self.oldset);
        match r {
            Ok(()) => {
                self.released = true;
            },
            Err(_) => {},
        }
        proof {
            assert forall|n: int| self.set.has(n) implies exists|i: int|
                0 <= i < self.trapped@.len() && #[trigger] self.trapped@[i].spec_number() == n by {
                let i = choose|i: int|
                    0 <= i < old(self).trapped@.len() && #[trigger] old(
                        self,
                    ).trapped@[i].spec_number() == n;
                assert(self.trapped@[i].spec_number() == n);
            }
        }
        r
    }
}

/// Restoring an armed trap touches exactly the trapped signals: the
/// saved dispositions cover every trapped signal, one each, in trap
/// order, so replaying them in that order puts every prior disposition
/// back.
pub proof fn lemma_armed_restore_covers_trapped(t: Trap)
    requires
        t.wf(),
        t.armed(),
    ensures
        t.spec_saved().len() == t.spec_trapped().len(),
        forall|i: int|
            0 <= i < t.spec_saved().len() ==> (#[trigger] t.spec_saved()[i]).sig
                == t.spec_trapped()[i],
        forall|i: int|
            0 <= i < t.spec_saved().len() ==> t.traps(
                (#[trigger] t.spec_saved()[i]).sig.spec_number(),
            ),
{
}

/// The time left until an absolute deadline: zero once the deadline
/// has passed.
pub open spec fn spec_remaining_ns(deadline_ns: int, now_ns: int) -> int {
    if now_ns >= deadline_ns {
        0
    } else {
        deadline_ns - now_ns
    }
}

/// A deadline in the past leaves no waiting time: whatever the
/// trapped set, the recomputed remaining time is exactly zero, so a
/// wait whose deadline has passed makes at most one more,
/// non-blocking attempt — no busy loop — before the empty-handed
/// outcome ends it (see [`TimedWait::step`]).
pub proof fn lemma_past_deadline_leaves_no_time(deadline_ns: int, now_ns: int)
    requires
        now_ns >= deadline_ns,
    ensures
        spec_remaining_ns(deadline_ns, now_ns) == 0,
{
}

/// A remaining-time value, split as the OS timed wait takes it.
#[derive(Clone, Copy, PartialEq, Eq, Structural, Debug)]
pub struct RemainingTime {
    /// Whole seconds.
    pub secs: u64,
    /// Nanoseconds below one second.
    pub nanos: u32,
}

/// What the OS timed wait produced: a delivered signal number, or a
/// failure.
#[derive(Clone, Copy, PartialEq, Eq, Structural, Debug)]
pub enum WaitOutcome {
    /// The wait returned this signal number.
    Delivered(i32),
    /// The wait failed.
    Failed(OsError),
}

/// The decision a timed-wait session takes on one outcome.
#[derive(Clone, Copy, PartialEq, Eq, Structural, Debug)]
pub enum WaitStep {
    /// A trapped signal was consumed: the wait returns it.
    Yield(Sig),
    /// The deadline elapsed with nothing pending: the wait returns
    /// empty-handed.
    TimedOut,
    /// The wait was interrupted by an unrelated signal: retry with a
    /// freshly recomputed remaining time.
    RetryWait,
    /// The OS reported a state that cannot be recovered from: the
    /// caller must terminate loudly rather than continue.
    Fatal,
}

/// One timed wait over a trapped set, against an absolute deadline in
/// nanoseconds.
#[derive(Clone, Copy)]
pub struct TimedWait {
    deadline_ns: u64,
    set: SignalSet,
}

impl TimedWait {
    /// The absolute deadline, in nanoseconds.
    pub closed spec fn spec_deadline(self) -> int {
        self.deadline_ns as int
    }

    /// Membership: signal number `n` is in the waited set.
    pub closed spec fn traps(self, n: int) -> bool {
        self.set.has(n)
    }

    /// The time still allowed at `now_ns`, split into seconds and
    /// nanoseconds: exactly the remaining time to the deadline, and
    /// exactly zero once the deadline has passed, so a wait past the
    /// deadline makes at most one more (non-blocking) attempt.
    pub fn timeout_args(&self, now_ns: u64) -> (r: RemainingTime)
        ensures
            r.secs * 1_000_000_000 + r.nanos == spec_remaining_ns(
                self.spec_deadline(),
                now_ns as int,
            ),
            r.nanos < 1_000_000_000,
    {
        if now_ns >= self.deadline_ns {
            RemainingTime { secs: 0, nanos: 0 }
        } else {
            let rem: u64 = self.deadline_ns - now_ns;
            let secs: u64 = rem / 1_000_000_000;
            let nanos: u64 = rem % 1_000_000_000;
            proof {
                lemma_fundamental_div_mod(rem as int, 1_000_000_000);
            }
            RemainingTime { secs, nanos: nanos as u32 }
        }
    }

    /// Classifies one outcome of the OS timed wait. A signal from the
    /// waited set is yielded; the no-signal-ready condition ends the
    /// wait empty-handed; an interruption asks for a retry; everything
    /// else — an unknown error, or a signal number the wait cannot
    /// have produced — is fatal.
    pub fn step(&self, outcome: WaitOutcome) -> (s: WaitStep)
        ensures
            match outcome {
                WaitOutcome::Delivered(n) => {
                    if 1 <= n <= MAX_SIGNAL_NUMBER && self.traps(n as int) {
                        s matches WaitStep::Yield(g) && g.spec_number() == n as int && g.valid()
                    } else {
                        s is Fatal
                    }
                },
                WaitOutcome::Failed(e) => {
                    match e {
                        OsError::Interrupted => s is RetryWait,
                        OsError::WouldBlock => s is TimedOut,
                        OsError::Code(_) => s is Fatal,
                    }
                },
            },
    {
        match outcome {
            WaitOutcome::Delivered(n) => {
                match Sig::from_number(n) {
                    Some(g) => {
                        if self.set.contains(g) {
                            WaitStep::Yield(g)
                        } else {
                            WaitStep::Fatal
                        }
                    },
                    None => WaitStep::Fatal,
                }
            },
            WaitOutcome::Failed(e) => {
                match e {
                    OsError::Interrupted => WaitStep::RetryWait,
                    OsError::WouldBlock => WaitStep::TimedOut,
                    OsError::Code(_) => WaitStep::Fatal,
                }
            },
        }
    }
}

} // verus!
