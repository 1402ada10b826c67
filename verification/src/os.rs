//! The OS boundary: declarations of the outside signal types and thin
//! trusted wrappers around the safe `nix` calls that the verified
//! logic drives. Each wrapper's contract states what the underlying
//! call is documented to do; nothing else in the crate is trusted.

use vstd::prelude::*;

use crate::sig::Sig;
use crate::sig::MAX_SIGNAL_NUMBER;

verus! {

/// The OS signal-set object (`sigset_t`). Opaque to the verifier; its
/// contents are tracked through [`sigset_view`].
#[verifier::external_type_specification]
#[verifier::external_body]
pub struct ExSigSet(nix::sys::signal::SigSet);

/// A saved signal disposition (`struct sigaction`). Opaque: the
/// library only carries such values from save to restore.
#[verifier::external_type_specification]
#[verifier::external_body]
pub struct ExSigAction(nix::sys::signal::SigAction);

/// The set of signal numbers an OS signal-set object holds.
pub uninterp spec fn sigset_view(s: nix::sys::signal::SigSet) -> Set<int>;

/// An OS-level failure, as the blocking and mask calls report it.
#[derive(Clone, Copy, PartialEq, Eq, Structural, Debug)]
pub enum OsError {
    /// The call was interrupted by an unrelated signal (`EINTR`);
    /// recoverable by retrying.
    Interrupted,
    /// Nothing was ready within the allowed time (`EAGAIN`); the
    /// normal timeout outcome of a timed wait.
    WouldBlock,
    /// Any other error, by its OS error number. The callers of this
    /// library treat it as fatal: the signal environment is no longer
    /// trustworthy.
    Code(i32),
}

/// Relies on nix's `SigSet::empty` (`sigemptyset`): builds a signal
/// set holding no signals.
#[verifier::external_body]
pub(crate) fn sigset_empty() -> (r: nix::sys::signal::SigSet)
    ensures
        sigset_view(r) == Set::<int>::empty(),
{
    nix::sys::signal::SigSet::empty()
}

/// Relies on nix's `SigSet::add` (`sigaddset`): inserts one signal
/// into the set and changes nothing else. Numbers `1..=31` are the
/// standard Linux signals, exactly the range nix's `Signal` covers,
/// so the conversion cannot fail.
#[verifier::external_body]
pub(crate) fn sigset_add(set: &mut nix::sys::signal::SigSet, sig: Sig)
    requires
        sig.valid(),
    ensures
        sigset_view(*final(set)) == sigset_view(*old(set)).insert(sig.spec_number()),
{
    let signal = nix::sys::signal::Signal::try_from(sig.number()).unwrap();
    set.add(signal);
}

/// Relies on nix's `SigSet::thread_swap_mask` with `SIG_BLOCK`
/// (`pthread_sigmask`): adds the given signals to the calling
/// thread's mask and returns the mask as it was before the call. The
/// returned value depends on ambient thread state, so nothing is
/// stated of it; the library only carries it back to
/// [`mask_set_restore`].
#[verifier::external_body]
pub(crate) fn mask_block_swap(set: &nix::sys::signal::SigSet) -> (r: Result<
    nix::sys::signal::SigSet,
    OsError,
>) {
    match set.thread_swap_mask(nix::sys::signal::SigmaskHow::SIG_BLOCK) {
        Ok(old) => Ok(old),
        Err(nix::errno::Errno::EINTR) => Err(OsError::Interrupted),
        Err(nix::errno::Errno::EAGAIN) => Err(OsError::WouldBlock),
        Err(e) => Err(OsError::Code(e as i32)),
    }
}

/// Relies on nix's `SigSet::thread_set_mask` with `SIG_SETMASK`
/// (`pthread_sigmask`): installs the given set as the calling
/// thread's whole signal mask.
#[verifier::external_body]
pub(crate) fn mask_set_restore(set: &nix::sys::signal::SigSet) -> (r: Result<(), OsError>) {
    match set.thread_set_mask() {
        Ok(()) => Ok(()),
        Err(nix::errno::Errno::EINTR) => Err(OsError::Interrupted),
        Err(nix::errno::Errno::EAGAIN) => Err(OsError::WouldBlock),
        Err(e) => Err(OsError::Code(e as i32)),
    }
}

/// Relies on nix's `SigSet::wait` (`sigwait`): blocks until one of
/// the set's signals is pending, consumes it and returns its number.
/// `sigwait` selects only from the given set, and with every member
/// in the standard range the number converts back losslessly. The
/// wait blocks forever on an empty set, so that input is excluded.
#[verifier::external_body]
pub(crate) fn sigset_wait(set: &nix::sys::signal::SigSet) -> (r: Result<i32, OsError>)
    requires
        exists|n: int| sigset_view(*set).contains(n),
        forall|n: int| sigset_view(*set).contains(n) ==> 1 <= n <= MAX_SIGNAL_NUMBER as int,
    ensures
        r is Ok ==> 1 <= r->Ok_0 <= MAX_SIGNAL_NUMBER && sigset_view(*set).contains(r->Ok_0 as int),
{
    match set.wait() {
        Ok(signal) => Ok(signal as i32),
        Err(nix::errno::Errno::EINTR) => Err(OsError::Interrupted),
        Err(nix::errno::Errno::EAGAIN) => Err(OsError::WouldBlock),
        Err(e) => Err(OsError::Code(e as i32)),
    }
}

/// Relies on nix's `getpid` (`getpid(2)`): returns the calling
/// process's id. The call cannot fail, and a process id is a positive
/// number.
#[verifier::external_body]
pub(crate) fn current_pid() -> (r: i32)
    ensures
        r >= 1,
{
    nix::unistd::getpid().as_raw()
}

} // verus!
