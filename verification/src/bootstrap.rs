//! The one-time bootstrap state machine.
//!
//! One process-wide instance, guarded by a single mutex held for the whole
//! check-and-install sequence, records whether the shared server has been
//! installed, initialized, started and provisioned.  `installed` moves from
//! false to true exactly once; every later caller observes `true` and skips
//! straight to session creation.  A failed sequence leaves `installed`
//! false, so the next caller retries from the top.

use vstd::prelude::*;
use vstd::string::*;

use crate::session::{sentinel_identity, sentinel_identity_chars};

verus! {

/// The singleton bootstrap record: whether the shared server is ready, and
/// the session identity captured from its readiness announcement.
pub struct BootstrapState {
    installed: bool,
    system_session_id: String,
}

impl BootstrapState {
    /// The install sequence has completed successfully.
    pub closed spec fn is_installed(&self) -> bool {
        self.installed
    }

    /// The identity of the server's own startup session.
    pub closed spec fn system_id(&self) -> Seq<char> {
        self.system_session_id@
    }

    /// The fresh state: nothing installed, the system session unknown.
    pub fn new() -> (r: BootstrapState)
        ensures
            !r.is_installed(),
            r.system_id() == sentinel_identity_chars(),
    {
        BootstrapState { installed: false, system_session_id: sentinel_identity() }
    }

    /// Whether the caller holding the singleton's mutex must run the
    /// install sequence before using the server.
    pub fn needs_bootstrap(&self) -> (r: bool)
        ensures
            r == !self.is_installed(),
    {
        !self.installed
    }

    /// Record that the whole install sequence completed, capturing the
    /// readiness session identity.  From here on `installed` stays true.
    pub fn record_install_success(&mut self, system_session_id: String)
        requires
            !old(self).is_installed(),
        ensures
            final(self).is_installed(),
            final(self).system_id() == system_session_id@,
    {
        self.installed = true;
        self.system_session_id = system_session_id;
    }

    /// The system session identity, for reading the bootstrap session's
    /// log buffer.
    pub fn current_system_id(&self) -> (r: String)
        ensures
            r@ == self.system_id(),
    {
        self.system_session_id.clone()
    }
}

/// Whether the state is installed after a sequence of serialized
/// `ensure_ready` calls, where `outcomes[i]` says whether the install
/// sequence would succeed if the i-th call attempted it.  A call attempts
/// the sequence only when the state is not yet installed, and a successful
/// attempt installs it.
pub open spec fn installed_after_calls(installed: bool, outcomes: Seq<bool>) -> bool
    decreases outcomes.len(),
{
    if outcomes.len() == 0 {
        installed
    } else {
        installed_after_calls(installed, outcomes.drop_last()) || outcomes.last()
    }
}

/// How many of the serialized calls actually ran the install sequence.
pub open spec fn installs_attempted(installed: bool, outcomes: Seq<bool>) -> nat
    decreases outcomes.len(),
{
    if outcomes.len() == 0 {
        0
    } else {
        installs_attempted(installed, outcomes.drop_last()) + if installed_after_calls(
            installed,
            outcomes.drop_last(),
        ) {
            0 as nat
        } else {
            1 as nat
        }
    }
}

/// Bootstrap is idempotent: over any number of serialized `ensure_ready`
/// calls whose install sequences all succeed, starting from the fresh
/// state, the sequence is run exactly once, and every call returns with
/// the state installed.
pub proof fn lemma_bootstrap_idempotent(outcomes: Seq<bool>)
    requires
        outcomes.len() >= 1,
        forall|i: int| 0 <= i < outcomes.len() ==> outcomes[i],
    ensures
        installs_attempted(false, outcomes) == 1,
        installed_after_calls(false, outcomes),
    decreases outcomes.len(),
{
    if outcomes.len() == 1 {
        assert(installs_attempted(false, outcomes.drop_last()) == 0);
        assert(!installed_after_calls(false, outcomes.drop_last()));
        assert(outcomes.last());
    } else {
        assert forall|i: int| 0 <= i < outcomes.drop_last().len() implies outcomes.drop_last()[i] by {
            assert(outcomes.drop_last()[i] == outcomes[i]);
        }
        lemma_bootstrap_idempotent(outcomes.drop_last());
    }
}

/// A failed sequence leaves the state uninstalled, so calls retry until
/// one succeeds: the sequence completes successfully exactly once when any
/// call's attempt succeeds, and never when none does.
pub proof fn lemma_bootstrap_retries_until_success(outcomes: Seq<bool>)
    ensures
        installed_after_calls(false, outcomes) == exists|i: int|
            0 <= i < outcomes.len() && outcomes[i],
    decreases outcomes.len(),
{
    if outcomes.len() > 0 {
        lemma_bootstrap_retries_until_success(outcomes.drop_last());
        if installed_after_calls(false, outcomes) {
            if installed_after_calls(false, outcomes.drop_last()) {
                let i = choose|i: int|
                    0 <= i < outcomes.drop_last().len() && outcomes.drop_last()[i];
                assert(outcomes[i] == outcomes.drop_last()[i]);
                assert(0 <= i < outcomes.len() && outcomes[i]);
            } else {
                assert(outcomes[outcomes.len() - 1]);
            }
        } else {
            assert forall|i: int| 0 <= i < outcomes.len() implies !outcomes[i] by {
                if i < outcomes.len() - 1 {
                    assert(outcomes.drop_last()[i] == outcomes[i]);
                }
            }
        }
    }
}

} // verus!
