//! The client's lifecycle: Running, then Terminated, never back.
//!
//! A client binds a peer descriptor to a pty master, puts the peer into
//! raw mode, and starts the pump workers. `ClientState` is the record of
//! what the client still owes on teardown: whether the shared shutdown
//! flag has been raised, whether the peer's original terminal parameters
//! are still to be restored, and which of the two owned descriptors are
//! still open. Termination settles every debt exactly once: it raises the
//! flag, restores the peer, and closes master and peer, after which
//! neither descriptor remains open.

use vstd::prelude::*;

verus! {

/// Where the client stands in its lifecycle.
#[derive(Debug, Clone, Copy, PartialEq, Eq, Structural)]
pub enum ClientPhase {
    /// Pump workers are relaying; the client owns master and peer.
    Running,
    /// Torn down: flag raised, peer restored, both descriptors closed.
    Terminated,
}

/// What teardown asks of the embedding program, besides raising the
/// shared shutdown flag: restore the peer's terminal parameters
/// (best-effort, failures swallowed) and close the descriptors whose
/// close obligation is still open.
#[derive(Debug, Clone, Copy, PartialEq, Eq, Structural)]
pub struct TeardownActions {
    pub restore_peer: bool,
    pub close_master: bool,
    pub close_peer: bool,
}

/// The client's teardown ledger.
pub struct ClientState {
    phase: ClientPhase,
    shutdown: bool,
    master_open: bool,
    peer_open: bool,
    peer_restored: bool,
}

impl ClientState {
    /// The lifecycle phase.
    pub closed spec fn phase(&self) -> ClientPhase {
        self.phase
    }

    /// Whether the client has raised the shared shutdown flag.
    pub closed spec fn shutdown_set(&self) -> bool {
        self.shutdown
    }

    /// Whether the client still holds the master open.
    pub closed spec fn master_open(&self) -> bool {
        self.master_open
    }

    /// Whether the client still holds the peer open.
    pub closed spec fn peer_open(&self) -> bool {
        self.peer_open
    }

    /// Whether the peer's original terminal parameters were restored.
    pub closed spec fn peer_restored(&self) -> bool {
        self.peer_restored
    }

    /// A terminated client owes nothing: the flag is raised, the peer is
    /// restored, and neither descriptor remains open.
    pub open spec fn wf(&self) -> bool {
        self.phase() is Terminated ==> (self.shutdown_set() && !self.master_open()
            && !self.peer_open() && self.peer_restored())
    }

    /// Enter the Running phase, after setup (peer snapshot, raw mode,
    /// relay pipes, pump workers) has succeeded: the client now owns both
    /// descriptors, owes the peer a restore, and has not raised the flag.
    pub fn bind() -> (st: ClientState)
        ensures
            st.wf(),
            st.phase() is Running,
            !st.shutdown_set(),
            st.master_open(),
            st.peer_open(),
            !st.peer_restored(),
    {
        ClientState {
            phase: ClientPhase::Running,
            shutdown: false,
            master_open: true,
            peer_open: true,
            peer_restored: false,
        }
    }

    /// Record that the shared shutdown flag has been raised. The flag is
    /// monotonic: raising it again changes nothing, and nothing ever
    /// clears it.
    pub fn mark_shutdown(&mut self)
        requires
            old(self).wf(),
        ensures
            final(self).wf(),
            final(self).shutdown_set(),
            final(self).phase() == old(self).phase(),
            final(self).master_open() == old(self).master_open(),
            final(self).peer_open() == old(self).peer_open(),
            final(self).peer_restored() == old(self).peer_restored(),
    {
        self.shutdown = true;
    }

    /// Tear the client down, exactly once: raise the shutdown flag, and
    /// tell the caller which debts to settle — restore the peer unless
    /// already restored, and close each descriptor that is still open.
    /// Afterwards the client is Terminated and neither master nor peer
    /// remains open.
    pub fn terminate(&mut self) -> (acts: TeardownActions)
        requires
            old(self).wf(),
            old(self).phase() is Running,
        ensures
            final(self).wf(),
            final(self).phase() is Terminated,
            final(self).shutdown_set(),
            !final(self).master_open(),
            !final(self).peer_open(),
            final(self).peer_restored(),
            acts.restore_peer == !old(self).peer_restored(),
            acts.close_master == old(self).master_open(),
            acts.close_peer == old(self).peer_open(),
    {
        let acts = TeardownActions {
            restore_peer: !self.peer_restored,
            close_master: self.master_open,
            close_peer: self.peer_open,
        };
        self.phase = ClientPhase::Terminated;
        self.shutdown = true;
        self.master_open = false;
        self.peer_open = false;
        self.peer_restored = true;
        acts
    }
}

} // verus!
