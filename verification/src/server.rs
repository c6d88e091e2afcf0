//! The pty server: owner of the master/slave pair and of the slave's
//! single hand-off to a spawned process.
//!
//! The server keeps the master descriptor and the slave device path for
//! its whole lifetime. The slave descriptor is consumed exactly once:
//! either taken out by hand, or claimed on behalf of a spawn, which binds
//! independent duplicates of it to the child's standard streams and then
//! drops the server's own copy so end-of-file can reach the proxy. A
//! second claim finds no slave and fails.

use vstd::prelude::*;

use crate::fd::FileDesc;

verus! {

/// Why a spawn request was refused.
#[derive(Debug, Clone, Copy, PartialEq, Eq, Structural)]
pub enum SpawnError {
    /// The slave descriptor was already consumed by an earlier spawn or
    /// taken out by hand.
    NoSlave,
}

impl SpawnError {
    /// A human-readable description of the error.
    pub fn message(&self) -> (m: &'static str)
        ensures
            m@ == "No TTY slave"@,
    {
        "No TTY slave"
    }
}

/// A pty pair bound to a slave device path, ready to attach a process.
pub struct TtyServer {
    master: FileDesc,
    slave: Option<FileDesc>,
    path: String,
}

impl TtyServer {
    /// The master descriptor.
    pub closed spec fn master_spec(&self) -> FileDesc {
        self.master
    }

    /// The slave descriptor, while the server still holds it.
    pub closed spec fn slave_spec(&self) -> Option<FileDesc> {
        self.slave
    }

    /// The slave device path.
    pub closed spec fn path_spec(&self) -> Seq<char> {
        self.path@
    }

    /// Assemble a server from a freshly allocated pty pair and its slave
    /// device path. The path stays stable for the server's lifetime.
    pub fn from_pty(master: FileDesc, slave: FileDesc, path: String) -> (s: TtyServer)
        ensures
            s.master_spec() == master,
            s.slave_spec() == Some(slave),
            s.path_spec() == path@,
    {
        TtyServer { master, slave: Some(slave), path }
    }

    /// The master descriptor's raw handle, for binding into a client.
    /// The caller does not take ownership.
    pub fn get_master(&self) -> (fd: i32)
        ensures
            fd == self.master_spec().fd_spec(),
    {
        self.master.as_raw_fd()
    }

    /// The slave device path.
    pub fn path(&self) -> (p: &str)
        ensures
            p@ == self.path_spec(),
    {
        self.path.as_str()
    }

    /// Take the slave descriptor out, to pass it to a process by hand.
    /// Afterwards the server holds no slave and spawning fails.
    pub fn take_slave(&mut self) -> (r: Option<FileDesc>)
        ensures
            r == old(self).slave_spec(),
            final(self).slave_spec() is None,
            final(self).master_spec() == old(self).master_spec(),
            final(self).path_spec() == old(self).path_spec(),
    {
        self.slave.take()
    }

    /// Claim the slave descriptor on behalf of a spawn: succeeds with the
    /// slave exactly when the server still holds it, and fails with
    /// `NoSlave` exactly when an earlier claim or `take_slave` consumed it.
    /// Either way the server holds no slave afterwards.
    pub fn claim_slave(&mut self) -> (r: Result<FileDesc, SpawnError>)
        ensures
            final(self).slave_spec() is None,
            final(self).master_spec() == old(self).master_spec(),
            final(self).path_spec() == old(self).path_spec(),
            match r {
                Ok(s) => old(self).slave_spec() == Some(s),
                Err(e) => old(self).slave_spec() is None && e == SpawnError::NoSlave,
            },
    {
        match self.slave.take() {
            Some(s) => Ok(s),
            None => Err(SpawnError::NoSlave),
        }
    }
}

} // verus!
