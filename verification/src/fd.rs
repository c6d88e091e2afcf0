//! Ownership bookkeeping for raw OS file descriptors.
//!
//! A `FileDesc` records a raw descriptor number together with whether the
//! owner is expected to close it when it releases it. The kernel `close`
//! itself is performed by the embedding program; `release` is the verified
//! decision of whether that close is owed, and guarantees it is owed at
//! most once for the descriptor's lifetime.

use vstd::prelude::*;

verus! {

/// A raw OS file descriptor with an optional close-on-release obligation.
pub struct FileDesc {
    fd: i32,
    close_on_drop: bool,
    released: bool,
}

impl FileDesc {
    /// The raw descriptor number.
    pub closed spec fn fd_spec(&self) -> i32 {
        self.fd
    }

    /// Whether releasing this descriptor must close the underlying handle.
    pub closed spec fn closes_on_release(&self) -> bool {
        self.close_on_drop
    }

    /// Whether the descriptor has already been released.
    pub closed spec fn is_released(&self) -> bool {
        self.released
    }

    /// Wrap a raw descriptor. When `close_on_drop` is set, the owner owes
    /// the underlying handle exactly one close, collected through `release`.
    pub fn new(fd: i32, close_on_drop: bool) -> (r: FileDesc)
        ensures
            r.fd_spec() == fd,
            r.closes_on_release() == close_on_drop,
            !r.is_released(),
    {
        FileDesc { fd, close_on_drop, released: false }
    }

    /// The raw descriptor number, for handing to kernel calls.
    pub fn as_raw_fd(&self) -> (r: i32)
        ensures
            r == self.fd_spec(),
    {
        self.fd
    }

    /// Whether releasing this descriptor must close the underlying handle;
    /// a duplicate inherits this.
    pub fn close_on_drop(&self) -> (b: bool)
        ensures
            b == self.closes_on_release(),
    {
        self.close_on_drop
    }

    /// Transfer the raw handle out, disabling the close obligation: after
    /// `into_raw`, `release` never asks for a close. Used when the handle is
    /// handed to another owner, e.g. a spawned child's standard stream slot.
    pub fn into_raw(&mut self) -> (r: i32)
        ensures
            r == old(self).fd_spec(),
            final(self).fd_spec() == old(self).fd_spec(),
            !final(self).closes_on_release(),
            final(self).is_released() == old(self).is_released(),
    {
        self.close_on_drop = false;
        self.fd
    }

    /// Give the descriptor up. Returns whether the caller must now close the
    /// underlying handle: true exactly when a close obligation exists and no
    /// earlier `release` collected it, so the handle is never closed twice.
    pub fn release(&mut self) -> (close_now: bool)
        ensures
            final(self).is_released(),
            final(self).fd_spec() == old(self).fd_spec(),
            final(self).closes_on_release() == old(self).closes_on_release(),
            close_now == (old(self).closes_on_release() && !old(self).is_released()),
    {
        let close_now = self.close_on_drop && !self.released;
        self.released = true;
        close_now
    }
}

} // verus!
