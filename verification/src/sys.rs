//! Descriptors of the system.

use crate::util::io::IOHandle;
use vstd::prelude::*;

verus! {

/// What has a descriptor of the system: a file descriptor, or a socket.
pub trait AsSysFd {
    /// The number of the descriptor.
    spec fn sys_fd(&self) -> u64;

    /// The number of the descriptor.
    fn as_sys_fd(&self) -> (fd: u64)
        ensures
            fd == self.sys_fd(),
    ;
}

impl AsSysFd for u64 {
    /// A raw descriptor is its own number.
    open spec fn sys_fd(&self) -> u64 {
        *self
    }

    fn as_sys_fd(&self) -> (fd: u64) {
        *self
    }
}

impl<'a, H: AsSysFd> AsSysFd for &'a H {
    open spec fn sys_fd(&self) -> u64 {
        (**self).sys_fd()
    }

    fn as_sys_fd(&self) -> (fd: u64) {
        (**self).as_sys_fd()
    }
}

impl<H: AsSysFd> AsSysFd for IOHandle<H> {
    open spec fn sys_fd(&self) -> u64 {
        self.inner().sys_fd()
    }

    fn as_sys_fd(&self) -> (fd: u64) {
        self.get_ref().as_sys_fd()
    }
}

} // verus!
