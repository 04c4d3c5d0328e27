//! The kernel calls that the crate asks for, and what comes back.
//!
//! The crate never calls the kernel. Every operation says which call it
//! needs next, or which readiness it waits for, and is told the outcome.

use vstd::prelude::*;
use crate::error::SctpError;

verus! {

/// One call into the kernel.
#[derive(Debug, Clone, PartialEq, Eq)]
pub enum Syscall {
    /// `socket(domain, ty, protocol)`.
    Socket { domain: i32, ty: i32, protocol: i32 },
    /// `fcntl(fd, cmd, arg)`.
    Fcntl { fd: i32, cmd: i32, arg: i32 },
    /// `setsockopt(fd, level, name, value)`.
    SetSockOpt { fd: i32, level: i32, name: i32, value: Vec<u8> },
    /// `getsockopt(fd, level, name, value)`, where `value` is the buffer as
    /// the kernel finds it and its length the length the kernel is told.
    GetSockOpt { fd: i32, level: i32, name: i32, value: Vec<u8> },
    /// `getsockopt(fd, level, name, param)`, where the parameter structure
    /// is `head` followed by a pointer to `addrs`.
    ConnectX { fd: i32, level: i32, name: i32, head: Vec<u8>, addrs: Vec<u8> },
    /// `listen(fd, backlog)`.
    Listen { fd: i32, backlog: i32 },
    /// `accept(fd, addr)`, with room for `addr_capacity` bytes of address.
    Accept { fd: i32, addr_capacity: usize },
    /// `shutdown(fd, how)`.
    Shutdown { fd: i32, how: i32 },
    /// `recvmsg(fd, msg, flags)`, with room for that many bytes of payload,
    /// of sender address and of control data.
    RecvMsg {
        fd: i32,
        payload_capacity: usize,
        name_capacity: usize,
        control_capacity: usize,
        flags: i32,
    },
    /// `sendmsg(fd, msg, flags)`, where the message has the destination
    /// `name` (empty for none), one buffer `payload`, and the control data
    /// `control` (empty for none).
    SendMsg { fd: i32, name: Vec<u8>, payload: Vec<u8>, control: Vec<u8>, flags: i32 },
    /// `close(fd)`.
    Close { fd: i32 },
}

/// What a [`Syscall`] is, with its buffers as sequences.
pub enum SyscallView {
    Socket { domain: i32, ty: i32, protocol: i32 },
    Fcntl { fd: i32, cmd: i32, arg: i32 },
    SetSockOpt { fd: i32, level: i32, name: i32, value: Seq<u8> },
    GetSockOpt { fd: i32, level: i32, name: i32, value: Seq<u8> },
    ConnectX { fd: i32, level: i32, name: i32, head: Seq<u8>, addrs: Seq<u8> },
    Listen { fd: i32, backlog: i32 },
    Accept { fd: i32, addr_capacity: usize },
    Shutdown { fd: i32, how: i32 },
    RecvMsg {
        fd: i32,
        payload_capacity: usize,
        name_capacity: usize,
        control_capacity: usize,
        flags: i32,
    },
    SendMsg { fd: i32, name: Seq<u8>, payload: Seq<u8>, control: Seq<u8>, flags: i32 },
    Close { fd: i32 },
}

impl View for Syscall {
    type V = SyscallView;

    open spec fn view(&self) -> SyscallView {
        match self {
            Syscall::Socket { domain, ty, protocol } => SyscallView::Socket {
                domain: *domain,
                ty: *ty,
                protocol: *protocol,
            },
            Syscall::Fcntl { fd, cmd, arg } => SyscallView::Fcntl {
                fd: *fd,
                cmd: *cmd,
                arg: *arg,
            },
            Syscall::SetSockOpt { fd, level, name, value } => SyscallView::SetSockOpt {
                fd: *fd,
                level: *level,
                name: *name,
                value: value@,
            },
            Syscall::GetSockOpt { fd, level, name, value } => SyscallView::GetSockOpt {
                fd: *fd,
                level: *level,
                name: *name,
                value: value@,
            },
            Syscall::ConnectX { fd, level, name, head, addrs } => SyscallView::ConnectX {
                fd: *fd,
                level: *level,
                name: *name,
                head: head@,
                addrs: addrs@,
            },
            Syscall::Listen { fd, backlog } => SyscallView::Listen { fd: *fd, backlog: *backlog },
            Syscall::Accept { fd, addr_capacity } => SyscallView::Accept {
                fd: *fd,
                addr_capacity: *addr_capacity,
            },
            Syscall::Shutdown { fd, how } => SyscallView::Shutdown { fd: *fd, how: *how },
            Syscall::RecvMsg {
                fd,
                payload_capacity,
                name_capacity,
                control_capacity,
                flags,
            } => SyscallView::RecvMsg {
                fd: *fd,
                payload_capacity: *payload_capacity,
                name_capacity: *name_capacity,
                control_capacity: *control_capacity,
                flags: *flags,
            },
            Syscall::SendMsg { fd, name, payload, control, flags } => SyscallView::SendMsg {
                fd: *fd,
                name: name@,
                payload: payload@,
                control: control@,
                flags: *flags,
            },
            Syscall::Close { fd } => SyscallView::Close { fd: *fd },
        }
    }
}

/// What came of a call, or of waiting for readiness.
#[derive(Debug, Clone, PartialEq, Eq)]
pub struct Outcome {
    /// The value that the call returned: negative for a failure. For a
    /// call that returns a count of bytes only the sign matters; the bytes
    /// are in `data`. For a wait: negative where waiting itself failed.
    pub ret: i32,
    /// The error code of the failure, where `ret` is negative.
    pub errno: i32,
    /// What the kernel wrote: the option value of `getsockopt`, the
    /// parameter structure of a connect, the peer address of `accept`, the
    /// payload of `recvmsg`; each cut to the length the kernel reported.
    pub data: Vec<u8>,
    /// The control data that `recvmsg` wrote, cut to the length the kernel
    /// reported.
    pub control: Vec<u8>,
    /// The message flags that `recvmsg` set.
    pub flags: u32,
}

impl Outcome {
    /// Whether the call failed.
    pub open spec fn spec_failed(&self) -> bool {
        self.ret < 0
    }

    /// The error of a failed call: the kernel's error code, as it is.
    pub open spec fn spec_error(&self) -> SctpError {
        SctpError::Os(self.errno)
    }

    /// What a call that returns nothing but success or failure came to: a
    /// negative return value is the kernel's error, anything else success.
    pub open spec fn spec_status(&self) -> Result<(), SctpError> {
        if self.ret < 0 {
            Err(SctpError::Os(self.errno))
        } else {
            Ok(())
        }
    }

    /// The outcome of a call that returned `ret` and wrote nothing, or of a
    /// wait that came to an end without failure (`ret` zero).
    pub fn returned(ret: i32) -> (outcome: Outcome)
        ensures
            outcome.ret == ret,
            outcome.errno == 0,
            outcome.data@ == Seq::<u8>::empty(),
            outcome.control@ == Seq::<u8>::empty(),
            outcome.flags == 0,
    {
        Outcome { ret, errno: 0, data: Vec::new(), control: Vec::new(), flags: 0 }
    }

    /// The outcome of a call or a wait that failed with the error code
    /// `errno`.
    pub fn failed(errno: i32) -> (outcome: Outcome)
        ensures
            outcome.ret == -1,
            outcome.errno == errno,
            outcome.data@ == Seq::<u8>::empty(),
            outcome.control@ == Seq::<u8>::empty(),
            outcome.flags == 0,
    {
        Outcome { ret: -1, errno, data: Vec::new(), control: Vec::new(), flags: 0 }
    }

    /// The outcome of a call that returned `ret` and wrote `data`.
    pub fn with_data(ret: i32, data: Vec<u8>) -> (outcome: Outcome)
        ensures
            outcome.ret == ret,
            outcome.errno == 0,
            outcome.data@ == data@,
            outcome.control@ == Seq::<u8>::empty(),
            outcome.flags == 0,
    {
        Outcome { ret, errno: 0, data, control: Vec::new(), flags: 0 }
    }

    /// The outcome of a `recvmsg` that received the payload `data` with the
    /// control data `control` and the message flags `flags`.
    pub fn message(data: Vec<u8>, control: Vec<u8>, flags: u32) -> (outcome: Outcome)
        ensures
            outcome.ret == 0,
            outcome.errno == 0,
            outcome.data@ == data@,
            outcome.control@ == control@,
            outcome.flags == flags,
    {
        Outcome { ret: 0, errno: 0, data, control, flags }
    }

    /// What a call that returns nothing but success or failure came to.
    pub fn status(&self) -> (r: Result<(), SctpError>)
        ensures
            r == self.spec_status(),
            self.ret < 0 ==> r is Err,
    {
        if self.ret < 0 {
            Err(SctpError::Os(self.errno))
        } else {
            Ok(())
        }
    }
}

/// What an operation needs next. The first three hold the operation as it
/// stands while it waits; the last holds what it came to.
#[derive(Debug)]
pub enum Step<S, T> {
    /// Make this call and hand its outcome to the operation.
    Call(S, Syscall),
    /// Wait until the descriptor is readable, then hand the outcome of
    /// the wait to the operation.
    AwaitReadable(S),
    /// Wait until the descriptor is writable, then hand the outcome of
    /// the wait to the operation.
    AwaitWritable(S),
    /// The operation is over.
    Done(Result<T, SctpError>),
}

} // verus!
