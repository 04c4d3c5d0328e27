//! The operations that make a socket or turn one kind of socket into
//! another.
//!
//! An operation that takes a socket over and fails closes the descriptor
//! before it reports the failure, so that no descriptor is left without an
//! owner.

use vstd::prelude::*;
use crate::addr::{decode_addr, encode_addrs, spec_decode_addr, spec_encode_addrs, SockAddr};
use crate::bytes::{bytes_le_i32, le_i32, push_le_i32, read_le_i32};
use crate::connected_socket::ConnectedSocket;
use crate::consts::{
    ECONNREFUSED, EINPROGRESS, EINVAL, EWOULDBLOCK, F_GETFL, F_SETFL, IPPROTO_SCTP, O_NONBLOCK,
    SCTP_SOCKOPT_CONNECTX3, SCTP_SOCKOPT_PEELOFF, SCTP_STATUS, SOCK_SEQPACKET, SOCK_STREAM,
    SOL_SCTP,
};
use crate::error::SctpError;
use crate::listener::Listener;
use crate::socket::SctpSocket;
use crate::syscall::{Outcome, Step, Syscall, SyscallView};
use crate::types::{AssociationId, SocketToAssociation};
use crate::wire::{query_buffer, spec_query_buffer, PeeloffArg, STATUS_LEN};

verus! {

/// Room for the peer's address that `accept` returns.
pub const ACCEPT_ADDR_LEN: usize = 32;

/// The call that reads the status flags of a descriptor.
pub open spec fn spec_get_flags(fd: i32) -> SyscallView {
    SyscallView::Fcntl { fd, cmd: F_GETFL, arg: 0 }
}

/// The call that writes `flags` back to a descriptor with the flag for
/// non-blocking mode added.
pub open spec fn spec_set_non_blocking(fd: i32, flags: i32) -> SyscallView {
    SyscallView::Fcntl { fd, cmd: F_SETFL, arg: flags | O_NONBLOCK }
}

/// The call that closes a descriptor.
pub open spec fn spec_close(fd: i32) -> SyscallView {
    SyscallView::Close { fd }
}

/// The call that reads the status flags of a descriptor: the first half of
/// putting it into non-blocking mode.
pub fn get_fd_flags(fd: i32) -> (call: Syscall)
    ensures
        call@ == spec_get_flags(fd),
{
    Syscall::Fcntl { fd, cmd: F_GETFL, arg: 0 }
}

/// The call that puts a descriptor into non-blocking mode, given the
/// status flags that it has.
pub fn set_fd_non_blocking(fd: i32, flags: i32) -> (call: Syscall)
    ensures
        call@ == spec_set_non_blocking(fd, flags),
{
    Syscall::Fcntl { fd, cmd: F_SETFL, arg: flags | O_NONBLOCK }
}

/// The call that closes a descriptor.
pub fn close_internal(fd: i32) -> (call: Syscall)
    ensures
        call@ == spec_close(fd),
{
    Syscall::Close { fd }
}

/// The socket type of a kind of socket: a stream for one association, a
/// sequence of packets for many.
pub open spec fn spec_socket_type(assoc: SocketToAssociation) -> i32 {
    match assoc {
        SocketToAssociation::OneToOne => SOCK_STREAM,
        SocketToAssociation::OneToMany => SOCK_SEQPACKET,
    }
}

/// The operation that opens a socket.
#[derive(Debug, Clone, Copy, PartialEq, Eq)]
pub enum OpenOp {
    /// Waits for the outcome of `socket`.
    Creating { assoc: SocketToAssociation },
    /// Waits for the status flags of the new descriptor.
    ReadingFlags { fd: i32, assoc: SocketToAssociation },
    /// Waits for the outcome of putting it into non-blocking mode.
    WritingFlags { fd: i32, assoc: SocketToAssociation },
    /// Waits for the descriptor to be closed after a failure.
    Closing { error: SctpError },
}

impl OpenOp {
    /// Whether `next` is the step that follows when the operation is handed
    /// `outcome`.
    ///
    /// A socket that could not be made is the kernel's error. A new
    /// descriptor is put into non-blocking mode at once, in two calls; where
    /// one of them fails the descriptor is closed and the failure reported.
    /// Else the result is the socket that owns the descriptor.
    pub open spec fn spec_step(self, outcome: Outcome, next: Step<OpenOp, SctpSocket>) -> bool {
        match self {
            OpenOp::Creating { assoc } => if outcome.ret < 0 {
                next == Step::<OpenOp, SctpSocket>::Done(Err(SctpError::Os(outcome.errno)))
            } else {
                next matches Step::Call(op, call) && op == (OpenOp::ReadingFlags {
                    fd: outcome.ret,
                    assoc,
                }) && call@ == spec_get_flags(outcome.ret)
            },
            OpenOp::ReadingFlags { fd, assoc } => if outcome.ret < 0 {
                next matches Step::Call(op, call) && op == (OpenOp::Closing {
                    error: SctpError::Os(outcome.errno),
                }) && call@ == spec_close(fd)
            } else {
                next matches Step::Call(op, call) && op == (OpenOp::WritingFlags { fd, assoc })
                    && call@ == spec_set_non_blocking(fd, outcome.ret)
            },
            OpenOp::WritingFlags { fd, assoc } => if outcome.ret < 0 {
                next matches Step::Call(op, call) && op == (OpenOp::Closing {
                    error: SctpError::Os(outcome.errno),
                }) && call@ == spec_close(fd)
            } else {
                next matches Step::Done(Ok(socket)) && socket.spec_fd() == fd
                    && socket.spec_assoc() == assoc
            },
            OpenOp::Closing { error } => next == Step::<OpenOp, SctpSocket>::Done(Err(error)),
        }
    }

    /// Takes the outcome of the call and returns the step that follows.
    pub fn step(self, outcome: Outcome) -> (next: Step<OpenOp, SctpSocket>)
        ensures
            self.spec_step(outcome, next),
    {
        match self {
            OpenOp::Creating { assoc } => {
                if outcome.ret < 0 {
                    Step::Done(Err(SctpError::Os(outcome.errno)))
                } else {
                    let fd: i32 = outcome.ret;
                    Step::Call(OpenOp::ReadingFlags { fd, assoc }, get_fd_flags(fd))
                }
            },
            OpenOp::ReadingFlags { fd, assoc } => {
                if outcome.ret < 0 {
                    Step::Call(
                        OpenOp::Closing { error: SctpError::Os(outcome.errno) },
                        close_internal(fd),
                    )
                } else {
                    Step::Call(
                        OpenOp::WritingFlags { fd, assoc },
                        set_fd_non_blocking(fd, outcome.ret),
                    )
                }
            },
            OpenOp::WritingFlags { fd, assoc } => {
                if outcome.ret < 0 {
                    Step::Call(
                        OpenOp::Closing { error: SctpError::Os(outcome.errno) },
                        close_internal(fd),
                    )
                } else {
                    Step::Done(Ok(SctpSocket::from_rawfd(fd, assoc)))
                }
            },
            OpenOp::Closing { error } => Step::Done(Err(error)),
        }
    }
}

/// Opens a socket of the SCTP protocol in the address family `domain`: a
/// stream socket for one association, a socket of sequenced packets for
/// many.
pub fn sctp_socket_internal(domain: i32, assoc: SocketToAssociation) -> (first: Step<
    OpenOp,
    SctpSocket,
>)
    ensures
        first matches Step::Call(op, call) && op == (OpenOp::Creating { assoc }) && call@ == (
        SyscallView::Socket { domain, ty: spec_socket_type(assoc), protocol: IPPROTO_SCTP }),
{
    let ty: i32 = match assoc {
        SocketToAssociation::OneToOne => SOCK_STREAM,
        SocketToAssociation::OneToMany => SOCK_SEQPACKET,
    };
    Step::Call(OpenOp::Creating { assoc }, Syscall::Socket { domain, ty, protocol: IPPROTO_SCTP })
}

/// The operation that turns a socket into a listening socket.
#[derive(Debug, Clone, Copy, PartialEq, Eq)]
pub enum ListenOp {
    /// Waits for the outcome of `listen`.
    Listening { fd: i32, assoc: SocketToAssociation },
    /// Waits for the descriptor to be closed after a failure.
    Closing { error: SctpError },
}

impl ListenOp {
    /// Whether `next` is the step that follows when the operation is handed
    /// `outcome`.
    ///
    /// On success the result is the listening socket that owns the
    /// descriptor; on failure the descriptor is closed and the kernel's
    /// error reported.
    pub open spec fn spec_step(self, outcome: Outcome, next: Step<ListenOp, Listener>) -> bool {
        match self {
            ListenOp::Listening { fd, assoc } => if outcome.ret < 0 {
                next matches Step::Call(op, call) && op == (ListenOp::Closing {
                    error: SctpError::Os(outcome.errno),
                }) && call@ == spec_close(fd)
            } else {
                next matches Step::Done(Ok(listener)) && listener.spec_fd() == fd
                    && listener.spec_assoc() == assoc
            },
            ListenOp::Closing { error } => next == Step::<ListenOp, Listener>::Done(
                Err(error),
            ),
        }
    }

    /// Takes the outcome of the call and returns the step that follows.
    pub fn step(self, outcome: Outcome) -> (next: Step<ListenOp, Listener>)
        ensures
            self.spec_step(outcome, next),
    {
        match self {
            ListenOp::Listening { fd, assoc } => {
                if outcome.ret < 0 {
                    Step::Call(
                        ListenOp::Closing { error: SctpError::Os(outcome.errno) },
                        close_internal(fd),
                    )
                } else {
                    Step::Done(Ok(Listener::from_rawfd(fd, assoc)))
                }
            },
            ListenOp::Closing { error } => Step::Done(Err(error)),
        }
    }
}

/// Makes a socket listen with a queue of `backlog` connections.
pub fn sctp_listen_internal(fd: i32, assoc: SocketToAssociation, backlog: i32) -> (first: Step<
    ListenOp,
    Listener,
>)
    ensures
        first matches Step::Call(op, call) && op == (ListenOp::Listening { fd, assoc }) && call@
            == (SyscallView::Listen { fd, backlog }),
{
    Step::Call(ListenOp::Listening { fd, assoc }, Syscall::Listen { fd, backlog })
}

/// The operation that connects a socket to a peer.
#[derive(Debug, Clone, Copy, PartialEq, Eq)]
pub enum ConnectOp {
    /// Waits for the outcome of the connect option.
    Connecting { fd: i32 },
    /// Waits until the descriptor is writable.
    Waiting { fd: i32, assoc_id: AssociationId },
    /// Waits for the status of the association.
    Checking { fd: i32, assoc_id: AssociationId },
    /// Waits for the descriptor to be closed after a failure.
    Closing { error: SctpError },
}

/// The error of a status that could not be read after a connection
/// attempt: "invalid argument" means that the association was never
/// established, and is reported as a refused connection; every other
/// error is the kernel's own.
pub open spec fn spec_connect_error(errno: i32) -> SctpError {
    if errno == EINVAL {
        SctpError::ConnectionRefused
    } else {
        SctpError::Os(errno)
    }
}

/// The head of the parameter structure of the connect option: an
/// association id of zero, which the kernel replaces, and the size of the
/// address records.
pub open spec fn spec_connect_head(addrs_size: i32) -> Seq<u8> {
    bytes_le_i32(0) + bytes_le_i32(addrs_size)
}

impl ConnectOp {
    /// Whether `next` is the step that follows when the operation is handed
    /// `outcome`.
    ///
    /// Connecting: a failure other than "in progress" ends the attempt;
    /// else the association id is read from the start of the parameter
    /// structure (`Truncated` where it is not there) and the operation
    /// waits until the descriptor is writable. Then the status of the
    /// association is asked for. Where that fails the attempt ends with
    /// [`spec_connect_error`]; where it succeeds the result is the
    /// connected socket that owns the descriptor, and the association id.
    /// An attempt that ends in failure closes the descriptor first.
    pub open spec fn spec_step(
        self,
        outcome: Outcome,
        next: Step<ConnectOp, (ConnectedSocket, AssociationId)>,
    ) -> bool {
        match self {
            ConnectOp::Connecting { fd } => if outcome.ret < 0 && outcome.errno
                != EINPROGRESS {
                next matches Step::Call(op, call) && op == (ConnectOp::Closing {
                    error: SctpError::Os(outcome.errno),
                }) && call@ == spec_close(fd)
            } else if outcome.data@.len() < 4 {
                next matches Step::Call(op, call) && op == (ConnectOp::Closing {
                    error: SctpError::Truncated,
                }) && call@ == spec_close(fd)
            } else {
                next == Step::<ConnectOp, (ConnectedSocket, AssociationId)>::AwaitWritable(
                    ConnectOp::Waiting { fd, assoc_id: le_i32(outcome.data@, 0) },
                )
            },
            ConnectOp::Waiting { fd, assoc_id } => if outcome.ret < 0 {
                next matches Step::Call(op, call) && op == (ConnectOp::Closing {
                    error: SctpError::Os(outcome.errno),
                }) && call@ == spec_close(fd)
            } else {
                next matches Step::Call(op, call) && op == (ConnectOp::Checking {
                    fd,
                    assoc_id,
                }) && call@ == (SyscallView::GetSockOpt {
                    fd,
                    level: SOL_SCTP,
                    name: SCTP_STATUS,
                    value: spec_query_buffer(assoc_id, 176),
                })
            },
            ConnectOp::Checking { fd, assoc_id } => if outcome.ret < 0 {
                next matches Step::Call(op, call) && op == (ConnectOp::Closing {
                    error: spec_connect_error(outcome.errno),
                }) && call@ == spec_close(fd)
            } else {
                next matches Step::Done(Ok(pair)) && pair.0.spec_fd() == fd && pair.1
                    == assoc_id
            },
            ConnectOp::Closing { error } => next == Step::<
                ConnectOp,
                (ConnectedSocket, AssociationId),
            >::Done(Err(error)),
        }
    }

    /// Takes the outcome of the call or of the wait and returns the step that
    /// follows.
    pub fn step(self, outcome: Outcome) -> (next: Step<ConnectOp, (ConnectedSocket, AssociationId)>)
        ensures
            self.spec_step(outcome, next),
    {
        match self {
            ConnectOp::Connecting { fd } => {
                if outcome.ret < 0 && outcome.errno != EINPROGRESS {
                    Step::Call(
                        ConnectOp::Closing { error: SctpError::Os(outcome.errno) },
                        close_internal(fd),
                    )
                } else if outcome.data.len() < 4 {
                    Step::Call(
                        ConnectOp::Closing { error: SctpError::Truncated },
                        close_internal(fd),
                    )
                } else {
                    let assoc_id: AssociationId = read_le_i32(outcome.data.as_slice(), 0);
                    Step::AwaitWritable(ConnectOp::Waiting { fd, assoc_id })
                }
            },
            ConnectOp::Waiting { fd, assoc_id } => {
                if outcome.ret < 0 {
                    Step::Call(
                        ConnectOp::Closing { error: SctpError::Os(outcome.errno) },
                        close_internal(fd),
                    )
                } else {
                    Step::Call(
                        ConnectOp::Checking { fd, assoc_id },
                        Syscall::GetSockOpt {
                            fd,
                            level: SOL_SCTP,
                            name: SCTP_STATUS,
                            value: query_buffer(assoc_id, STATUS_LEN),
                        },
                    )
                }
            },
            ConnectOp::Checking { fd, assoc_id } => {
                if outcome.ret < 0 {
                    let error = if outcome.errno == EINVAL {
                        SctpError::ConnectionRefused
                    } else {
                        SctpError::Os(outcome.errno)
                    };
                    Step::Call(ConnectOp::Closing { error }, close_internal(fd))
                } else {
                    Step::Done(Ok((ConnectedSocket::from_rawfd(fd), assoc_id)))
                }
            },
            ConnectOp::Closing { error } => Step::Done(Err(error)),
        }
    }
}

/// Connects a socket to a peer that has the addresses `addrs`: gets the
/// connect option that reports the association id, with the records of the
/// addresses.
pub fn sctp_connectx_internal(fd: i32, addrs: &[SockAddr]) -> (first: Step<
    ConnectOp,
    (ConnectedSocket, AssociationId),
>)
    requires
        spec_encode_addrs(addrs@).len() <= i32::MAX,
    ensures
        first matches Step::Call(op, call) && op == (ConnectOp::Connecting { fd }) && call@ == (
        SyscallView::ConnectX {
            fd,
            level: SOL_SCTP,
            name: SCTP_SOCKOPT_CONNECTX3,
            head: spec_connect_head(spec_encode_addrs(addrs@).len() as i32),
            addrs: spec_encode_addrs(addrs@),
        }),
{
    let records: Vec<u8> = encode_addrs(addrs);
    let mut head: Vec<u8> = Vec::new();
    push_le_i32(&mut head, 0);
    push_le_i32(&mut head, records.len() as i32);
    Step::Call(
        ConnectOp::Connecting { fd },
        Syscall::ConnectX {
            fd,
            level: SOL_SCTP,
            name: SCTP_SOCKOPT_CONNECTX3,
            head,
            addrs: records,
        },
    )
}

/// The operation that accepts a connection.
#[derive(Debug, Clone, Copy, PartialEq, Eq)]
pub enum AcceptOp {
    /// Waits for the outcome of `accept`.
    Accepting { fd: i32 },
    /// Waits until the listening descriptor is readable.
    Waiting { fd: i32 },
    /// Waits for the status flags of the new descriptor.
    ReadingFlags { child: i32, peer: SockAddr },
    /// Waits for the outcome of putting it into non-blocking mode.
    WritingFlags { child: i32, peer: SockAddr },
    /// Waits for the new descriptor to be closed after a failure.
    Closing { error: SctpError },
}

/// The call that accepts a connection on `fd`.
pub open spec fn spec_accept_call(fd: i32) -> SyscallView {
    SyscallView::Accept { fd, addr_capacity: 32 }
}

impl AcceptOp {
    /// Whether `next` is the step that follows when the operation is handed
    /// `outcome`.
    ///
    /// `accept` is tried first. Where it would block, the operation waits
    /// until the listening descriptor is readable and tries again; every
    /// other failure is the kernel's error. The address of the peer is read
    /// from what `accept` wrote, and the new descriptor is put into
    /// non-blocking mode in two calls. Where the address cannot be read or
    /// one of the two calls fails, the new descriptor is closed and the
    /// failure reported. Else the result is the connected socket that owns
    /// the new descriptor, and the peer's address.
    pub open spec fn spec_step(
        self,
        outcome: Outcome,
        next: Step<AcceptOp, (ConnectedSocket, SockAddr)>,
    ) -> bool {
        match self {
            AcceptOp::Accepting { fd } => if outcome.ret < 0 && outcome.errno == EWOULDBLOCK {
                next == Step::<AcceptOp, (ConnectedSocket, SockAddr)>::AwaitReadable(
                    AcceptOp::Waiting { fd },
                )
            } else if outcome.ret < 0 {
                next == Step::<AcceptOp, (ConnectedSocket, SockAddr)>::Done(
                    Err(SctpError::Os(outcome.errno)),
                )
            } else {
                match spec_decode_addr(outcome.data@, 0) {
                    Ok((addr, _)) => next matches Step::Call(
                        AcceptOp::ReadingFlags { child, peer },
                        call,
                    ) && child == outcome.ret && peer@ == addr && call@ == spec_get_flags(
                        outcome.ret,
                    ),
                    Err(e) => next matches Step::Call(op, call) && op == (AcceptOp::Closing {
                        error: e,
                    }) && call@ == spec_close(outcome.ret),
                }
            },
            AcceptOp::Waiting { fd } => if outcome.ret < 0 {
                next == Step::<AcceptOp, (ConnectedSocket, SockAddr)>::Done(
                    Err(SctpError::Os(outcome.errno)),
                )
            } else {
                next matches Step::Call(op, call) && op == (AcceptOp::Accepting { fd })
                    && call@ == spec_accept_call(fd)
            },
            AcceptOp::ReadingFlags { child, peer } => if outcome.ret < 0 {
                next matches Step::Call(op, call) && op == (AcceptOp::Closing {
                    error: SctpError::Os(outcome.errno),
                }) && call@ == spec_close(child)
            } else {
                next matches Step::Call(op, call) && op == (AcceptOp::WritingFlags {
                    child,
                    peer,
                }) && call@ == spec_set_non_blocking(child, outcome.ret)
            },
            AcceptOp::WritingFlags { child, peer } => if outcome.ret < 0 {
                next matches Step::Call(op, call) && op == (AcceptOp::Closing {
                    error: SctpError::Os(outcome.errno),
                }) && call@ == spec_close(child)
            } else {
                next matches Step::Done(Ok(pair)) && pair.0.spec_fd() == child && pair.1
                    == peer
            },
            AcceptOp::Closing { error } => next == Step::<
                AcceptOp,
                (ConnectedSocket, SockAddr),
            >::Done(Err(error)),
        }
    }

    /// Takes the outcome of the call or of the wait and returns the step that
    /// follows.
    pub fn step(self, outcome: Outcome) -> (next: Step<AcceptOp, (ConnectedSocket, SockAddr)>)
        ensures
            self.spec_step(outcome, next),
    {
        match self {
            AcceptOp::Accepting { fd } => {
                if outcome.ret < 0 {
                    if outcome.errno == EWOULDBLOCK {
                        Step::AwaitReadable(AcceptOp::Waiting { fd })
                    } else {
                        Step::Done(Err(SctpError::Os(outcome.errno)))
                    }
                } else {
                    let child: i32 = outcome.ret;
                    match decode_addr(outcome.data.as_slice(), 0) {
                        Ok((peer, _)) => Step::Call(
                            AcceptOp::ReadingFlags { child, peer },
                            get_fd_flags(child),
                        ),
                        Err(error) => Step::Call(
                            AcceptOp::Closing { error },
                            close_internal(child),
                        ),
                    }
                }
            },
            AcceptOp::Waiting { fd } => {
                if outcome.ret < 0 {
                    Step::Done(Err(SctpError::Os(outcome.errno)))
                } else {
                    Step::Call(
                        AcceptOp::Accepting { fd },
                        Syscall::Accept { fd, addr_capacity: ACCEPT_ADDR_LEN },
                    )
                }
            },
            AcceptOp::ReadingFlags { child, peer } => {
                if outcome.ret < 0 {
                    Step::Call(
                        AcceptOp::Closing { error: SctpError::Os(outcome.errno) },
                        close_internal(child),
                    )
                } else {
                    Step::Call(
                        AcceptOp::WritingFlags { child, peer },
                        set_fd_non_blocking(child, outcome.ret),
                    )
                }
            },
            AcceptOp::WritingFlags { child, peer } => {
                if outcome.ret < 0 {
                    Step::Call(
                        AcceptOp::Closing { error: SctpError::Os(outcome.errno) },
                        close_internal(child),
                    )
                } else {
                    Step::Done(Ok((ConnectedSocket::from_rawfd(child), peer)))
                }
            },
            AcceptOp::Closing { error } => Step::Done(Err(error)),
        }
    }
}

/// Accepts a connection on a listening socket.
///
/// A socket for many associations cannot accept: the result is
/// `NotSupported` at once, without a call. On a socket for one association
/// `accept` is tried first, before any wait.
pub fn accept_internal(fd: i32, assoc: SocketToAssociation) -> (first: Step<
    AcceptOp,
    (ConnectedSocket, SockAddr),
>)
    ensures
        assoc == SocketToAssociation::OneToMany ==> first == Step::<
            AcceptOp,
            (ConnectedSocket, SockAddr),
        >::Done(Err(SctpError::NotSupported)),
        assoc == SocketToAssociation::OneToOne ==> (first matches Step::Call(op, call) && op == (
        AcceptOp::Accepting { fd }) && call@ == spec_accept_call(fd)),
{
    match assoc {
        SocketToAssociation::OneToMany => Step::Done(Err(SctpError::NotSupported)),
        SocketToAssociation::OneToOne => Step::Call(
            AcceptOp::Accepting { fd },
            Syscall::Accept { fd, addr_capacity: ACCEPT_ADDR_LEN },
        ),
    }
}

/// The operation that peels an association off a socket for many.
#[derive(Debug, Clone, Copy, PartialEq, Eq)]
pub enum PeeloffOp {
    /// Waits for the outcome of the peel-off option.
    Peeling {  },
    /// Waits for the status flags of the new descriptor.
    ReadingFlags { fd: i32 },
    /// Waits for the outcome of putting it into non-blocking mode.
    WritingFlags { fd: i32 },
    /// Waits for the new descriptor to be closed after a failure.
    Closing { error: SctpError },
}

impl PeeloffOp {
    /// Whether `next` is the step that follows when the operation is handed
    /// `outcome`.
    ///
    /// A failed peel-off is the kernel's error. Else the new descriptor is
    /// read from the argument that came back (`Truncated` where it is
    /// shorter than the argument), and put into non-blocking mode in two
    /// calls before anything else is done with it. Where one of the two
    /// fails, the new descriptor is closed and the failure reported. Else
    /// the result is the connected socket that owns the new descriptor.
    pub open spec fn spec_step(
        self,
        outcome: Outcome,
        next: Step<PeeloffOp, ConnectedSocket>,
    ) -> bool {
        match self {
            PeeloffOp::Peeling {  } => if outcome.ret < 0 {
                next == Step::<PeeloffOp, ConnectedSocket>::Done(
                    Err(SctpError::Os(outcome.errno)),
                )
            } else if outcome.data@.len() < 8 {
                next == Step::<PeeloffOp, ConnectedSocket>::Done(Err(SctpError::Truncated))
            } else {
                next matches Step::Call(op, call) && op == (PeeloffOp::ReadingFlags {
                    fd: le_i32(outcome.data@, 4),
                }) && call@ == spec_get_flags(le_i32(outcome.data@, 4))
            },
            PeeloffOp::ReadingFlags { fd } => if outcome.ret < 0 {
                next matches Step::Call(op, call) && op == (PeeloffOp::Closing {
                    error: SctpError::Os(outcome.errno),
                }) && call@ == spec_close(fd)
            } else {
                next matches Step::Call(op, call) && op == (PeeloffOp::WritingFlags { fd })
                    && call@ == spec_set_non_blocking(fd, outcome.ret)
            },
            PeeloffOp::WritingFlags { fd } => if outcome.ret < 0 {
                next matches Step::Call(op, call) && op == (PeeloffOp::Closing {
                    error: SctpError::Os(outcome.errno),
                }) && call@ == spec_close(fd)
            } else {
                next matches Step::Done(Ok(socket)) && socket.spec_fd() == fd
            },
            PeeloffOp::Closing { error } => next == Step::<PeeloffOp, ConnectedSocket>::Done(
                Err(error),
            ),
        }
    }

    /// Takes the outcome of the call and returns the step that follows.
    pub fn step(self, outcome: Outcome) -> (next: Step<PeeloffOp, ConnectedSocket>)
        ensures
            self.spec_step(outcome, next),
    {
        match self {
            PeeloffOp::Peeling {  } => {
                if outcome.ret < 0 {
                    Step::Done(Err(SctpError::Os(outcome.errno)))
                } else {
                    match PeeloffArg::from_bytes(outcome.data.as_slice()) {
                        Err(e) => Step::Done(Err(e)),
                        Ok(arg) => Step::Call(
                            PeeloffOp::ReadingFlags { fd: arg.sd },
                            get_fd_flags(arg.sd),
                        ),
                    }
                }
            },
            PeeloffOp::ReadingFlags { fd } => {
                if outcome.ret < 0 {
                    Step::Call(
                        PeeloffOp::Closing { error: SctpError::Os(outcome.errno) },
                        close_internal(fd),
                    )
                } else {
                    Step::Call(
                        PeeloffOp::WritingFlags { fd },
                        set_fd_non_blocking(fd, outcome.ret),
                    )
                }
            },
            PeeloffOp::WritingFlags { fd } => {
                if outcome.ret < 0 {
                    Step::Call(
                        PeeloffOp::Closing { error: SctpError::Os(outcome.errno) },
                        close_internal(fd),
                    )
                } else {
                    Step::Done(Ok(ConnectedSocket::from_rawfd(fd)))
                }
            },
            PeeloffOp::Closing { error } => Step::Done(Err(error)),
        }
    }
}

/// Peels the association `assoc_id` off a listening socket into a socket
/// of its own.
///
/// A socket for one association has nothing to peel off: the result is
/// `NotSupported` at once, without a call. On a socket for many the
/// peel-off option is got with the argument that names the association.
pub fn sctp_peeloff_internal(
    fd: i32,
    assoc: SocketToAssociation,
    assoc_id: AssociationId,
) -> (first: Step<PeeloffOp, ConnectedSocket>)
    ensures
        assoc == SocketToAssociation::OneToOne ==> first == Step::<
            PeeloffOp,
            ConnectedSocket,
        >::Done(Err(SctpError::NotSupported)),
        assoc == SocketToAssociation::OneToMany ==> (first matches Step::Call(op, call) && op == (
        PeeloffOp::Peeling {  }) && call@ == (SyscallView::GetSockOpt {
            fd,
            level: SOL_SCTP,
            name: SCTP_SOCKOPT_PEELOFF,
            value: (PeeloffArg { assoc_id, sd: 0 }).spec_to_bytes(),
        })),
{
    match assoc {
        SocketToAssociation::OneToOne => Step::Done(Err(SctpError::NotSupported)),
        SocketToAssociation::OneToMany => {
            let peeloff_arg = PeeloffArg::from_assoc_id(assoc_id);
            Step::Call(
                PeeloffOp::Peeling {  },
                Syscall::GetSockOpt {
                    fd,
                    level: SOL_SCTP,
                    name: SCTP_SOCKOPT_PEELOFF,
                    value: peeloff_arg.to_bytes(),
                },
            )
        },
    }
}

/// A connection attempt whose status cannot be read for "invalid argument"
/// is a refused connection: the operation closes the descriptor and then
/// ends with `ConnectionRefused`, whatever closing came to, and without
/// another wait.
pub proof fn lemma_unreadable_status_is_refusal(
    fd: i32,
    assoc_id: AssociationId,
    status: Outcome,
    after_status: Step<ConnectOp, (ConnectedSocket, AssociationId)>,
    closed: Outcome,
    after_close: Step<ConnectOp, (ConnectedSocket, AssociationId)>,
)
    requires
        status.ret < 0,
        status.errno == EINVAL,
        (ConnectOp::Checking { fd, assoc_id }).spec_step(status, after_status),
        after_status matches Step::Call(op, _) ==> op.spec_step(closed, after_close),
    ensures
        after_status matches Step::Call(_, call) && call@ == spec_close(fd),
        after_close == Step::<ConnectOp, (ConnectedSocket, AssociationId)>::Done(
            Err(SctpError::ConnectionRefused),
        ),
        SctpError::ConnectionRefused.spec_raw_os_error() == ECONNREFUSED,
{
}

impl ConnectOp {
    /// The largest number of outcomes that the operation still takes before
    /// it is done.
    pub open spec fn spec_steps_left(self) -> nat {
        match self {
            ConnectOp::Connecting { .. } => 4,
            ConnectOp::Waiting { .. } => 3,
            ConnectOp::Checking { .. } => 2,
            ConnectOp::Closing { .. } => 1,
        }
    }
}

/// A connection attempt comes to an end: with every outcome it is done or
/// has fewer steps left, so that it takes four outcomes at most, one call
/// to connect, one wait, one call for the status and one call to close.
pub proof fn lemma_connect_ends(
    op: ConnectOp,
    outcome: Outcome,
    next: Step<ConnectOp, (ConnectedSocket, AssociationId)>,
)
    requires
        op.spec_step(outcome, next),
    ensures
        next matches Step::Call(after, _) ==> after.spec_steps_left() < op.spec_steps_left(),
        next matches Step::AwaitWritable(after) ==> after.spec_steps_left()
            < op.spec_steps_left(),
        !(next is AwaitReadable),
{
}

/// A connection attempt that the kernel does not finish at once goes on:
/// "in progress" is no failure. The operation waits until the descriptor is
/// writable.
pub proof fn lemma_in_progress_waits(
    fd: i32,
    outcome: Outcome,
    next: Step<ConnectOp, (ConnectedSocket, AssociationId)>,
)
    requires
        outcome.ret < 0,
        outcome.errno == EINPROGRESS,
        outcome.data@.len() >= 4,
        (ConnectOp::Connecting { fd }).spec_step(outcome, next),
    ensures
        next is AwaitWritable,
{
}

/// `accept` never ends with "would block": the operation waits until the
/// listening descriptor is readable and then calls `accept` again.
pub proof fn lemma_accept_would_block_waits(
    fd: i32,
    blocked: Outcome,
    after_block: Step<AcceptOp, (ConnectedSocket, SockAddr)>,
    ready: Outcome,
    after_ready: Step<AcceptOp, (ConnectedSocket, SockAddr)>,
)
    requires
        blocked.ret < 0,
        blocked.errno == EWOULDBLOCK,
        ready.ret >= 0,
        (AcceptOp::Accepting { fd }).spec_step(blocked, after_block),
        after_block matches Step::AwaitReadable(op) ==> op.spec_step(ready, after_ready),
    ensures
        after_block is AwaitReadable,
        after_ready matches Step::Call(op, call) && op == (AcceptOp::Accepting { fd }) && call@
            == spec_accept_call(fd),
{
}

/// A descriptor that an operation made and cannot hand out is closed
/// before the failure is reported: opening, accepting and peeling off each
/// answer a failure to read or to write the status flags with the call
/// that closes the new descriptor.
pub proof fn lemma_unusable_descriptor_is_closed(
    fd: i32,
    assoc: SocketToAssociation,
    peer: SockAddr,
    outcome: Outcome,
    opened: Step<OpenOp, SctpSocket>,
    accepted: Step<AcceptOp, (ConnectedSocket, SockAddr)>,
    peeled: Step<PeeloffOp, ConnectedSocket>,
)
    requires
        outcome.ret < 0,
        (OpenOp::ReadingFlags { fd, assoc }).spec_step(outcome, opened) || (OpenOp::WritingFlags {
            fd,
            assoc,
        }).spec_step(outcome, opened),
        (AcceptOp::ReadingFlags { child: fd, peer }).spec_step(outcome, accepted) || (
        AcceptOp::WritingFlags { child: fd, peer }).spec_step(outcome, accepted),
        (PeeloffOp::ReadingFlags { fd }).spec_step(outcome, peeled) || (PeeloffOp::WritingFlags {
            fd,
        }).spec_step(outcome, peeled),
    ensures
        opened matches Step::Call(op, call) && op == (OpenOp::Closing {
            error: SctpError::Os(outcome.errno),
        }) && call@ == spec_close(fd),
        accepted matches Step::Call(op, call) && op == (AcceptOp::Closing {
            error: SctpError::Os(outcome.errno),
        }) && call@ == spec_close(fd),
        peeled matches Step::Call(op, call) && op == (PeeloffOp::Closing {
            error: SctpError::Os(outcome.errno),
        }) && call@ == spec_close(fd),
{
}

/// The flags that [`set_fd_non_blocking`] writes hold the flag for
/// non-blocking mode, whatever the flags were before.
pub proof fn lemma_non_blocking_flag_is_set(fd: i32, flags: i32)
    ensures
        spec_set_non_blocking(fd, flags) matches SyscallView::Fcntl { arg, .. } && arg
            & O_NONBLOCK == O_NONBLOCK,
{
    assert((flags | 0x800) & 0x800 == 0x800) by (bit_vector);
}

/// A new descriptor is handed out as a socket only in non-blocking mode:
/// opening, accepting and peeling off end in success only with the step
/// that takes the success of the call which wrote the flags, and that call
/// is the one of [`set_fd_non_blocking`] on the new descriptor.
pub proof fn lemma_handed_out_non_blocking(
    opening: OpenOp,
    accepting: AcceptOp,
    peeling: PeeloffOp,
    outcome: Outcome,
    opened: Step<OpenOp, SctpSocket>,
    accepted: Step<AcceptOp, (ConnectedSocket, SockAddr)>,
    peeled: Step<PeeloffOp, ConnectedSocket>,
)
    requires
        opening.spec_step(outcome, opened),
        accepting.spec_step(outcome, accepted),
        peeling.spec_step(outcome, peeled),
    ensures
        opened matches Step::Done(Ok(_)) ==> opening is WritingFlags && outcome.ret >= 0,
        accepted matches Step::Done(Ok(_)) ==> accepting is WritingFlags && outcome.ret >= 0,
        peeled matches Step::Done(Ok(_)) ==> peeling is WritingFlags && outcome.ret >= 0,
        opened matches Step::Call(OpenOp::WritingFlags { fd, .. }, call) ==> call@
            == spec_set_non_blocking(fd, outcome.ret),
        accepted matches Step::Call(AcceptOp::WritingFlags { child, .. }, call) ==> call@
            == spec_set_non_blocking(child, outcome.ret),
        peeled matches Step::Call(PeeloffOp::WritingFlags { fd }, call) ==> call@
            == spec_set_non_blocking(fd, outcome.ret),
{
}

} // verus!
