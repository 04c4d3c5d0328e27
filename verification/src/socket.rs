//! A socket that is neither listening nor connected.

use vstd::prelude::*;
use crate::addr::{lemma_encode_one, spec_encode_addr, spec_encode_addrs, SockAddr};
use crate::connected_socket::ConnectedSocket;
use crate::consts::{
    AF_INET, AF_INET6, IPPROTO_SCTP, SCTP_EVENT, SCTP_INITMSG, SCTP_RECVNXTINFO, SCTP_RECVRCVINFO,
    SCTP_SOCKOPT_BINDX_ADD, SCTP_SOCKOPT_CONNECTX3, SCTP_STATUS, SOL_SCTP,
};
use crate::internal::{
    request_nxtinfo_internal, request_rcvinfo_internal, sctp_bindx_internal,
    sctp_get_status_internal, sctp_setup_init_params_internal, sctp_subscribe_event_internal,
    spec_bindx_option, SimpleOp, StatusOp,
};
use crate::listener::Listener;
use crate::syscall::{Step, Syscall, SyscallView};
use crate::transition::{
    close_internal, sctp_connectx_internal, sctp_listen_internal, sctp_socket_internal,
    spec_close, spec_connect_head, spec_socket_type, ConnectOp, ListenOp, OpenOp,
};
use crate::types::{
    AssociationId, BindxFlags, ConnStatus, Event, SocketToAssociation, SubscribeEventAssocId,
};
use crate::wire::{spec_query_buffer, spec_switch_bytes, InitMsg, SubscribeEvent};

verus! {

/// A socket that is neither listening nor connected.
///
/// The value owns its descriptor. It cannot be copied; listening,
/// connecting and [`close`](SctpSocket::close) use it up.
#[derive(Debug)]
pub struct SctpSocket {
    fd: i32,
    assoc: SocketToAssociation,
}

impl SctpSocket {
    /// The descriptor that the socket owns.
    pub closed spec fn spec_fd(&self) -> i32 {
        self.fd
    }

    /// Whether the socket carries one association or many.
    pub closed spec fn spec_assoc(&self) -> SocketToAssociation {
        self.assoc
    }

    /// The socket that owns the descriptor `fd`.
    pub(crate) fn from_rawfd(fd: i32, assoc: SocketToAssociation) -> (socket: SctpSocket)
        ensures
            socket.spec_fd() == fd,
            socket.spec_assoc() == assoc,
    {
        SctpSocket { fd, assoc }
    }

    /// The descriptor that the socket owns.
    pub fn as_raw_fd(&self) -> (fd: i32)
        ensures
            fd == self.spec_fd(),
    {
        self.fd
    }

    /// Whether the socket carries one association or many.
    pub fn assoc(&self) -> (assoc: SocketToAssociation)
        ensures
            assoc == self.spec_assoc(),
    {
        self.assoc
    }

    /// Opens a socket for IPv4: a stream socket for one association, a
    /// socket of sequenced packets for many. The operation puts the new
    /// descriptor into non-blocking mode before it hands the socket out.
    pub fn new_v4(assoc: SocketToAssociation) -> (first: Step<OpenOp, SctpSocket>)
        ensures
            first matches Step::Call(op, call) && op == (OpenOp::Creating { assoc }) && call@ == (
            SyscallView::Socket {
                domain: AF_INET,
                ty: spec_socket_type(assoc),
                protocol: IPPROTO_SCTP,
            }),
    {
        sctp_socket_internal(AF_INET, assoc)
    }

    /// Opens a socket for IPv6, which can carry IPv4 too: a stream socket
    /// for one association, a socket of sequenced packets for many. The
    /// operation puts the new descriptor into non-blocking mode before it
    /// hands the socket out.
    pub fn new_v6(assoc: SocketToAssociation) -> (first: Step<OpenOp, SctpSocket>)
        ensures
            first matches Step::Call(op, call) && op == (OpenOp::Creating { assoc }) && call@ == (
            SyscallView::Socket {
                domain: AF_INET6,
                ty: spec_socket_type(assoc),
                protocol: IPPROTO_SCTP,
            }),
    {
        sctp_socket_internal(AF_INET6, assoc)
    }

    /// Binds the socket to one local address: adds that address.
    pub fn bind(&self, addr: SockAddr) -> (first: Step<SimpleOp, ()>)
        ensures
            first matches Step::Call(_, call) && call@ == (SyscallView::SetSockOpt {
                fd: self.spec_fd(),
                level: SOL_SCTP,
                name: SCTP_SOCKOPT_BINDX_ADD,
                value: spec_encode_addr(addr@),
            }),
    {
        let addrs: [SockAddr; 1] = [addr];
        proof {
            lemma_encode_one(addr);
            assert(addrs@ =~= seq![addr]);
        }
        self.sctp_bindx(addrs.as_slice(), BindxFlags::Add)
    }

    /// Makes the socket listen with a queue of `backlog` connections. The
    /// socket is used up: the operation ends with the listening socket, or
    /// closes the descriptor and ends with the kernel's error.
    pub fn listen(self, backlog: i32) -> (first: Step<ListenOp, Listener>)
        ensures
            first matches Step::Call(op, call) && op == (ListenOp::Listening {
                fd: self.spec_fd(),
                assoc: self.spec_assoc(),
            }) && call@ == (SyscallView::Listen { fd: self.spec_fd(), backlog }),
    {
        sctp_listen_internal(self.fd, self.assoc, backlog)
    }

    /// Connects the socket to the peer at `addr`. The socket is used up: the
    /// operation ends with the connected socket and the association id, or
    /// closes the descriptor and ends with the error.
    pub fn connect(self, addr: SockAddr) -> (first: Step<
        ConnectOp,
        (ConnectedSocket, AssociationId),
    >)
        ensures
            first matches Step::Call(op, call) && op == (ConnectOp::Connecting {
                fd: self.spec_fd(),
            }) && call@ == (SyscallView::ConnectX {
                fd: self.spec_fd(),
                level: SOL_SCTP,
                name: SCTP_SOCKOPT_CONNECTX3,
                head: spec_connect_head(spec_encode_addr(addr@).len() as i32),
                addrs: spec_encode_addr(addr@),
            }),
    {
        let addrs: [SockAddr; 1] = [addr];
        proof {
            lemma_encode_one(addr);
            assert(addrs@ =~= seq![addr]);
        }
        sctp_connectx_internal(self.fd, addrs.as_slice())
    }

    /// Adds local addresses to the socket or removes them.
    pub fn sctp_bindx(&self, addrs: &[SockAddr], flags: BindxFlags) -> (first: Step<SimpleOp, ()>)
        ensures
            first matches Step::Call(_, call) && call@ == (SyscallView::SetSockOpt {
                fd: self.spec_fd(),
                level: SOL_SCTP,
                name: spec_bindx_option(flags),
                value: spec_encode_addrs(addrs@),
            }),
    {
        sctp_bindx_internal(self.fd, addrs, flags)
    }

    /// Connects the socket to a peer that has the addresses `addrs`. The
    /// socket is used up: the operation ends with the connected socket and
    /// the association id, or closes the descriptor and ends with the error.
    ///
    /// The size of the records of `addrs` has to fit in a signed 32-bit
    /// number.
    pub fn sctp_connectx(self, addrs: &[SockAddr]) -> (first: Step<
        ConnectOp,
        (ConnectedSocket, AssociationId),
    >)
        requires
            spec_encode_addrs(addrs@).len() <= i32::MAX,
        ensures
            first matches Step::Call(op, call) && op == (ConnectOp::Connecting {
                fd: self.spec_fd(),
            }) && call@ == (SyscallView::ConnectX {
                fd: self.spec_fd(),
                level: SOL_SCTP,
                name: SCTP_SOCKOPT_CONNECTX3,
                head: spec_connect_head(spec_encode_addrs(addrs@).len() as i32),
                addrs: spec_encode_addrs(addrs@),
            }),
    {
        sctp_connectx_internal(self.fd, addrs)
    }

    /// Subscribes to an event for the associations that `assoc_id` stands
    /// for.
    pub fn sctp_subscribe_event(
        &self,
        event: Event,
        assoc_id: SubscribeEventAssocId,
    ) -> (first: Step<SimpleOp, ()>)
        ensures
            first matches Step::Call(_, call) && call@ == (SyscallView::SetSockOpt {
                fd: self.spec_fd(),
                level: SOL_SCTP,
                name: SCTP_EVENT,
                value: (SubscribeEvent {
                    assoc_id: assoc_id.spec_assoc_id(),
                    event,
                    on: true,
                }).spec_to_bytes(),
            }),
    {
        sctp_subscribe_event_internal(self.fd, event, assoc_id, true)
    }

    /// Ends the subscription to an event for the associations that
    /// `assoc_id` stands for.
    pub fn sctp_unsubscribe_event(
        &self,
        event: Event,
        assoc_id: SubscribeEventAssocId,
    ) -> (first: Step<SimpleOp, ()>)
        ensures
            first matches Step::Call(_, call) && call@ == (SyscallView::SetSockOpt {
                fd: self.spec_fd(),
                level: SOL_SCTP,
                name: SCTP_EVENT,
                value: (SubscribeEvent {
                    assoc_id: assoc_id.spec_assoc_id(),
                    event,
                    on: false,
                }).spec_to_bytes(),
            }),
    {
        sctp_subscribe_event_internal(self.fd, event, assoc_id, false)
    }

    /// Sets the parameters of associations that are made from now on: the
    /// number of outbound streams to ask for, the largest number of inbound
    /// streams to accept, the number of attempts and the longest time between
    /// two of them.
    pub fn sctp_setup_init_params(
        &self,
        ostreams: u16,
        istreams: u16,
        retries: u16,
        timeout: u16,
    ) -> (first: Step<SimpleOp, ()>)
        ensures
            first matches Step::Call(_, call) && call@ == (SyscallView::SetSockOpt {
                fd: self.spec_fd(),
                level: SOL_SCTP,
                name: SCTP_INITMSG,
                value: (InitMsg { ostreams, istreams, retries, timeout }).spec_to_bytes(),
            }),
    {
        sctp_setup_init_params_internal(self.fd, ostreams, istreams, retries, timeout)
    }

    /// Asks for receive information with every message (`on`), or no longer.
    pub fn sctp_request_rcvinfo(&self, on: bool) -> (first: Step<SimpleOp, ()>)
        ensures
            first matches Step::Call(_, call) && call@ == (SyscallView::SetSockOpt {
                fd: self.spec_fd(),
                level: SOL_SCTP,
                name: SCTP_RECVRCVINFO,
                value: spec_switch_bytes(on),
            }),
    {
        request_rcvinfo_internal(self.fd, on)
    }

    /// Asks for information about the next message with every message
    /// (`on`), or no longer.
    pub fn sctp_request_nxtinfo(&self, on: bool) -> (first: Step<SimpleOp, ()>)
        ensures
            first matches Step::Call(_, call) && call@ == (SyscallView::SetSockOpt {
                fd: self.spec_fd(),
                level: SOL_SCTP,
                name: SCTP_RECVNXTINFO,
                value: spec_switch_bytes(on),
            }),
    {
        request_nxtinfo_internal(self.fd, on)
    }

    /// Reads the status of the association `assoc_id`.
    pub fn sctp_get_status(&self, assoc_id: AssociationId) -> (first: Step<StatusOp, ConnStatus>)
        ensures
            first matches Step::Call(_, call) && call@ == (SyscallView::GetSockOpt {
                fd: self.spec_fd(),
                level: SOL_SCTP,
                name: SCTP_STATUS,
                value: spec_query_buffer(assoc_id, 176),
            }),
    {
        sctp_get_status_internal(self.fd, assoc_id)
    }

    /// Gives the descriptor up: the call that closes it. The socket is used
    /// up, so the descriptor is closed once.
    pub fn close(self) -> (call: Syscall)
        ensures
            call@ == spec_close(self.spec_fd()),
    {
        close_internal(self.fd)
    }
}

} // verus!
