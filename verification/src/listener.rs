//! A listening socket.

use vstd::prelude::*;
use crate::addr::{spec_encode_addr, spec_encode_addrs, SockAddr};
use crate::cmsg::spec_send_control;
use crate::connected_socket::ConnectedSocket;
use crate::consts::{
    SCTP_EVENT, SCTP_GET_LOCAL_ADDRS, SCTP_GET_PEER_ADDRS, SCTP_INITMSG, SCTP_RECVNXTINFO,
    SCTP_RECVRCVINFO, SCTP_SOCKOPT_PEELOFF, SCTP_STATUS, SOL_SCTP,
};
use crate::error::SctpError;
use crate::internal::{
    request_nxtinfo_internal, request_rcvinfo_internal, sctp_bindx_internal,
    sctp_get_status_internal, sctp_getladdrs_internal, sctp_getpaddrs_internal,
    sctp_recvmsg_internal, sctp_sendmsg_internal, sctp_setup_init_params_internal,
    sctp_subscribe_event_internal, shutdown_internal, spec_bindx_option, spec_shutdown_how,
    GetAddrsOp, RecvOp, SendOp, SendOpView, SimpleOp, StatusOp,
};
use crate::syscall::{Step, Syscall, SyscallView};
use crate::transition::{
    accept_internal, close_internal, sctp_peeloff_internal, spec_accept_call, spec_close,
    AcceptOp, PeeloffOp,
};
use crate::types::{
    AssociationId, BindxFlags, ConnStatus, Event, NotificationOrData, SendData, ShutdownHow,
    SocketToAssociation, SubscribeEventAssocId,
};
use crate::wire::{spec_query_buffer, spec_switch_bytes, InitMsg, PeeloffArg, SubscribeEvent};

verus! {

/// A socket that listens for incoming associations.
///
/// The value owns its descriptor. It cannot be copied, and
/// [`close`](Listener::close) uses it up.
#[derive(Debug)]
pub struct Listener {
    fd: i32,
    assoc: SocketToAssociation,
}

impl Listener {
    /// The descriptor that the socket owns.
    pub closed spec fn spec_fd(&self) -> i32 {
        self.fd
    }

    /// Whether the socket carries one association or many.
    pub closed spec fn spec_assoc(&self) -> SocketToAssociation {
        self.assoc
    }

    /// The listening socket that owns the descriptor `fd`.
    pub(crate) fn from_rawfd(fd: i32, assoc: SocketToAssociation) -> (listener: Listener)
        ensures
            listener.spec_fd() == fd,
            listener.spec_assoc() == assoc,
    {
        Listener { fd, assoc }
    }

    /// The descriptor that the socket owns.
    pub fn as_raw_fd(&self) -> (fd: i32)
        ensures
            fd == self.spec_fd(),
    {
        self.fd
    }

    /// Whether the socket carries one association or many.
    pub fn assoc(&self) -> (assoc: SocketToAssociation)
        ensures
            assoc == self.spec_assoc(),
    {
        self.assoc
    }

    /// Accepts a connection.
    ///
    /// Only a socket for one association can accept. On a socket for many
    /// the result is `NotSupported` at once, and no call is made.
    pub fn accept(&self) -> (first: Step<AcceptOp, (ConnectedSocket, SockAddr)>)
        ensures
            self.spec_assoc() == SocketToAssociation::OneToMany ==> first == Step::<
                AcceptOp,
                (ConnectedSocket, SockAddr),
            >::Done(Err(SctpError::NotSupported)),
            self.spec_assoc() == SocketToAssociation::OneToOne ==> (first matches Step::Call(
                op,
                call,
            ) && op == (AcceptOp::Accepting { fd: self.spec_fd() }) && call@ == spec_accept_call(
                self.spec_fd(),
            )),
    {
        accept_internal(self.fd, self.assoc)
    }

    /// Shuts down one side of the socket or both.
    pub fn shutdown(&self, how: ShutdownHow) -> (first: Step<SimpleOp, ()>)
        ensures
            first matches Step::Call(_, call) && call@ == (SyscallView::Shutdown {
                fd: self.spec_fd(),
                how: spec_shutdown_how(how),
            }),
    {
        shutdown_internal(self.fd, how)
    }

    /// Adds local addresses to the socket or removes them.
    pub fn sctp_bindx(&self, addrs: &[SockAddr], flags: BindxFlags) -> (first: Step<SimpleOp, ()>)
        ensures
            first matches Step::Call(_, call) && call@ == (SyscallView::SetSockOpt {
                fd: self.spec_fd(),
                level: SOL_SCTP,
                name: spec_bindx_option(flags),
                value: spec_encode_addrs(addrs@),
            }),
    {
        sctp_bindx_internal(self.fd, addrs, flags)
    }

    /// Peels the association `assoc_id` off into a connected socket of its
    /// own.
    ///
    /// Only a socket for many associations has one to peel off. On a socket
    /// for one the result is `NotSupported` at once, and no call is made.
    pub fn sctp_peeloff(&self, assoc_id: AssociationId) -> (first: Step<PeeloffOp, ConnectedSocket>)
        ensures
            self.spec_assoc() == SocketToAssociation::OneToOne ==> first == Step::<
                PeeloffOp,
                ConnectedSocket,
            >::Done(Err(SctpError::NotSupported)),
            self.spec_assoc() == SocketToAssociation::OneToMany ==> (first matches Step::Call(
                op,
                call,
            ) && op == (PeeloffOp::Peeling {  }) && call@ == (SyscallView::GetSockOpt {
                fd: self.spec_fd(),
                level: SOL_SCTP,
                name: SCTP_SOCKOPT_PEELOFF,
                value: (PeeloffArg { assoc_id, sd: 0 }).spec_to_bytes(),
            })),
    {
        sctp_peeloff_internal(self.fd, self.assoc, assoc_id)
    }

    /// Reads the peer's addresses of the association `assoc_id`.
    pub fn sctp_getpaddrs(&self, assoc_id: AssociationId) -> (first: Step<
        GetAddrsOp,
        Vec<SockAddr>,
    >)
        ensures
            first matches Step::Call(_, call) && call@ == (SyscallView::GetSockOpt {
                fd: self.spec_fd(),
                level: SOL_SCTP,
                name: SCTP_GET_PEER_ADDRS,
                value: spec_query_buffer(assoc_id, 256),
            }),
    {
        sctp_getpaddrs_internal(self.fd, assoc_id)
    }

    /// Reads the local addresses of the association `assoc_id`.
    pub fn sctp_getladdrs(&self, assoc_id: AssociationId) -> (first: Step<
        GetAddrsOp,
        Vec<SockAddr>,
    >)
        ensures
            first matches Step::Call(_, call) && call@ == (SyscallView::GetSockOpt {
                fd: self.spec_fd(),
                level: SOL_SCTP,
                name: SCTP_GET_LOCAL_ADDRS,
                value: spec_query_buffer(assoc_id, 256),
            }),
    {
        sctp_getladdrs_internal(self.fd, assoc_id)
    }

    /// Receives one message or notification.
    pub fn sctp_recv(&self) -> (first: Step<RecvOp, NotificationOrData>)
        ensures
            first == Step::<RecvOp, NotificationOrData>::AwaitReadable(
                RecvOp::Waiting { fd: self.spec_fd() },
            ),
    {
        sctp_recvmsg_internal(self.fd)
    }

    /// Sends one message to the peer at `to`.
    pub fn sctp_send(&self, to: SockAddr, data: SendData) -> (first: Step<SendOp, ()>)
        ensures
            first matches Step::AwaitWritable(op) && op@ == (SendOpView::Waiting {
                fd: self.spec_fd(),
                name: spec_encode_addr(to@),
                payload: data.payload@,
                control: spec_send_control(data.snd_info),
            }),
    {
        sctp_sendmsg_internal(self.fd, Some(to), data)
    }

    /// Subscribes to an event for the associations that `assoc_id` stands
    /// for.
    pub fn sctp_subscribe_event(
        &self,
        event: Event,
        assoc_id: SubscribeEventAssocId,
    ) -> (first: Step<SimpleOp, ()>)
        ensures
            first matches Step::Call(_, call) && call@ == (SyscallView::SetSockOpt {
                fd: self.spec_fd(),
                level: SOL_SCTP,
                name: SCTP_EVENT,
                value: (SubscribeEvent {
                    assoc_id: assoc_id.spec_assoc_id(),
                    event,
                    on: true,
                }).spec_to_bytes(),
            }),
    {
        sctp_subscribe_event_internal(self.fd, event, assoc_id, true)
    }

    /// Ends the subscription to an event for the associations that
    /// `assoc_id` stands for.
    pub fn sctp_unsubscribe_event(
        &self,
        event: Event,
        assoc_id: SubscribeEventAssocId,
    ) -> (first: Step<SimpleOp, ()>)
        ensures
            first matches Step::Call(_, call) && call@ == (SyscallView::SetSockOpt {
                fd: self.spec_fd(),
                level: SOL_SCTP,
                name: SCTP_EVENT,
                value: (SubscribeEvent {
                    assoc_id: assoc_id.spec_assoc_id(),
                    event,
                    on: false,
                }).spec_to_bytes(),
            }),
    {
        sctp_subscribe_event_internal(self.fd, event, assoc_id, false)
    }

    /// Sets the parameters of associations that are made from now on: the
    /// number of outbound streams to ask for, the largest number of inbound
    /// streams to accept, the number of attempts and the longest time between
    /// two of them.
    pub fn sctp_setup_init_params(
        &self,
        ostreams: u16,
        istreams: u16,
        retries: u16,
        timeout: u16,
    ) -> (first: Step<SimpleOp, ()>)
        ensures
            first matches Step::Call(_, call) && call@ == (SyscallView::SetSockOpt {
                fd: self.spec_fd(),
                level: SOL_SCTP,
                name: SCTP_INITMSG,
                value: (InitMsg { ostreams, istreams, retries, timeout }).spec_to_bytes(),
            }),
    {
        sctp_setup_init_params_internal(self.fd, ostreams, istreams, retries, timeout)
    }

    /// Asks for receive information with every message (`on`), or no longer.
    pub fn sctp_request_rcvinfo(&self, on: bool) -> (first: Step<SimpleOp, ()>)
        ensures
            first matches Step::Call(_, call) && call@ == (SyscallView::SetSockOpt {
                fd: self.spec_fd(),
                level: SOL_SCTP,
                name: SCTP_RECVRCVINFO,
                value: spec_switch_bytes(on),
            }),
    {
        request_rcvinfo_internal(self.fd, on)
    }

    /// Asks for information about the next message with every message
    /// (`on`), or no longer.
    pub fn sctp_request_nxtinfo(&self, on: bool) -> (first: Step<SimpleOp, ()>)
        ensures
            first matches Step::Call(_, call) && call@ == (SyscallView::SetSockOpt {
                fd: self.spec_fd(),
                level: SOL_SCTP,
                name: SCTP_RECVNXTINFO,
                value: spec_switch_bytes(on),
            }),
    {
        request_nxtinfo_internal(self.fd, on)
    }

    /// Reads the status of the association `assoc_id`.
    pub fn sctp_get_status(&self, assoc_id: AssociationId) -> (first: Step<StatusOp, ConnStatus>)
        ensures
            first matches Step::Call(_, call) && call@ == (SyscallView::GetSockOpt {
                fd: self.spec_fd(),
                level: SOL_SCTP,
                name: SCTP_STATUS,
                value: spec_query_buffer(assoc_id, 176),
            }),
    {
        sctp_get_status_internal(self.fd, assoc_id)
    }

    /// Gives the descriptor up: the call that closes it. The socket is used
    /// up, so the descriptor is closed once.
    pub fn close(self) -> (call: Syscall)
        ensures
            call@ == spec_close(self.spec_fd()),
    {
        close_internal(self.fd)
    }
}

} // verus!
