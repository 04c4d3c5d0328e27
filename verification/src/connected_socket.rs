//! A connected socket.

use vstd::prelude::*;
use crate::addr::SockAddr;
use crate::consts::{
    SCTP_DEFAULT_SNDINFO, SCTP_EVENT, SCTP_GET_LOCAL_ADDRS, SCTP_GET_PEER_ADDRS, SCTP_RECVNXTINFO,
    SCTP_RECVRCVINFO, SCTP_STATUS, SOL_SCTP,
};
use crate::cmsg::{spec_send_control, spec_sndinfo_bytes};
use crate::error::SctpError;
use crate::internal::{
    request_nxtinfo_internal, request_rcvinfo_internal, sctp_get_status_internal,
    sctp_getladdrs_internal, sctp_getpaddrs_internal, sctp_recvmsg_internal,
    sctp_sendmsg_internal, sctp_set_default_sendinfo_internal, sctp_subscribe_event_internal,
    shutdown_internal, spec_shutdown_how, GetAddrsOp, RecvOp, SendOp, SendOpView, SimpleOp,
    StatusOp,
};
use crate::syscall::{Step, Syscall, SyscallView};
use crate::transition::{close_internal, spec_close};
use crate::types::{
    AssociationId, BindxFlags, ConnStatus, Event, NotificationOrData, SendData, SendInfo,
    ShutdownHow, SubscribeEventAssocId,
};
use crate::wire::{spec_query_buffer, spec_switch_bytes, SubscribeEvent};

verus! {

/// A socket that stands for one association: made by accepting, by
/// connecting, or by peeling an association off a listening socket.
///
/// The value owns its descriptor. It cannot be copied, and
/// [`close`](ConnectedSocket::close) uses it up.
#[derive(Debug)]
pub struct ConnectedSocket {
    fd: i32,
}

impl ConnectedSocket {
    /// The descriptor that the socket owns.
    pub closed spec fn spec_fd(&self) -> i32 {
        self.fd
    }

    /// The connected socket that owns the descriptor `rawfd`.
    pub fn from_rawfd(rawfd: i32) -> (socket: ConnectedSocket)
        ensures
            socket.spec_fd() == rawfd,
    {
        ConnectedSocket { fd: rawfd }
    }

    /// The descriptor that the socket owns.
    pub fn as_raw_fd(&self) -> (fd: i32)
        ensures
            fd == self.spec_fd(),
    {
        self.fd
    }

    /// Shuts down one side of the socket or both.
    pub fn shutdown(&self, how: ShutdownHow) -> (first: Step<SimpleOp, ()>)
        ensures
            first matches Step::Call(_, call) && call@ == (SyscallView::Shutdown {
                fd: self.spec_fd(),
                how: spec_shutdown_how(how),
            }),
    {
        shutdown_internal(self.fd, how)
    }

    /// Adding and removing local addresses is not offered on a connected
    /// socket: the result is `NotSupported`, whatever the addresses and the
    /// flags, and no call is made.
    pub fn sctp_bindx(&self, addrs: &[SockAddr], flags: BindxFlags) -> (first: Step<SimpleOp, ()>)
        ensures
            first == Step::<SimpleOp, ()>::Done(Err(SctpError::NotSupported)),
    {
        Step::Done(Err(SctpError::NotSupported))
    }

    /// Reads the peer's addresses of the association `assoc_id`.
    pub fn sctp_getpaddrs(&self, assoc_id: AssociationId) -> (first: Step<
        GetAddrsOp,
        Vec<SockAddr>,
    >)
        ensures
            first matches Step::Call(_, call) && call@ == (SyscallView::GetSockOpt {
                fd: self.spec_fd(),
                level: SOL_SCTP,
                name: SCTP_GET_PEER_ADDRS,
                value: spec_query_buffer(assoc_id, 256),
            }),
    {
        sctp_getpaddrs_internal(self.fd, assoc_id)
    }

    /// Reads the local addresses of the association `assoc_id`.
    pub fn sctp_getladdrs(&self, assoc_id: AssociationId) -> (first: Step<
        GetAddrsOp,
        Vec<SockAddr>,
    >)
        ensures
            first matches Step::Call(_, call) && call@ == (SyscallView::GetSockOpt {
                fd: self.spec_fd(),
                level: SOL_SCTP,
                name: SCTP_GET_LOCAL_ADDRS,
                value: spec_query_buffer(assoc_id, 256),
            }),
    {
        sctp_getladdrs_internal(self.fd, assoc_id)
    }

    /// Receives one message or notification.
    pub fn sctp_recv(&self) -> (first: Step<RecvOp, NotificationOrData>)
        ensures
            first == Step::<RecvOp, NotificationOrData>::AwaitReadable(
                RecvOp::Waiting { fd: self.spec_fd() },
            ),
    {
        sctp_recvmsg_internal(self.fd)
    }

    /// Sends one message to the peer.
    pub fn sctp_send(&self, data: SendData) -> (first: Step<SendOp, ()>)
        ensures
            first matches Step::AwaitWritable(op) && op@ == (SendOpView::Waiting {
                fd: self.spec_fd(),
                name: Seq::empty(),
                payload: data.payload@,
                control: spec_send_control(data.snd_info),
            }),
    {
        sctp_sendmsg_internal(self.fd, None, data)
    }

    /// Subscribes to an event for the associations that `assoc_id` stands
    /// for.
    pub fn sctp_subscribe_event(
        &self,
        event: Event,
        assoc_id: SubscribeEventAssocId,
    ) -> (first: Step<SimpleOp, ()>)
        ensures
            first matches Step::Call(_, call) && call@ == (SyscallView::SetSockOpt {
                fd: self.spec_fd(),
                level: SOL_SCTP,
                name: SCTP_EVENT,
                value: (SubscribeEvent {
                    assoc_id: assoc_id.spec_assoc_id(),
                    event,
                    on: true,
                }).spec_to_bytes(),
            }),
    {
        sctp_subscribe_event_internal(self.fd, event, assoc_id, true)
    }

    /// Ends the subscription to an event for the associations that
    /// `assoc_id` stands for.
    pub fn sctp_unsubscribe_event(
        &self,
        event: Event,
        assoc_id: SubscribeEventAssocId,
    ) -> (first: Step<SimpleOp, ()>)
        ensures
            first matches Step::Call(_, call) && call@ == (SyscallView::SetSockOpt {
                fd: self.spec_fd(),
                level: SOL_SCTP,
                name: SCTP_EVENT,
                value: (SubscribeEvent {
                    assoc_id: assoc_id.spec_assoc_id(),
                    event,
                    on: false,
                }).spec_to_bytes(),
            }),
    {
        sctp_subscribe_event_internal(self.fd, event, assoc_id, false)
    }

    /// Asks for receive information with every message (`on`), or no longer.
    pub fn sctp_request_rcvinfo(&self, on: bool) -> (first: Step<SimpleOp, ()>)
        ensures
            first matches Step::Call(_, call) && call@ == (SyscallView::SetSockOpt {
                fd: self.spec_fd(),
                level: SOL_SCTP,
                name: SCTP_RECVRCVINFO,
                value: spec_switch_bytes(on),
            }),
    {
        request_rcvinfo_internal(self.fd, on)
    }

    /// Asks for information about the next message with every message
    /// (`on`), or no longer.
    pub fn sctp_request_nxtinfo(&self, on: bool) -> (first: Step<SimpleOp, ()>)
        ensures
            first matches Step::Call(_, call) && call@ == (SyscallView::SetSockOpt {
                fd: self.spec_fd(),
                level: SOL_SCTP,
                name: SCTP_RECVNXTINFO,
                value: spec_switch_bytes(on),
            }),
    {
        request_nxtinfo_internal(self.fd, on)
    }

    /// Reads the status of the association `assoc_id`.
    pub fn sctp_get_status(&self, assoc_id: AssociationId) -> (first: Step<StatusOp, ConnStatus>)
        ensures
            first matches Step::Call(_, call) && call@ == (SyscallView::GetSockOpt {
                fd: self.spec_fd(),
                level: SOL_SCTP,
                name: SCTP_STATUS,
                value: spec_query_buffer(assoc_id, 176),
            }),
    {
        sctp_get_status_internal(self.fd, assoc_id)
    }

    /// Sets the send information that messages without their own are sent
    /// with.
    pub fn sctp_set_default_sendinfo(&self, sendinfo: SendInfo) -> (first: Step<SimpleOp, ()>)
        ensures
            first matches Step::Call(_, call) && call@ == (SyscallView::SetSockOpt {
                fd: self.spec_fd(),
                level: SOL_SCTP,
                name: SCTP_DEFAULT_SNDINFO,
                value: spec_sndinfo_bytes(sendinfo),
            }),
    {
        sctp_set_default_sendinfo_internal(self.fd, sendinfo)
    }

    /// Gives the descriptor up: the call that closes it. The socket is used
    /// up, so the descriptor is closed once.
    pub fn close(self) -> (call: Syscall)
        ensures
            call@ == spec_close(self.spec_fd()),
    {
        close_internal(self.fd)
    }
}

} // verus!
