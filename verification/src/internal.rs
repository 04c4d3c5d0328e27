//! The operations that all kinds of socket share.
//!
//! Each function here starts one operation on a descriptor: it returns the
//! first [`Step`]. The operation's `step` takes the outcome of what was
//! asked for and returns the next step.

use vstd::prelude::*;
use vstd::slice::slice_to_vec;
use crate::addr::{
    decode_addr_list, encode_addr, encode_addrs, spec_decode_addr_list, spec_encode_addr,
    spec_encode_addrs, views, SockAddr,
};
use crate::cmsg::{
    encode_send_control, parse_control, push_sndinfo, recv_control_len, spec_ancillary,
    spec_send_control, spec_sndinfo_bytes,
};
use crate::consts::{
    EWOULDBLOCK, MSG_NOTIFICATION, SCTP_DEFAULT_SNDINFO, SCTP_EVENT, SCTP_GET_LOCAL_ADDRS,
    SCTP_GET_PEER_ADDRS, SCTP_INITMSG, SCTP_RECVNXTINFO, SCTP_RECVRCVINFO, SCTP_SOCKOPT_BINDX_ADD,
    SCTP_SOCKOPT_BINDX_REM, SCTP_STATUS, SHUT_RD, SHUT_RDWR, SHUT_WR, SOL_SCTP,
};
use crate::error::SctpError;
use crate::notification::{decode_notification, spec_notification, spec_notification_complete};
use crate::syscall::{Outcome, Step, Syscall, SyscallView};
use crate::types::{
    AssociationId, BindxFlags, ConnStatus, Event, NotificationOrData, NotificationOrDataView,
    ReceivedData, ReceivedDataView, SendData, SendInfo, ShutdownHow, SubscribeEventAssocId,
};
use crate::wire::{
    decode_status, query_buffer, spec_query_buffer, spec_status_error, spec_status_of,
    spec_switch_bytes, switch_bytes, InitMsg, SubscribeEvent, GETADDRS_BUF_LEN, STATUS_LEN,
};

verus! {

/// Room for the payload of a received message.
pub const RECV_PAYLOAD_LEN: usize = 4096;

/// Room for the sender's address of a received message.
pub const RECV_NAME_LEN: usize = 256;

/// An operation of one call that comes to success or failure.
#[derive(Debug, Clone, Copy, PartialEq, Eq)]
pub struct SimpleOp {}

impl SimpleOp {
    /// Takes the outcome of the call: a negative return value is the
    /// kernel's error, anything else success.
    pub fn step(self, outcome: Outcome) -> (next: Step<SimpleOp, ()>)
        ensures
            next == Step::<SimpleOp, ()>::Done(outcome.spec_status()),
    {
        Step::Done(outcome.status())
    }
}

/// The socket option that adds or removes addresses.
pub open spec fn spec_bindx_option(flags: BindxFlags) -> i32 {
    match flags {
        BindxFlags::Add => SCTP_SOCKOPT_BINDX_ADD,
        BindxFlags::Remove => SCTP_SOCKOPT_BINDX_REM,
    }
}

/// Adds local addresses to a socket or removes them: sets the option for
/// adding or the option for removing to the records of `addrs`.
pub fn sctp_bindx_internal(fd: i32, addrs: &[SockAddr], flags: BindxFlags) -> (first: Step<
    SimpleOp,
    (),
>)
    ensures
        first matches Step::Call(_, call) && call@ == (SyscallView::SetSockOpt {
            fd,
            level: SOL_SCTP,
            name: spec_bindx_option(flags),
            value: spec_encode_addrs(addrs@),
        }),
{
    let name: i32 = match flags {
        BindxFlags::Add => SCTP_SOCKOPT_BINDX_ADD,
        BindxFlags::Remove => SCTP_SOCKOPT_BINDX_REM,
    };
    Step::Call(
        SimpleOp {  },
        Syscall::SetSockOpt { fd, level: SOL_SCTP, name, value: encode_addrs(addrs) },
    )
}

/// The number that `shutdown` takes for a side.
pub open spec fn spec_shutdown_how(how: ShutdownHow) -> i32 {
    match how {
        ShutdownHow::Read => SHUT_RD,
        ShutdownHow::Write => SHUT_WR,
        ShutdownHow::Both => SHUT_RDWR,
    }
}

/// Shuts down one side of a socket or both.
pub fn shutdown_internal(fd: i32, how: ShutdownHow) -> (first: Step<SimpleOp, ()>)
    ensures
        first matches Step::Call(_, call) && call@ == (SyscallView::Shutdown {
            fd,
            how: spec_shutdown_how(how),
        }),
{
    let how: i32 = match how {
        ShutdownHow::Read => SHUT_RD,
        ShutdownHow::Write => SHUT_WR,
        ShutdownHow::Both => SHUT_RDWR,
    };
    Step::Call(SimpleOp {  }, Syscall::Shutdown { fd, how })
}

/// Subscribes to an event (`on`) or ends the subscription: sets the event
/// option to the association id that stands for `assoc_id`, the event and
/// the switch.
pub fn sctp_subscribe_event_internal(
    fd: i32,
    event: Event,
    assoc_id: SubscribeEventAssocId,
    on: bool,
) -> (first: Step<SimpleOp, ()>)
    ensures
        first matches Step::Call(_, call) && call@ == (SyscallView::SetSockOpt {
            fd,
            level: SOL_SCTP,
            name: SCTP_EVENT,
            value: (SubscribeEvent {
                assoc_id: assoc_id.spec_assoc_id(),
                event,
                on,
            }).spec_to_bytes(),
        }),
{
    let subscriber = SubscribeEvent { assoc_id: AssociationId::from(assoc_id), event, on };
    Step::Call(
        SimpleOp {  },
        Syscall::SetSockOpt {
            fd,
            level: SOL_SCTP,
            name: SCTP_EVENT,
            value: subscriber.to_bytes(),
        },
    )
}

/// Sets the parameters of new associations.
pub fn sctp_setup_init_params_internal(
    fd: i32,
    ostreams: u16,
    istreams: u16,
    retries: u16,
    timeout: u16,
) -> (first: Step<SimpleOp, ()>)
    ensures
        first matches Step::Call(_, call) && call@ == (SyscallView::SetSockOpt {
            fd,
            level: SOL_SCTP,
            name: SCTP_INITMSG,
            value: (InitMsg { ostreams, istreams, retries, timeout }).spec_to_bytes(),
        }),
{
    let init_params = InitMsg { ostreams, istreams, retries, timeout };
    Step::Call(
        SimpleOp {  },
        Syscall::SetSockOpt {
            fd,
            level: SOL_SCTP,
            name: SCTP_INITMSG,
            value: init_params.to_bytes(),
        },
    )
}

/// Switches receive information with every message on or off.
pub fn request_rcvinfo_internal(fd: i32, on: bool) -> (first: Step<SimpleOp, ()>)
    ensures
        first matches Step::Call(_, call) && call@ == (SyscallView::SetSockOpt {
            fd,
            level: SOL_SCTP,
            name: SCTP_RECVRCVINFO,
            value: spec_switch_bytes(on),
        }),
{
    Step::Call(
        SimpleOp {  },
        Syscall::SetSockOpt {
            fd,
            level: SOL_SCTP,
            name: SCTP_RECVRCVINFO,
            value: switch_bytes(on),
        },
    )
}

/// Switches information about the next message with every message on or
/// off.
pub fn request_nxtinfo_internal(fd: i32, on: bool) -> (first: Step<SimpleOp, ()>)
    ensures
        first matches Step::Call(_, call) && call@ == (SyscallView::SetSockOpt {
            fd,
            level: SOL_SCTP,
            name: SCTP_RECVNXTINFO,
            value: spec_switch_bytes(on),
        }),
{
    Step::Call(
        SimpleOp {  },
        Syscall::SetSockOpt {
            fd,
            level: SOL_SCTP,
            name: SCTP_RECVNXTINFO,
            value: switch_bytes(on),
        },
    )
}

/// Sets the send information that messages without their own are sent
/// with.
pub fn sctp_set_default_sendinfo_internal(fd: i32, sendinfo: SendInfo) -> (first: Step<
    SimpleOp,
    (),
>)
    ensures
        first matches Step::Call(_, call) && call@ == (SyscallView::SetSockOpt {
            fd,
            level: SOL_SCTP,
            name: SCTP_DEFAULT_SNDINFO,
            value: spec_sndinfo_bytes(sendinfo),
        }),
{
    let mut value: Vec<u8> = Vec::new();
    push_sndinfo(&mut value, &sendinfo);
    assert(value@ =~= spec_sndinfo_bytes(sendinfo));
    Step::Call(
        SimpleOp {  },
        Syscall::SetSockOpt { fd, level: SOL_SCTP, name: SCTP_DEFAULT_SNDINFO, value },
    )
}

/// The operation that reads the addresses of an association.
#[derive(Debug, Clone, Copy, PartialEq, Eq)]
pub struct GetAddrsOp {}

/// Whether `r` is what reading an address list came to.
///
/// A failed call is the kernel's error. Else the buffer that came back is
/// read as an address list: `r` holds its addresses in their order, or
/// the error of reading it.
pub open spec fn spec_addrs_result(r: Result<Vec<SockAddr>, SctpError>, outcome: Outcome) -> bool {
    if outcome.ret < 0 {
        r == Err::<Vec<SockAddr>, SctpError>(SctpError::Os(outcome.errno))
    } else {
        match spec_decode_addr_list(outcome.data@) {
            Ok(addrs) => r matches Ok(v) && views(v@) == addrs,
            Err(e) => r == Err::<Vec<SockAddr>, SctpError>(e),
        }
    }
}

impl GetAddrsOp {
    /// Takes the outcome of the call and returns the step that follows.
    pub fn step(self, outcome: Outcome) -> (next: Step<GetAddrsOp, Vec<SockAddr>>)
        ensures
            next matches Step::Done(r) && spec_addrs_result(r, outcome),
    {
        if outcome.ret < 0 {
            Step::Done(Err(SctpError::Os(outcome.errno)))
        } else {
            Step::Done(decode_addr_list(outcome.data.as_slice()))
        }
    }
}

/// Reads the peer's or the local addresses of an association: gets the
/// option `option` with a buffer of 256 bytes that starts with the
/// association id.
pub fn sctp_getaddrs_internal(fd: i32, option: i32, assoc_id: AssociationId) -> (first: Step<
    GetAddrsOp,
    Vec<SockAddr>,
>)
    ensures
        first matches Step::Call(_, call) && call@ == (SyscallView::GetSockOpt {
            fd,
            level: SOL_SCTP,
            name: option,
            value: spec_query_buffer(assoc_id, 256),
        }),
{
    Step::Call(
        GetAddrsOp {  },
        Syscall::GetSockOpt {
            fd,
            level: SOL_SCTP,
            name: option,
            value: query_buffer(assoc_id, GETADDRS_BUF_LEN),
        },
    )
}

/// Reads the peer's addresses of an association.
pub fn sctp_getpaddrs_internal(fd: i32, assoc_id: AssociationId) -> (first: Step<
    GetAddrsOp,
    Vec<SockAddr>,
>)
    ensures
        first matches Step::Call(_, call) && call@ == (SyscallView::GetSockOpt {
            fd,
            level: SOL_SCTP,
            name: SCTP_GET_PEER_ADDRS,
            value: spec_query_buffer(assoc_id, 256),
        }),
{
    sctp_getaddrs_internal(fd, SCTP_GET_PEER_ADDRS, assoc_id)
}

/// Reads the local addresses of an association.
pub fn sctp_getladdrs_internal(fd: i32, assoc_id: AssociationId) -> (first: Step<
    GetAddrsOp,
    Vec<SockAddr>,
>)
    ensures
        first matches Step::Call(_, call) && call@ == (SyscallView::GetSockOpt {
            fd,
            level: SOL_SCTP,
            name: SCTP_GET_LOCAL_ADDRS,
            value: spec_query_buffer(assoc_id, 256),
        }),
{
    sctp_getaddrs_internal(fd, SCTP_GET_LOCAL_ADDRS, assoc_id)
}

/// The operation that reads the status of an association.
#[derive(Debug, Clone, Copy, PartialEq, Eq)]
pub struct StatusOp {}

/// Whether `r` is what reading a status came to.
///
/// A failed call is the kernel's error. Else the buffer that came back is
/// read as a status structure: `r` holds the status, or the error of
/// reading it.
pub open spec fn spec_status_result(r: Result<ConnStatus, SctpError>, outcome: Outcome) -> bool {
    if outcome.ret < 0 {
        r == Err::<ConnStatus, SctpError>(SctpError::Os(outcome.errno))
    } else {
        match spec_status_error(outcome.data@) {
            None => r matches Ok(status) && spec_status_of(status, outcome.data@),
            Some(e) => r == Err::<ConnStatus, SctpError>(e),
        }
    }
}

impl StatusOp {
    /// Takes the outcome of the call and returns the step that follows.
    pub fn step(self, outcome: Outcome) -> (next: Step<StatusOp, ConnStatus>)
        ensures
            next matches Step::Done(r) && spec_status_result(r, outcome),
    {
        if outcome.ret < 0 {
            Step::Done(Err(SctpError::Os(outcome.errno)))
        } else {
            Step::Done(decode_status(outcome.data.as_slice()))
        }
    }
}

/// Reads the status of an association: gets the status option with a
/// buffer of the size of the status structure that starts with the
/// association id.
pub fn sctp_get_status_internal(fd: i32, assoc_id: AssociationId) -> (first: Step<
    StatusOp,
    ConnStatus,
>)
    ensures
        first matches Step::Call(_, call) && call@ == (SyscallView::GetSockOpt {
            fd,
            level: SOL_SCTP,
            name: SCTP_STATUS,
            value: spec_query_buffer(assoc_id, 176),
        }),
{
    Step::Call(
        StatusOp {  },
        Syscall::GetSockOpt {
            fd,
            level: SOL_SCTP,
            name: SCTP_STATUS,
            value: query_buffer(assoc_id, STATUS_LEN),
        },
    )
}

/// The operation that receives one message or notification.
#[derive(Debug, Clone, Copy, PartialEq, Eq)]
pub enum RecvOp {
    /// Waits until the descriptor is readable.
    Waiting { fd: i32 },
    /// Waits for the outcome of `recvmsg`.
    Receiving { fd: i32 },
}

/// Whether the kernel marked a received message as a notification.
pub open spec fn spec_is_notification(flags: u32) -> bool {
    flags & MSG_NOTIFICATION != 0
}

/// Whether `r` is what a received message is.
///
/// A message that the kernel marked as a notification is that
/// notification, and `Truncated` where it is too short for one. Every
/// other message is data: the payload as it came, with the ancillary
/// information found in the control data; where the control data cannot
/// be read, the error of reading it.
pub open spec fn spec_received(r: Result<NotificationOrData, SctpError>, outcome: Outcome) -> bool {
    if spec_is_notification(outcome.flags) {
        if spec_notification_complete(outcome.data@) {
            r matches Ok(m) && m@ == NotificationOrDataView::Notification(
                spec_notification(outcome.data@),
            )
        } else {
            r == Err::<NotificationOrData, SctpError>(SctpError::Truncated)
        }
    } else {
        match spec_ancillary(outcome.control@) {
            Ok(found) => r matches Ok(m) && m@ == NotificationOrDataView::Data(
                ReceivedDataView {
                    payload: outcome.data@,
                    rcv_info: found.rcv_info,
                    nxt_info: found.nxt_info,
                },
            ),
            Err(e) => r == Err::<NotificationOrData, SctpError>(e),
        }
    }
}

/// Tells a received message apart: a notification or data with its
/// ancillary information.
pub fn received_message(outcome: Outcome) -> (r: Result<NotificationOrData, SctpError>)
    ensures
        spec_received(r, outcome),
{
    if outcome.flags & MSG_NOTIFICATION != 0 {
        match decode_notification(outcome.data.as_slice()) {
            Ok(notification) => Ok(NotificationOrData::Notification(notification)),
            Err(e) => Err(e),
        }
    } else {
        match parse_control(outcome.control.as_slice()) {
            Ok(found) => Ok(
                NotificationOrData::Data(
                    ReceivedData {
                        payload: outcome.data,
                        rcv_info: found.rcv_info,
                        nxt_info: found.nxt_info,
                    },
                ),
            ),
            Err(e) => Err(e),
        }
    }
}

/// The call that receives a message on `fd`.
pub open spec fn spec_recv_call(fd: i32) -> SyscallView {
    SyscallView::RecvMsg {
        fd,
        payload_capacity: 4096,
        name_capacity: 256,
        control_capacity: 80,
        flags: 0,
    }
}

impl RecvOp {
    /// Whether `next` is the step that follows when the operation is handed
    /// `outcome`.
    ///
    /// While waiting: a failed wait is the error; a descriptor that is
    /// readable is read from. While receiving: a call that would block
    /// waits again, any other failure is the kernel's error, and a message
    /// is told apart as [`spec_received`] says.
    pub open spec fn spec_step(
        self,
        outcome: Outcome,
        next: Step<RecvOp, NotificationOrData>,
    ) -> bool {
        match self {
            RecvOp::Waiting { fd } => if outcome.ret < 0 {
                next == Step::<RecvOp, NotificationOrData>::Done(Err(SctpError::Os(outcome.errno)))
            } else {
                next matches Step::Call(op, call) && op == (RecvOp::Receiving { fd }) && call@
                    == spec_recv_call(fd)
            },
            RecvOp::Receiving { fd } => if outcome.ret < 0 && outcome.errno == EWOULDBLOCK {
                next == Step::<RecvOp, NotificationOrData>::AwaitReadable(RecvOp::Waiting { fd })
            } else if outcome.ret < 0 {
                next == Step::<RecvOp, NotificationOrData>::Done(Err(SctpError::Os(outcome.errno)))
            } else {
                next matches Step::Done(r) && spec_received(r, outcome)
            },
        }
    }

    /// Takes the outcome of the wait or of the call and returns the step that
    /// follows.
    pub fn step(self, outcome: Outcome) -> (next: Step<RecvOp, NotificationOrData>)
        ensures
            self.spec_step(outcome, next),
    {
        match self {
            RecvOp::Waiting { fd } => {
                if outcome.ret < 0 {
                    Step::Done(Err(SctpError::Os(outcome.errno)))
                } else {
                    Step::Call(
                        RecvOp::Receiving { fd },
                        Syscall::RecvMsg {
                            fd,
                            payload_capacity: RECV_PAYLOAD_LEN,
                            name_capacity: RECV_NAME_LEN,
                            control_capacity: recv_control_len(),
                            flags: 0,
                        },
                    )
                }
            },
            RecvOp::Receiving { fd } => {
                if outcome.ret < 0 {
                    if outcome.errno == EWOULDBLOCK {
                        Step::AwaitReadable(RecvOp::Waiting { fd })
                    } else {
                        Step::Done(Err(SctpError::Os(outcome.errno)))
                    }
                } else {
                    Step::Done(received_message(outcome))
                }
            },
        }
    }
}

/// Receives one message or notification: waits until the descriptor is
/// readable.
pub fn sctp_recvmsg_internal(fd: i32) -> (first: Step<RecvOp, NotificationOrData>)
    ensures
        first == Step::<RecvOp, NotificationOrData>::AwaitReadable(RecvOp::Waiting { fd }),
{
    Step::AwaitReadable(RecvOp::Waiting { fd })
}

/// The operation that sends one message.
#[derive(Debug, Clone, PartialEq, Eq)]
pub enum SendOp {
    /// Waits until the descriptor is writable.
    Waiting { fd: i32, name: Vec<u8>, payload: Vec<u8>, control: Vec<u8> },
    /// Waits for the outcome of `sendmsg`.
    Sending { fd: i32, name: Vec<u8>, payload: Vec<u8>, control: Vec<u8> },
}

/// What a [`SendOp`] is, with its buffers as sequences.
pub enum SendOpView {
    Waiting { fd: i32, name: Seq<u8>, payload: Seq<u8>, control: Seq<u8> },
    Sending { fd: i32, name: Seq<u8>, payload: Seq<u8>, control: Seq<u8> },
}

impl View for SendOp {
    type V = SendOpView;

    open spec fn view(&self) -> SendOpView {
        match self {
            SendOp::Waiting { fd, name, payload, control } => SendOpView::Waiting {
                fd: *fd,
                name: name@,
                payload: payload@,
                control: control@,
            },
            SendOp::Sending { fd, name, payload, control } => SendOpView::Sending {
                fd: *fd,
                name: name@,
                payload: payload@,
                control: control@,
            },
        }
    }
}

impl SendOp {
    /// Whether `next` is the step that follows when the operation is handed
    /// `outcome`.
    ///
    /// While waiting: a failed wait is the error; on a descriptor that is
    /// writable the message is sent. While sending: a call that would
    /// block waits again with the same message, any other failure is the
    /// kernel's error, and anything else is success.
    pub open spec fn spec_step(self, outcome: Outcome, next: Step<SendOp, ()>) -> bool {
        match self@ {
            SendOpView::Waiting { fd, name, payload, control } => if outcome.ret < 0 {
                next == Step::<SendOp, ()>::Done(Err(SctpError::Os(outcome.errno)))
            } else {
                next matches Step::Call(op, call) && op@ == (SendOpView::Sending {
                    fd,
                    name,
                    payload,
                    control,
                }) && call@ == (SyscallView::SendMsg { fd, name, payload, control, flags: 0 })
            },
            SendOpView::Sending { fd, name, payload, control } => if outcome.ret < 0
                && outcome.errno == EWOULDBLOCK {
                next matches Step::AwaitWritable(op) && op@ == (SendOpView::Waiting {
                    fd,
                    name,
                    payload,
                    control,
                })
            } else if outcome.ret < 0 {
                next == Step::<SendOp, ()>::Done(Err(SctpError::Os(outcome.errno)))
            } else {
                next == Step::<SendOp, ()>::Done(Ok(()))
            },
        }
    }

    /// Takes the outcome of the wait or of the call and returns the step that
    /// follows.
    pub fn step(self, outcome: Outcome) -> (next: Step<SendOp, ()>)
        ensures
            self.spec_step(outcome, next),
    {
        match self {
            SendOp::Waiting { fd, name, payload, control } => {
                if outcome.ret < 0 {
                    Step::Done(Err(SctpError::Os(outcome.errno)))
                } else {
                    let call = Syscall::SendMsg {
                        fd,
                        name: slice_to_vec(name.as_slice()),
                        payload: slice_to_vec(payload.as_slice()),
                        control: slice_to_vec(control.as_slice()),
                        flags: 0,
                    };
                    Step::Call(SendOp::Sending { fd, name, payload, control }, call)
                }
            },
            SendOp::Sending { fd, name, payload, control } => {
                if outcome.ret < 0 {
                    if outcome.errno == EWOULDBLOCK {
                        Step::AwaitWritable(SendOp::Waiting { fd, name, payload, control })
                    } else {
                        Step::Done(Err(SctpError::Os(outcome.errno)))
                    }
                } else {
                    Step::Done(Ok(()))
                }
            },
        }
    }
}

/// The destination of a message as `sendmsg` takes it: the record of the
/// address, and nothing where there is none.
pub open spec fn spec_send_name(to: Option<SockAddr>) -> Seq<u8> {
    match to {
        Some(addr) => spec_encode_addr(addr@),
        None => Seq::empty(),
    }
}

/// Sends one message, to `to` or, without it, to the peer of the
/// association: waits until the descriptor is writable, with the message
/// made up of the destination, the payload and the control data for the
/// send information.
pub fn sctp_sendmsg_internal(fd: i32, to: Option<SockAddr>, data: SendData) -> (first: Step<
    SendOp,
    (),
>)
    ensures
        first matches Step::AwaitWritable(op) && op@ == (SendOpView::Waiting {
            fd,
            name: spec_send_name(to),
            payload: data.payload@,
            control: spec_send_control(data.snd_info),
        }),
{
    let name: Vec<u8> = match to {
        Some(addr) => encode_addr(&addr),
        None => Vec::new(),
    };
    let control: Vec<u8> = encode_send_control(&data.snd_info);
    Step::AwaitWritable(SendOp::Waiting { fd, name, payload: data.payload, control })
}

/// Receiving and sending never end with "would block": the operation
/// waits for readiness again, with the same message where it sends.
pub proof fn lemma_would_block_waits(
    receiving: RecvOp,
    sending: SendOp,
    outcome: Outcome,
    after_recv: Step<RecvOp, NotificationOrData>,
    after_send: Step<SendOp, ()>,
)
    requires
        outcome.ret < 0,
        outcome.errno == EWOULDBLOCK,
        receiving is Receiving,
        sending is Sending,
        receiving.spec_step(outcome, after_recv),
        sending.spec_step(outcome, after_send),
    ensures
        after_recv is AwaitReadable,
        after_send is AwaitWritable,
{
}

/// A receive that succeeds yields a notification or data, never both and
/// never neither: a notification exactly where the kernel marked the
/// message as one, and data with the payload as it came otherwise.
pub proof fn lemma_received_is_one_of_two(outcome: Outcome, message: NotificationOrData)
    requires
        spec_received(Ok(message), outcome),
    ensures
        message is Notification <==> spec_is_notification(outcome.flags),
        message is Data <==> !spec_is_notification(outcome.flags),
        message matches NotificationOrData::Data(data) ==> data.payload@ == outcome.data@,
{
}

/// A call that returns a negative number never counts as success: an
/// operation of one call ends with the kernel's error code as it is.
pub proof fn lemma_failure_is_reported(outcome: Outcome)
    requires
        outcome.ret < 0,
    ensures
        outcome.spec_status() == Err::<(), SctpError>(SctpError::Os(outcome.errno)),
        SctpError::Os(outcome.errno).spec_raw_os_error() == outcome.errno,
{
}

} // verus!
