//! The typed values that callers see.

use vstd::prelude::*;
use crate::addr::SockAddr;

verus! {

/// Identifies one association within a socket.
pub type AssociationId = i32;

/// Whether `sctp_bindx` adds or removes the addresses it is given.
#[derive(Debug, Clone, Copy, PartialEq, Eq)]
pub enum BindxFlags {
    /// Add the addresses.
    Add,
    /// Remove the addresses.
    Remove,
}

/// How many associations a socket carries.
#[derive(Debug, Clone, Copy, PartialEq, Eq)]
pub enum SocketToAssociation {
    /// One association per socket, as with TCP.
    OneToOne,
    /// Many associations per socket, as with UDP.
    OneToMany,
}

/// Which side of a connection `shutdown` closes.
#[derive(Debug, Clone, Copy, PartialEq, Eq)]
pub enum ShutdownHow {
    /// The receiving side.
    Read,
    /// The sending side.
    Write,
    /// Both sides.
    Both,
}

/// Ancillary information that accompanies a message to send.
#[derive(Debug, Default, Clone, Copy, PartialEq, Eq)]
pub struct SendInfo {
    /// Stream to send on.
    pub sid: u16,
    /// Send flags.
    pub flags: u16,
    /// Payload protocol identifier.
    pub ppid: u32,
    /// Opaque context.
    pub context: u32,
    /// Association to send on.
    pub assoc_id: AssociationId,
}

/// Ancillary information about a received message.
#[derive(Debug, Default, Clone, Copy, PartialEq, Eq)]
pub struct RcvInfo {
    /// Stream the message arrived on.
    pub sid: u16,
    /// Stream sequence number.
    pub ssn: u16,
    /// Receive flags.
    pub flags: u16,
    /// Payload protocol identifier.
    pub ppid: u32,
    /// Transmission sequence number.
    pub tsn: u32,
    /// Cumulative transmission sequence number.
    pub cumtsn: u32,
    /// Opaque context.
    pub context: u32,
    /// Association the message arrived on.
    pub assoc_id: AssociationId,
}

/// Ancillary information about the message that will be received next.
#[derive(Debug, Default, Clone, Copy, PartialEq, Eq)]
pub struct NxtInfo {
    /// Stream of the next message.
    pub sid: u16,
    /// Flags of the next message.
    pub flags: u16,
    /// Payload protocol identifier of the next message.
    pub ppid: u32,
    /// Length of the next message.
    pub length: u32,
    /// Association of the next message.
    pub assoc_id: AssociationId,
}

/// A received message with the ancillary information that came with it.
#[derive(Debug, Clone, PartialEq, Eq)]
pub struct ReceivedData {
    /// The message.
    pub payload: Vec<u8>,
    /// Information about this message, where it was requested.
    pub rcv_info: Option<RcvInfo>,
    /// Information about the next message, where it was requested.
    pub nxt_info: Option<NxtInfo>,
}

/// What a [`ReceivedData`] is, with its payload as a sequence.
pub struct ReceivedDataView {
    pub payload: Seq<u8>,
    pub rcv_info: Option<RcvInfo>,
    pub nxt_info: Option<NxtInfo>,
}

impl View for ReceivedData {
    type V = ReceivedDataView;

    open spec fn view(&self) -> ReceivedDataView {
        ReceivedDataView {
            payload: self.payload@,
            rcv_info: self.rcv_info,
            nxt_info: self.nxt_info,
        }
    }
}

/// A message to send with its optional ancillary information.
#[derive(Debug, Clone, PartialEq, Eq)]
pub struct SendData {
    /// The message.
    pub payload: Vec<u8>,
    /// How to send it, if not by the socket's defaults.
    pub snd_info: Option<SendInfo>,
}

/// The kinds of event a socket can subscribe to.
#[derive(Debug, Clone, Copy, PartialEq, Eq)]
pub enum Event {
    /// Ancillary information with every received message.
    DataIo,
    /// Change of an association's state.
    Association,
    /// Change of a peer address's state.
    Address,
    /// Failure to send a message.
    SendFailure,
    /// Error reported by the peer.
    PeerError,
    /// Shutdown by the peer.
    Shutdown,
    /// Partial delivery.
    PartialDelivery,
    /// Adaptation layer indication.
    AdaptationLayer,
    /// Authentication.
    Authentication,
    /// No user data outstanding.
    SenderDry,
    /// Stream reset.
    StreamReset,
    /// Association reset.
    AssociationReset,
    /// Stream change.
    StreamChange,
    /// Failure to send a message, in its newer form.
    SendFailureEvent,
    /// A type tag that stands for no known event.
    Unknown,
}

impl Event {
    /// The type tag of the event.
    pub open spec fn spec_to_u16(self) -> u16 {
        match self {
            Event::DataIo => 0x8000,
            Event::Association => 0x8001,
            Event::Address => 0x8002,
            Event::SendFailure => 0x8003,
            Event::PeerError => 0x8004,
            Event::Shutdown => 0x8005,
            Event::PartialDelivery => 0x8006,
            Event::AdaptationLayer => 0x8007,
            Event::Authentication => 0x8008,
            Event::SenderDry => 0x8009,
            Event::StreamReset => 0x800A,
            Event::AssociationReset => 0x800B,
            Event::StreamChange => 0x800C,
            Event::SendFailureEvent => 0x800D,
            Event::Unknown => 0x800E,
        }
    }

    /// The type tag of the event.
    pub fn to_u16(&self) -> (tag: u16)
        ensures
            tag == self.spec_to_u16(),
    {
        match self {
            Event::DataIo => 0x8000,
            Event::Association => 0x8001,
            Event::Address => 0x8002,
            Event::SendFailure => 0x8003,
            Event::PeerError => 0x8004,
            Event::Shutdown => 0x8005,
            Event::PartialDelivery => 0x8006,
            Event::AdaptationLayer => 0x8007,
            Event::Authentication => 0x8008,
            Event::SenderDry => 0x8009,
            Event::StreamReset => 0x800A,
            Event::AssociationReset => 0x800B,
            Event::StreamChange => 0x800C,
            Event::SendFailureEvent => 0x800D,
            Event::Unknown => 0x800E,
        }
    }

    /// The event that a type tag stands for: the one event with that tag,
    /// and `Unknown` for a tag that no other event has.
    pub open spec fn spec_from_u16(val: u16) -> Event {
        if 0x8000 <= val <= 0x800D {
            choose|e: Event| e.spec_to_u16() == val
        } else {
            Event::Unknown
        }
    }

    /// The event that a type tag stands for.
    pub fn from_u16(val: u16) -> (event: Event)
        ensures
            event == Event::spec_from_u16(val),
            0x8000 <= val <= 0x800D ==> event.spec_to_u16() == val,
            !(0x8000 <= val <= 0x800D) ==> event == Event::Unknown,
    {
        let event = match val {
            0x8000 => Event::DataIo,
            0x8001 => Event::Association,
            0x8002 => Event::Address,
            0x8003 => Event::SendFailure,
            0x8004 => Event::PeerError,
            0x8005 => Event::Shutdown,
            0x8006 => Event::PartialDelivery,
            0x8007 => Event::AdaptationLayer,
            0x8008 => Event::Authentication,
            0x8009 => Event::SenderDry,
            0x800A => Event::StreamReset,
            0x800B => Event::AssociationReset,
            0x800C => Event::StreamChange,
            0x800D => Event::SendFailureEvent,
            _ => Event::Unknown,
        };
        proof {
            if 0x8000 <= val <= 0x800D {
                assert(event.spec_to_u16() == val);
                let chosen = choose|e: Event| e.spec_to_u16() == val;
                assert(chosen == event);
            }
        }
        event
    }

    /// Every event is found again from its type tag.
    pub proof fn lemma_from_to_u16(event: Event)
        ensures
            Event::spec_from_u16(event.spec_to_u16()) == event,
    {
        let val = event.spec_to_u16();
        if 0x8000 <= val <= 0x800D {
            let chosen = choose|e: Event| e.spec_to_u16() == val;
            assert(chosen.spec_to_u16() == val);
        }
    }
}

/// The associations that an event subscription covers.
#[derive(Debug, Clone, Copy, PartialEq, Eq)]
pub enum SubscribeEventAssocId {
    /// Associations made from now on.
    Future,
    /// Associations that exist now.
    Current,
    /// All associations.
    All,
    /// The association with this id.
    Value(AssociationId),
}

impl SubscribeEventAssocId {
    /// The association id that the kernel is given for the subscription:
    /// 0, 1 and 2 for the three groups, and the id itself otherwise.
    pub open spec fn spec_assoc_id(self) -> AssociationId {
        match self {
            SubscribeEventAssocId::Future => 0,
            SubscribeEventAssocId::Current => 1,
            SubscribeEventAssocId::All => 2,
            SubscribeEventAssocId::Value(v) => v,
        }
    }
}

impl From<SubscribeEventAssocId> for AssociationId {
    fn from(value: SubscribeEventAssocId) -> (id: AssociationId) {
        match value {
            SubscribeEventAssocId::Future => 0,
            SubscribeEventAssocId::Current => 1,
            SubscribeEventAssocId::All => 2,
            SubscribeEventAssocId::Value(v) => v,
        }
    }
}

impl vstd::std_specs::convert::FromSpecImpl<SubscribeEventAssocId> for AssociationId {
    open spec fn obeys_from_spec() -> bool {
        true
    }

    open spec fn from_spec(value: SubscribeEventAssocId) -> AssociationId {
        value.spec_assoc_id()
    }
}

/// The states that an association-change notification reports.
#[derive(Clone, Copy, Debug, PartialEq, Eq)]
pub enum AssocChangeState {
    /// The association is up.
    CommUp,
    /// The association is lost.
    CommLost,
    /// The peer restarted.
    Restart,
    /// Shutdown is complete.
    ShutdownComplete,
    /// The association could not be started.
    CannotStartAssoc,
    /// A number that stands for no known state.
    Unknown,
}

impl AssocChangeState {
    /// The state that a number stands for.
    pub open spec fn spec_from_u16(val: u16) -> AssocChangeState {
        if val == 0 {
            AssocChangeState::CommUp
        } else if val == 1 {
            AssocChangeState::CommLost
        } else if val == 2 {
            AssocChangeState::Restart
        } else if val == 3 {
            AssocChangeState::ShutdownComplete
        } else if val == 4 {
            AssocChangeState::CannotStartAssoc
        } else {
            AssocChangeState::Unknown
        }
    }

    /// The state that a number stands for.
    pub fn from_u16(val: u16) -> (state: AssocChangeState)
        ensures
            state == AssocChangeState::spec_from_u16(val),
    {
        match val {
            0 => AssocChangeState::CommUp,
            1 => AssocChangeState::CommLost,
            2 => AssocChangeState::Restart,
            3 => AssocChangeState::ShutdownComplete,
            4 => AssocChangeState::CannotStartAssoc,
            _ => AssocChangeState::Unknown,
        }
    }
}

/// The types of SCTP control message.
#[derive(Debug, Clone, Copy, PartialEq, Eq)]
pub enum CmsgType {
    Init,
    SndRcv,
    SndInfo,
    RcvInfo,
    NxtInfo,
    PrInfo,
    AuthInfo,
    DstAddrV4,
    DstAddrV6,
}

impl CmsgType {
    /// The number of the type in a control message's header.
    pub open spec fn spec_to_i32(self) -> i32 {
        match self {
            CmsgType::Init => 0,
            CmsgType::SndRcv => 1,
            CmsgType::SndInfo => 2,
            CmsgType::RcvInfo => 3,
            CmsgType::NxtInfo => 4,
            CmsgType::PrInfo => 5,
            CmsgType::AuthInfo => 6,
            CmsgType::DstAddrV4 => 7,
            CmsgType::DstAddrV6 => 8,
        }
    }

    /// The number of the type in a control message's header.
    pub fn to_i32(&self) -> (tag: i32)
        ensures
            tag == self.spec_to_i32(),
    {
        match self {
            CmsgType::Init => 0,
            CmsgType::SndRcv => 1,
            CmsgType::SndInfo => 2,
            CmsgType::RcvInfo => 3,
            CmsgType::NxtInfo => 4,
            CmsgType::PrInfo => 5,
            CmsgType::AuthInfo => 6,
            CmsgType::DstAddrV4 => 7,
            CmsgType::DstAddrV6 => 8,
        }
    }
}

/// The states of an association.
#[derive(Debug, Clone, Copy, Default, PartialEq, Eq)]
pub enum ConnState {
    #[default]
    Empty,
    Closed,
    CookieWait,
    CookieEchoed,
    Established,
    ShutdownPending,
    ShutdownSent,
    ShutdownReceived,
    ShutdownAckSent,
    /// A number that stands for no known state.
    Unknown,
}

impl ConnState {
    /// The state that a number stands for.
    pub open spec fn spec_from_i32(val: i32) -> ConnState {
        if val == 0 {
            ConnState::Empty
        } else if val == 1 {
            ConnState::Closed
        } else if val == 2 {
            ConnState::CookieWait
        } else if val == 3 {
            ConnState::CookieEchoed
        } else if val == 4 {
            ConnState::Established
        } else if val == 5 {
            ConnState::ShutdownPending
        } else if val == 6 {
            ConnState::ShutdownSent
        } else if val == 7 {
            ConnState::ShutdownReceived
        } else if val == 8 {
            ConnState::ShutdownAckSent
        } else {
            ConnState::Unknown
        }
    }

    /// The state that a number stands for.
    pub fn from_i32(val: i32) -> (state: ConnState)
        ensures
            state == ConnState::spec_from_i32(val),
    {
        match val {
            0 => ConnState::Empty,
            1 => ConnState::Closed,
            2 => ConnState::CookieWait,
            3 => ConnState::CookieEchoed,
            4 => ConnState::Established,
            5 => ConnState::ShutdownPending,
            6 => ConnState::ShutdownSent,
            7 => ConnState::ShutdownReceived,
            8 => ConnState::ShutdownAckSent,
            _ => ConnState::Unknown,
        }
    }
}

/// Notification that an association changed its state.
#[derive(Debug, Clone, PartialEq, Eq)]
pub struct AssociationChange {
    /// Type of the notification.
    pub ev_type: Event,
    /// Notification flags.
    pub flags: u16,
    /// Length of the notification as the kernel states it.
    pub length: u32,
    /// The new state.
    pub state: AssocChangeState,
    /// Error code, where the state is one of failure.
    pub error: u16,
    /// Number of outbound streams.
    pub ob_streams: u16,
    /// Number of inbound streams.
    pub ib_streams: u16,
    /// The association.
    pub assoc_id: AssociationId,
    /// What follows the fixed fields, as it came.
    pub info: Vec<u8>,
}

/// What an [`AssociationChange`] is, with its trailing bytes as a sequence.
pub struct AssociationChangeView {
    pub ev_type: Event,
    pub flags: u16,
    pub length: u32,
    pub state: AssocChangeState,
    pub error: u16,
    pub ob_streams: u16,
    pub ib_streams: u16,
    pub assoc_id: AssociationId,
    pub info: Seq<u8>,
}

impl View for AssociationChange {
    type V = AssociationChangeView;

    open spec fn view(&self) -> AssociationChangeView {
        AssociationChangeView {
            ev_type: self.ev_type,
            flags: self.flags,
            length: self.length,
            state: self.state,
            error: self.error,
            ob_streams: self.ob_streams,
            ib_streams: self.ib_streams,
            assoc_id: self.assoc_id,
            info: self.info@,
        }
    }
}

/// Notification that the peer shut the association down.
#[derive(Debug, Clone, Copy, PartialEq, Eq)]
pub struct Shutdown {
    /// Type of the notification.
    pub ev_type: Event,
    /// Notification flags.
    pub flags: u16,
    /// Length of the notification as the kernel states it.
    pub length: u32,
    /// The association.
    pub assoc_id: AssociationId,
}

/// A notification from the kernel.
#[derive(Debug, Clone, PartialEq, Eq)]
pub enum Notification {
    /// An association changed its state.
    AssociationChange(AssociationChange),
    /// The peer shut an association down.
    Shutdown(Shutdown),
    /// A notification of a type that is not decoded.
    Unsupported,
}

/// What a [`Notification`] is.
pub enum NotificationView {
    AssociationChange(AssociationChangeView),
    Shutdown(Shutdown),
    Unsupported,
}

impl View for Notification {
    type V = NotificationView;

    open spec fn view(&self) -> NotificationView {
        match self {
            Notification::AssociationChange(change) => NotificationView::AssociationChange(
                change@,
            ),
            Notification::Shutdown(shutdown) => NotificationView::Shutdown(*shutdown),
            Notification::Unsupported => NotificationView::Unsupported,
        }
    }
}

/// What one receive yields: a notification or a message, never both.
#[derive(Debug, Clone, PartialEq, Eq)]
pub enum NotificationOrData {
    /// A notification from the kernel.
    Notification(Notification),
    /// A message from the peer.
    Data(ReceivedData),
}

/// What a [`NotificationOrData`] is.
pub enum NotificationOrDataView {
    Notification(NotificationView),
    Data(ReceivedDataView),
}

impl View for NotificationOrData {
    type V = NotificationOrDataView;

    open spec fn view(&self) -> NotificationOrDataView {
        match self {
            NotificationOrData::Notification(n) => NotificationOrDataView::Notification(n@),
            NotificationOrData::Data(d) => NotificationOrDataView::Data(d@),
        }
    }
}

/// One address of the peer and the state of the path to it.
#[derive(Debug, Clone, Copy, PartialEq, Eq)]
pub struct PeerAddress {
    pub assoc_id: AssociationId,
    pub address: SockAddr,
    pub state: i32,
    pub cwnd: u32,
    pub srtt: u32,
    pub rto: u32,
    pub mtu: u32,
}

/// The status of an association.
#[derive(Debug, Clone, PartialEq, Eq)]
pub struct ConnStatus {
    pub assoc_id: AssociationId,
    pub state: ConnState,
    pub rwnd: u32,
    pub unacked_data: u16,
    pub pending_data: u16,
    pub instreams: u16,
    pub outstreams: u16,
    pub fragmentation_pt: u32,
    pub peer_primary: PeerAddress,
}

} // verus!
