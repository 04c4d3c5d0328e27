//! The fixed-layout structures that socket options take and return.

use vstd::prelude::*;
use vstd::slice::{slice_subrange, slice_to_vec};
use crate::addr::{decode_addr, spec_decode_addr, SockAddrView};
use crate::bytes::{
    bytes_le16, bytes_le32, bytes_le_i32, le16, le32, le_i32, lemma_le_i32_written, push_le16,
    push_le32, push_le_i32, push_zeros, read_le16, read_le32, read_le_i32, zeros,
};
use crate::error::SctpError;
use crate::types::{AssociationId, ConnState, ConnStatus, Event, PeerAddress};

verus! {

/// Size of the argument of the peel-off option.
pub const PEELOFF_ARG_LEN: usize = 8;

/// Size of the buffer that the kernel fills with an address list.
pub const GETADDRS_BUF_LEN: usize = 256;

/// Size of the status structure.
pub const STATUS_LEN: usize = 176;

/// Size of the storage that holds the primary peer address in the status
/// structure.
pub const SOCKADDR_STORAGE_LEN: usize = 128;

/// Argument of the peel-off option: the association to peel off, and on
/// return the descriptor of the new socket.
#[derive(Default, Debug, Clone, Copy, PartialEq, Eq)]
pub struct PeeloffArg {
    pub assoc_id: AssociationId,
    pub sd: i32,
}

impl PeeloffArg {
    /// The argument that asks for `assoc_id`.
    pub fn from_assoc_id(assoc_id: AssociationId) -> (arg: PeeloffArg)
        ensures
            arg == (PeeloffArg { assoc_id, sd: 0 }),
    {
        PeeloffArg { assoc_id, sd: 0 }
    }

    /// The eight bytes of the argument: the association id, then the
    /// descriptor.
    pub open spec fn spec_to_bytes(self) -> Seq<u8> {
        bytes_le_i32(self.assoc_id) + bytes_le_i32(self.sd)
    }

    /// The eight bytes of the argument.
    pub fn to_bytes(&self) -> (out: Vec<u8>)
        ensures
            out@ == self.spec_to_bytes(),
    {
        let mut out: Vec<u8> = Vec::new();
        push_le_i32(&mut out, self.assoc_id);
        push_le_i32(&mut out, self.sd);
        out
    }

    /// Reads the argument as the kernel returned it; `Truncated` where
    /// fewer than eight bytes came back.
    pub fn from_bytes(buf: &[u8]) -> (r: Result<PeeloffArg, SctpError>)
        ensures
            buf@.len() >= 8 ==> r == Ok::<PeeloffArg, SctpError>(
                PeeloffArg { assoc_id: le_i32(buf@, 0), sd: le_i32(buf@, 4) },
            ),
            buf@.len() < 8 ==> r == Err::<PeeloffArg, SctpError>(SctpError::Truncated),
    {
        if buf.len() < PEELOFF_ARG_LEN {
            return Err(SctpError::Truncated);
        }
        Ok(PeeloffArg { assoc_id: read_le_i32(buf, 0), sd: read_le_i32(buf, 4) })
    }
}

/// The argument of the peel-off option is read back as it was written:
/// the association id and the descriptor are each found at their place.
pub proof fn lemma_peeloff_arg_round_trip(arg: PeeloffArg, tail: Seq<u8>)
    ensures
        le_i32(arg.spec_to_bytes() + tail, 0) == arg.assoc_id,
        le_i32(arg.spec_to_bytes() + tail, 4) == arg.sd,
{
    let s = arg.spec_to_bytes() + tail;
    assert(s =~= Seq::<u8>::empty() + bytes_le_i32(arg.assoc_id) + (bytes_le_i32(arg.sd) + tail));
    lemma_le_i32_written(Seq::empty(), arg.assoc_id, bytes_le_i32(arg.sd) + tail);
    assert(s =~= bytes_le_i32(arg.assoc_id) + bytes_le_i32(arg.sd) + tail);
    lemma_le_i32_written(bytes_le_i32(arg.assoc_id), arg.sd, tail);
}

/// Parameters of new associations.
#[derive(Debug, Clone, Copy, PartialEq, Eq)]
pub struct InitMsg {
    /// Number of outbound streams to ask for.
    pub ostreams: u16,
    /// Largest number of inbound streams to accept.
    pub istreams: u16,
    /// Number of attempts to send the first message.
    pub retries: u16,
    /// Longest time between two attempts, in milliseconds.
    pub timeout: u16,
}

impl InitMsg {
    /// The eight bytes of the structure: the four numbers in their order.
    pub open spec fn spec_to_bytes(self) -> Seq<u8> {
        bytes_le16(self.ostreams) + bytes_le16(self.istreams) + bytes_le16(self.retries)
            + bytes_le16(self.timeout)
    }

    /// The eight bytes of the structure.
    pub fn to_bytes(&self) -> (out: Vec<u8>)
        ensures
            out@ == self.spec_to_bytes(),
    {
        let mut out: Vec<u8> = Vec::new();
        push_le16(&mut out, self.ostreams);
        push_le16(&mut out, self.istreams);
        push_le16(&mut out, self.retries);
        push_le16(&mut out, self.timeout);
        out
    }
}

/// Subscription to one event, or its end.
#[derive(Debug, Clone, Copy, PartialEq, Eq)]
pub struct SubscribeEvent {
    pub assoc_id: AssociationId,
    pub event: Event,
    pub on: bool,
}

impl SubscribeEvent {
    /// The eight bytes of the structure: the association id, the type tag
    /// of the event, one byte that is 1 for on and 0 for off, and one byte
    /// of padding.
    pub open spec fn spec_to_bytes(self) -> Seq<u8> {
        bytes_le_i32(self.assoc_id) + bytes_le16(self.event.spec_to_u16()) + seq![
            if self.on {
                1u8
            } else {
                0u8
            },
            0u8,
        ]
    }

    /// The eight bytes of the structure.
    pub fn to_bytes(&self) -> (out: Vec<u8>)
        ensures
            out@ == self.spec_to_bytes(),
    {
        let mut out: Vec<u8> = Vec::new();
        push_le_i32(&mut out, self.assoc_id);
        push_le16(&mut out, self.event.to_u16());
        out.push(if self.on {
            1u8
        } else {
            0u8
        });
        out.push(0u8);
        assert(out@ =~= self.spec_to_bytes());
        out
    }
}

/// The four bytes that switch an option on or off.
pub open spec fn spec_switch_bytes(on: bool) -> Seq<u8> {
    bytes_le32(
        if on {
            1u32
        } else {
            0u32
        },
    )
}

/// The four bytes that switch an option on or off.
pub fn switch_bytes(on: bool) -> (out: Vec<u8>)
    ensures
        out@ == spec_switch_bytes(on),
{
    let mut out: Vec<u8> = Vec::new();
    push_le32(&mut out, if on {
        1u32
    } else {
        0u32
    });
    out
}

/// A buffer of `len` bytes that starts with an association id and is zero
/// behind it: what the kernel is handed to fill in an address list or a
/// status.
pub open spec fn spec_query_buffer(assoc_id: AssociationId, len: nat) -> Seq<u8> {
    bytes_le_i32(assoc_id) + zeros((len - 4) as nat)
}

/// A buffer of `len` bytes that starts with an association id and is zero
/// behind it.
pub fn query_buffer(assoc_id: AssociationId, len: usize) -> (out: Vec<u8>)
    requires
        len >= 4,
    ensures
        out@ == spec_query_buffer(assoc_id, len as nat),
        out@.len() == len,
{
    let mut out: Vec<u8> = Vec::new();
    push_le_i32(&mut out, assoc_id);
    push_zeros(&mut out, len - 4);
    out
}

/// One peer address with its path metrics, as the kernel lays it out: the
/// address is the 128 bytes of a socket address storage.
#[derive(Debug, Clone, PartialEq, Eq)]
pub struct PeerAddrInternal {
    pub assoc_id: AssociationId,
    pub address: Vec<u8>,
    pub state: i32,
    pub cwnd: u32,
    pub srtt: u32,
    pub rto: u32,
    pub mtu: u32,
}

/// The status of an association, as the kernel lays it out.
#[derive(Debug, Clone, PartialEq, Eq)]
pub struct ConnStatusInternal {
    pub assoc_id: AssociationId,
    pub state: i32,
    pub rwnd: u32,
    pub unacked_data: u16,
    pub pending_data: u16,
    pub instreams: u16,
    pub outstreams: u16,
    pub fragmentation_pt: u32,
    pub peer_primary: PeerAddrInternal,
}

impl ConnStatusInternal {
    /// Whether the fields are those of the status structure in `s`: each
    /// number at its offset, and the address storage the 128 bytes from
    /// offset 28 on.
    pub open spec fn spec_read_from(self, s: Seq<u8>) -> bool {
        &&& self.assoc_id == le_i32(s, 0)
        &&& self.state == le_i32(s, 4)
        &&& self.rwnd == le32(s, 8)
        &&& self.unacked_data == le16(s, 12)
        &&& self.pending_data == le16(s, 14)
        &&& self.instreams == le16(s, 16)
        &&& self.outstreams == le16(s, 18)
        &&& self.fragmentation_pt == le32(s, 20)
        &&& self.peer_primary.assoc_id == le_i32(s, 24)
        &&& self.peer_primary.address@ == s.subrange(28, 156)
        &&& self.peer_primary.state == le_i32(s, 156)
        &&& self.peer_primary.cwnd == le32(s, 160)
        &&& self.peer_primary.srtt == le32(s, 164)
        &&& self.peer_primary.rto == le32(s, 168)
        &&& self.peer_primary.mtu == le32(s, 172)
    }

    /// Reads the status structure; `Truncated` where the buffer is shorter
    /// than the structure.
    pub fn from_bytes(buf: &[u8]) -> (r: Result<ConnStatusInternal, SctpError>)
        ensures
            buf@.len() >= 176 ==> (r matches Ok(status) && status.spec_read_from(buf@)),
            buf@.len() < 176 ==> r == Err::<ConnStatusInternal, SctpError>(SctpError::Truncated),
    {
        if buf.len() < STATUS_LEN {
            return Err(SctpError::Truncated);
        }
        let address: Vec<u8> = slice_to_vec(slice_subrange(buf, 28, 28 + SOCKADDR_STORAGE_LEN));
        Ok(
            ConnStatusInternal {
                assoc_id: read_le_i32(buf, 0),
                state: read_le_i32(buf, 4),
                rwnd: read_le32(buf, 8),
                unacked_data: read_le16(buf, 12),
                pending_data: read_le16(buf, 14),
                instreams: read_le16(buf, 16),
                outstreams: read_le16(buf, 18),
                fragmentation_pt: read_le32(buf, 20),
                peer_primary: PeerAddrInternal {
                    assoc_id: read_le_i32(buf, 24),
                    address,
                    state: read_le_i32(buf, 156),
                    cwnd: read_le32(buf, 160),
                    srtt: read_le32(buf, 164),
                    rto: read_le32(buf, 168),
                    mtu: read_le32(buf, 172),
                },
            },
        )
    }
}

impl PeerAddress {
    /// Whether `self` is `val` with its address storage read as `addr`.
    pub open spec fn spec_typed_from(self, val: PeerAddrInternal, addr: SockAddrView) -> bool {
        &&& self.assoc_id == val.assoc_id
        &&& self.address@ == addr
        &&& self.state == val.state
        &&& self.cwnd == val.cwnd
        &&& self.srtt == val.srtt
        &&& self.rto == val.rto
        &&& self.mtu == val.mtu
    }

    /// The typed form of a peer address: the address storage is read as the
    /// record of one address, and the numbers are kept. The error is that of
    /// reading the record: `UnsupportedAddressFamily` for a family other
    /// than IPv4 and IPv6.
    pub fn try_from(val: PeerAddrInternal) -> (r: Result<PeerAddress, SctpError>)
        ensures
            match spec_decode_addr(val.address@, 0) {
                Ok((addr, _)) => r matches Ok(peer) && peer.spec_typed_from(val, addr),
                Err(e) => r == Err::<PeerAddress, SctpError>(e),
            },
    {
        match decode_addr(val.address.as_slice(), 0) {
            Err(e) => Err(e),
            Ok((address, _)) => Ok(
                PeerAddress {
                    assoc_id: val.assoc_id,
                    address,
                    state: val.state,
                    cwnd: val.cwnd,
                    srtt: val.srtt,
                    rto: val.rto,
                    mtu: val.mtu,
                },
            ),
        }
    }
}

impl ConnStatus {
    /// Whether `self` is `val` with its state named and its primary peer
    /// address read as `addr`.
    pub open spec fn spec_typed_from(self, val: ConnStatusInternal, addr: SockAddrView) -> bool {
        &&& self.assoc_id == val.assoc_id
        &&& self.state == ConnState::spec_from_i32(val.state)
        &&& self.rwnd == val.rwnd
        &&& self.unacked_data == val.unacked_data
        &&& self.pending_data == val.pending_data
        &&& self.instreams == val.instreams
        &&& self.outstreams == val.outstreams
        &&& self.fragmentation_pt == val.fragmentation_pt
        &&& self.peer_primary.spec_typed_from(val.peer_primary, addr)
    }

    /// The typed form of a status. The error is that of the primary peer
    /// address.
    pub fn try_from(val: ConnStatusInternal) -> (r: Result<ConnStatus, SctpError>)
        ensures
            match spec_decode_addr(val.peer_primary.address@, 0) {
                Ok((addr, _)) => r matches Ok(status) && status.spec_typed_from(val, addr),
                Err(e) => r == Err::<ConnStatus, SctpError>(e),
            },
    {
        let ConnStatusInternal {
            assoc_id,
            state,
            rwnd,
            unacked_data,
            pending_data,
            instreams,
            outstreams,
            fragmentation_pt,
            peer_primary,
        } = val;
        match PeerAddress::try_from(peer_primary) {
            Err(e) => Err(e),
            Ok(peer_primary) => Ok(
                ConnStatus {
                    assoc_id,
                    state: ConnState::from_i32(state),
                    rwnd,
                    unacked_data,
                    pending_data,
                    instreams,
                    outstreams,
                    fragmentation_pt,
                    peer_primary,
                },
            ),
        }
    }
}

/// Whether `status` is what the status structure in `s` holds: the numbers
/// at their offsets, the state named, and the primary peer address read
/// from the record at the start of its storage.
pub open spec fn spec_status_of(status: ConnStatus, s: Seq<u8>) -> bool {
    &&& s.len() >= 176
    &&& spec_decode_addr(s.subrange(28, 156), 0) matches Ok((addr, _))
    &&& status.assoc_id == le_i32(s, 0)
    &&& status.state == ConnState::spec_from_i32(le_i32(s, 4))
    &&& status.rwnd == le32(s, 8)
    &&& status.unacked_data == le16(s, 12)
    &&& status.pending_data == le16(s, 14)
    &&& status.instreams == le16(s, 16)
    &&& status.outstreams == le16(s, 18)
    &&& status.fragmentation_pt == le32(s, 20)
    &&& status.peer_primary.assoc_id == le_i32(s, 24)
    &&& status.peer_primary.address@ == addr
    &&& status.peer_primary.state == le_i32(s, 156)
    &&& status.peer_primary.cwnd == le32(s, 160)
    &&& status.peer_primary.srtt == le32(s, 164)
    &&& status.peer_primary.rto == le32(s, 168)
    &&& status.peer_primary.mtu == le32(s, 172)
}

/// The error of reading a status structure, if there is one: `Truncated`
/// where the buffer is shorter than the structure, else the error of
/// reading the primary peer address from its storage.
pub open spec fn spec_status_error(s: Seq<u8>) -> Option<SctpError> {
    if s.len() < 176 {
        Some(SctpError::Truncated)
    } else {
        match spec_decode_addr(s.subrange(28, 156), 0) {
            Ok(_) => None,
            Err(e) => Some(e),
        }
    }
}

/// Reads the status of an association out of the structure that the kernel
/// filled: the status where the structure can be read, else the error of
/// reading it.
pub fn decode_status(buf: &[u8]) -> (r: Result<ConnStatus, SctpError>)
    ensures
        match spec_status_error(buf@) {
            None => r matches Ok(status) && spec_status_of(status, buf@),
            Some(e) => r == Err::<ConnStatus, SctpError>(e),
        },
{
    match ConnStatusInternal::from_bytes(buf) {
        Err(e) => Err(e),
        Ok(internal) => ConnStatus::try_from(internal),
    }
}

} // verus!
