//! Control messages: the ancillary data beside a message.
//!
//! A control buffer is a chain of entries. Each entry starts with a header
//! of 16 bytes: the length of the entry (header and payload) as a 64-bit
//! number, the protocol level and the type, both 32-bit. The payload
//! follows the header, and the next entry starts at the next multiple of 8
//! behind the payload.

use vstd::prelude::*;
use crate::bytes::{
    bytes_le16, bytes_le32, bytes_le64, bytes_le_i32, le16, le32, le64, le_i32, push_le16,
    push_le32, push_le64, push_le_i32, read_le16, read_le32, read_le64, read_le_i32,
};
use crate::consts::IPPROTO_SCTP;
use crate::error::SctpError;
use crate::types::{CmsgType, NxtInfo, RcvInfo, SendInfo};

verus! {

/// Size of the header of a control message.
pub const CMSG_HDR_LEN: usize = 16;

/// Size of the payload that carries a [`RcvInfo`].
pub const RCVINFO_LEN: usize = 28;

/// Size of the payload that carries a [`NxtInfo`].
pub const NXTINFO_LEN: usize = 16;

/// Size of the payload that carries a [`SendInfo`].
pub const SNDINFO_LEN: usize = 16;

/// `n` rounded up to a multiple of 8.
pub open spec fn spec_cmsg_align(n: int) -> int {
    (n + 7) / 8 * 8
}

/// The room that a control message with a payload of `n` bytes takes in a
/// control buffer: the header and the payload, rounded up to a multiple
/// of 8.
pub open spec fn spec_cmsg_space(n: int) -> int {
    16 + spec_cmsg_align(n)
}

/// The length that the header of a control message with a payload of `n`
/// bytes states: the header and the payload, not rounded.
pub open spec fn spec_cmsg_len(n: int) -> int {
    16 + n
}

/// The room that a control message with a payload of `n` bytes takes in a
/// control buffer.
pub fn cmsg_space(n: u32) -> (room: u64)
    ensures
        room == spec_cmsg_space(n as int),
{
    16 + (n as u64 + 7) / 8 * 8
}

/// The length that the header of a control message with a payload of `n`
/// bytes states.
pub fn cmsg_len(n: u32) -> (len: u64)
    ensures
        len == spec_cmsg_len(n as int),
{
    16 + n as u64
}

/// Size of the control buffer for a receive: room for one message with a
/// [`RcvInfo`] and one with a [`NxtInfo`].
pub fn recv_control_len() -> (len: usize)
    ensures
        len == spec_cmsg_space(28) + spec_cmsg_space(16),
        len == 80,
{
    80
}

/// The [`RcvInfo`] whose 28 bytes start at `at`.
pub open spec fn spec_rcvinfo(s: Seq<u8>, at: int) -> RcvInfo {
    RcvInfo {
        sid: le16(s, at),
        ssn: le16(s, at + 2),
        flags: le16(s, at + 4),
        ppid: le32(s, at + 8),
        tsn: le32(s, at + 12),
        cumtsn: le32(s, at + 16),
        context: le32(s, at + 20),
        assoc_id: le_i32(s, at + 24),
    }
}

/// The [`NxtInfo`] whose 16 bytes start at `at`.
pub open spec fn spec_nxtinfo(s: Seq<u8>, at: int) -> NxtInfo {
    NxtInfo {
        sid: le16(s, at),
        flags: le16(s, at + 2),
        ppid: le32(s, at + 4),
        length: le32(s, at + 8),
        assoc_id: le_i32(s, at + 12),
    }
}

/// The 16 bytes of a [`SendInfo`].
pub open spec fn spec_sndinfo_bytes(info: SendInfo) -> Seq<u8> {
    bytes_le16(info.sid) + bytes_le16(info.flags) + bytes_le32(info.ppid) + bytes_le32(
        info.context,
    ) + bytes_le_i32(info.assoc_id)
}

/// The control buffer of a send: empty without send information, and with
/// it one control message of level SCTP and type `SndInfo` that carries
/// the 16 bytes of the information.
pub open spec fn spec_send_control(info: Option<SendInfo>) -> Seq<u8> {
    match info {
        None => Seq::empty(),
        Some(info) => bytes_le64(spec_cmsg_len(16) as u64) + bytes_le_i32(IPPROTO_SCTP)
            + bytes_le_i32(CmsgType::SndInfo.spec_to_i32()) + spec_sndinfo_bytes(info),
    }
}

/// Reads a [`RcvInfo`] at `at`.
pub fn read_rcvinfo(buf: &[u8], at: usize) -> (info: RcvInfo)
    requires
        at + 28 <= buf@.len(),
    ensures
        info == spec_rcvinfo(buf@, at as int),
{
    let len: usize = buf.len();
    RcvInfo {
        sid: read_le16(buf, at),
        ssn: read_le16(buf, at + 2),
        flags: read_le16(buf, at + 4),
        ppid: read_le32(buf, at + 8),
        tsn: read_le32(buf, at + 12),
        cumtsn: read_le32(buf, at + 16),
        context: read_le32(buf, at + 20),
        assoc_id: read_le_i32(buf, at + 24),
    }
}

/// Reads a [`NxtInfo`] at `at`.
pub fn read_nxtinfo(buf: &[u8], at: usize) -> (info: NxtInfo)
    requires
        at + 16 <= buf@.len(),
    ensures
        info == spec_nxtinfo(buf@, at as int),
{
    let len: usize = buf.len();
    NxtInfo {
        sid: read_le16(buf, at),
        flags: read_le16(buf, at + 2),
        ppid: read_le32(buf, at + 4),
        length: read_le32(buf, at + 8),
        assoc_id: read_le_i32(buf, at + 12),
    }
}

/// Appends the 16 bytes of a [`SendInfo`].
pub fn push_sndinfo(out: &mut Vec<u8>, info: &SendInfo)
    ensures
        final(out)@ == old(out)@ + spec_sndinfo_bytes(*info),
{
    push_le16(out, info.sid);
    push_le16(out, info.flags);
    push_le32(out, info.ppid);
    push_le32(out, info.context);
    push_le_i32(out, info.assoc_id);
    assert(out@ =~= old(out)@ + spec_sndinfo_bytes(*info));
}

/// The control buffer of a send.
pub fn encode_send_control(info: &Option<SendInfo>) -> (out: Vec<u8>)
    ensures
        out@ == spec_send_control(*info),
        info is None ==> out@.len() == 0,
        info is Some ==> out@.len() == spec_cmsg_space(16),
{
    let mut out: Vec<u8> = Vec::new();
    match info {
        None => {},
        Some(info) => {
            push_le64(&mut out, cmsg_len(SNDINFO_LEN as u32));
            push_le_i32(&mut out, IPPROTO_SCTP);
            push_le_i32(&mut out, CmsgType::SndInfo.to_i32());
            push_sndinfo(&mut out, info);
        },
    }
    assert(out@ =~= spec_send_control(*info));
    out
}

/// The ancillary information found in a control buffer.
#[derive(Debug, Clone, Copy, PartialEq, Eq)]
pub struct Ancillary {
    /// Information about the message received.
    pub rcv_info: Option<RcvInfo>,
    /// Information about the next message.
    pub nxt_info: Option<NxtInfo>,
}

/// What one entry adds to the information found so far.
///
/// The entry starts at `at` and is `len` bytes long, header included. An
/// entry of another level than SCTP, or of another type than `RcvInfo`
/// and `NxtInfo`, adds nothing. An entry of one of these two types whose
/// payload is shorter than the structure is `Truncated`.
pub open spec fn spec_entry(s: Seq<u8>, at: int, len: int, found: Ancillary) -> Result<
    Ancillary,
    SctpError,
> {
    let level = le_i32(s, at + 8);
    let ty = le_i32(s, at + 12);
    if level != IPPROTO_SCTP {
        Ok(found)
    } else if ty == CmsgType::RcvInfo.spec_to_i32() {
        if len - 16 < 28 {
            Err(SctpError::Truncated)
        } else {
            Ok(Ancillary { rcv_info: Some(spec_rcvinfo(s, at + 16)), nxt_info: found.nxt_info })
        }
    } else if ty == CmsgType::NxtInfo.spec_to_i32() {
        if len - 16 < 16 {
            Err(SctpError::Truncated)
        } else {
            Ok(Ancillary { rcv_info: found.rcv_info, nxt_info: Some(spec_nxtinfo(s, at + 16)) })
        }
    } else {
        Ok(found)
    }
}

/// The information found by walking the chain of entries from `at` on,
/// added to what was `found` before.
///
/// The chain ends where fewer than 16 bytes are left. An entry whose
/// stated length is less than its header, or more than what is left of the
/// buffer, is `Truncated`, and so is the whole walk.
pub open spec fn spec_walk(s: Seq<u8>, at: int, found: Ancillary) -> Result<Ancillary, SctpError>
    decreases s.len() + 8 - at,
{
    if at < 0 || s.len() - at < 16 {
        Ok(found)
    } else {
        let len = le64(s, at) as int;
        if len < 16 || len > s.len() - at {
            Err(SctpError::Truncated)
        } else {
            match spec_entry(s, at, len, found) {
                Err(e) => Err(e),
                Ok(next) => {
                    proof {
                        assert(len <= spec_cmsg_align(len) <= len + 7);
                    }
                    spec_walk(s, at + spec_cmsg_align(len), next)
                },
            }
        }
    }
}

/// The ancillary information in a control buffer.
pub open spec fn spec_ancillary(s: Seq<u8>) -> Result<Ancillary, SctpError> {
    spec_walk(s, 0, Ancillary { rcv_info: None, nxt_info: None })
}

/// Reads the ancillary information out of a control buffer.
///
/// `control` is the part of the control buffer that the kernel filled.
/// Entries of other levels and types are passed over; the last `RcvInfo`
/// and the last `NxtInfo` are returned. An entry that cannot be read makes
/// the result `Truncated`.
pub fn parse_control(control: &[u8]) -> (r: Result<Ancillary, SctpError>)
    ensures
        r == spec_ancillary(control@),
{
    let n: usize = control.len();
    let mut found = Ancillary { rcv_info: None, nxt_info: None };
    let mut at: usize = 0;
    while n - at >= CMSG_HDR_LEN
        invariant
            at <= n,
            n == control@.len(),
            spec_walk(control@, at as int, found) == spec_ancillary(control@),
        decreases n - at,
    {
        let ghost before = found;
        let stated: u64 = read_le64(control, at);
        if stated < 16 || stated > (n - at) as u64 {
            return Err(SctpError::Truncated);
        }
        let len: usize = stated as usize;
        let level: i32 = read_le_i32(control, at + 8);
        let ty: i32 = read_le_i32(control, at + 12);
        if level == IPPROTO_SCTP {
            if ty == CmsgType::RcvInfo.to_i32() {
                if len - CMSG_HDR_LEN < RCVINFO_LEN {
                    return Err(SctpError::Truncated);
                }
                found.rcv_info = Some(read_rcvinfo(control, at + CMSG_HDR_LEN));
            } else if ty == CmsgType::NxtInfo.to_i32() {
                if len - CMSG_HDR_LEN < NXTINFO_LEN {
                    return Err(SctpError::Truncated);
                }
                found.nxt_info = Some(read_nxtinfo(control, at + CMSG_HDR_LEN));
            }
        }
        let ghost next = at + spec_cmsg_align(len as int);
        proof {
            assert(spec_entry(control@, at as int, len as int, before) == Ok::<
                Ancillary,
                SctpError,
            >(found));
            assert(spec_cmsg_align(len as int) >= len);
            assert(spec_walk(control@, at as int, before) == spec_walk(control@, next, found));
        }
        let left: usize = n - at;
        if left - len < 8 {
            proof {
                assert(spec_walk(control@, next, found) == Ok::<Ancillary, SctpError>(found));
                assert(spec_walk(control@, n as int, found) == Ok::<Ancillary, SctpError>(found));
            }
            at = n;
        } else {
            let step: usize = (len + 7) / 8 * 8;
            at = at + step;
        }
    }
    Ok(found)
}

} // verus!
