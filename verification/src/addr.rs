//! Socket addresses and their form in kernel structures.
//!
//! The kernel takes and returns addresses as `sockaddr_in` and
//! `sockaddr_in6` records: 16 and 28 bytes that start with the address
//! family. A list of addresses is these records one behind the other.

use vstd::prelude::*;
use crate::bytes::{
    be16, bytes_be16, bytes_le16, bytes_le32, bytes_le_i32, le16, le32, le_i32, lemma_be16_written,
    lemma_le16_written, lemma_le32_written, lemma_le_i32_written, push_be16, push_le16, push_le32,
    push_zeros, read_be16, read_le16, read_le32, read_le_i32, zeros,
};
use crate::consts::{AF_INET, AF_INET6};
use crate::error::SctpError;

verus! {

/// Size of a `sockaddr_in` record.
pub const SOCKADDR_IN_LEN: usize = 16;

/// Size of a `sockaddr_in6` record.
pub const SOCKADDR_IN6_LEN: usize = 28;

/// Size of the head of an address list: the association id and the number
/// of addresses.
pub const ADDR_LIST_HEAD_LEN: usize = 8;

/// An IPv4 or IPv6 socket address.
///
/// The IP address is held as its octets in network order, the other fields
/// as numbers.
#[derive(Debug, Clone, Copy, PartialEq, Eq)]
#[allow(inconsistent_fields)]
pub enum SockAddr {
    /// An IPv4 address and a port.
    V4 { ip: [u8; 4], port: u16 },
    /// An IPv6 address, a port, the flow information and the scope.
    V6 { ip: [u8; 16], port: u16, flowinfo: u32, scope_id: u32 },
}

/// What a [`SockAddr`] is, with the octets as a sequence.
#[allow(inconsistent_fields)]
pub enum SockAddrView {
    V4 { ip: Seq<u8>, port: u16 },
    V6 { ip: Seq<u8>, port: u16, flowinfo: u32, scope_id: u32 },
}

impl View for SockAddr {
    type V = SockAddrView;

    open spec fn view(&self) -> SockAddrView {
        match self {
            SockAddr::V4 { ip, port } => SockAddrView::V4 { ip: ip@, port: *port },
            SockAddr::V6 { ip, port, flowinfo, scope_id } => SockAddrView::V6 {
                ip: ip@,
                port: *port,
                flowinfo: *flowinfo,
                scope_id: *scope_id,
            },
        }
    }
}

/// The views of a sequence of addresses.
pub open spec fn views(addrs: Seq<SockAddr>) -> Seq<SockAddrView> {
    addrs.map_values(|a: SockAddr| a@)
}

/// The record of one address: family, port in network order, then for IPv4
/// the four octets and eight bytes of zero, for IPv6 the flow information,
/// the sixteen octets and the scope.
pub open spec fn spec_encode_addr(addr: SockAddrView) -> Seq<u8> {
    match addr {
        SockAddrView::V4 { ip, port } => bytes_le16(AF_INET as u16) + bytes_be16(port) + ip
            + zeros(8),
        SockAddrView::V6 { ip, port, flowinfo, scope_id } => bytes_le16(AF_INET6 as u16)
            + bytes_be16(port) + bytes_le32(flowinfo) + ip + bytes_le32(scope_id),
    }
}

/// The records of a list of addresses, one behind the other.
pub open spec fn spec_encode_addrs(addrs: Seq<SockAddr>) -> Seq<u8>
    decreases addrs.len(),
{
    if addrs.len() == 0 {
        Seq::empty()
    } else {
        spec_encode_addr(addrs[0]@) + spec_encode_addrs(addrs.subrange(1, addrs.len() as int))
    }
}

/// The address whose record starts at `at`, and the size of that record.
///
/// The family decides the size. A record that does not fit in the buffer
/// is `Truncated`; a family other than IPv4 and IPv6 is
/// `UnsupportedAddressFamily`.
pub open spec fn spec_decode_addr(s: Seq<u8>, at: int) -> Result<(SockAddrView, int), SctpError> {
    if at + 2 > s.len() {
        Err(SctpError::Truncated)
    } else if le16(s, at) == AF_INET {
        if at + 16 > s.len() {
            Err(SctpError::Truncated)
        } else {
            Ok((SockAddrView::V4 { ip: s.subrange(at + 4, at + 8), port: be16(s, at + 2) }, 16))
        }
    } else if le16(s, at) == AF_INET6 {
        if at + 28 > s.len() {
            Err(SctpError::Truncated)
        } else {
            Ok(
                (
                    SockAddrView::V6 {
                        ip: s.subrange(at + 8, at + 24),
                        port: be16(s, at + 2),
                        flowinfo: le32(s, at + 4),
                        scope_id: le32(s, at + 24),
                    },
                    28,
                ),
            )
        }
    } else {
        Err(SctpError::UnsupportedAddressFamily)
    }
}

/// The `count` addresses whose records start at `at`, or the error of the
/// first record that cannot be read. Nothing behind the last of the
/// `count` records is looked at.
pub open spec fn spec_decode_addrs(s: Seq<u8>, at: int, count: nat) -> Result<
    Seq<SockAddrView>,
    SctpError,
>
    decreases count,
{
    if count == 0 {
        Ok(Seq::empty())
    } else {
        match spec_decode_addr(s, at) {
            Err(e) => Err(e),
            Ok((addr, width)) => match spec_decode_addrs(s, at + width, (count - 1) as nat) {
                Err(e) => Err(e),
                Ok(rest) => Ok(seq![addr] + rest),
            },
        }
    }
}

/// The number of addresses that an address list announces: the signed
/// number at offset 4, and none where that number is negative.
pub open spec fn spec_addr_count(s: Seq<u8>) -> nat {
    if le_i32(s, 4) > 0 {
        le_i32(s, 4) as nat
    } else {
        0
    }
}

/// The addresses of an address list as the kernel returns it: the
/// association id, the number of addresses, and that many records.
pub open spec fn spec_decode_addr_list(s: Seq<u8>) -> Result<Seq<SockAddrView>, SctpError> {
    if s.len() < 8 {
        Err(SctpError::Truncated)
    } else {
        spec_decode_addrs(s, 8, spec_addr_count(s))
    }
}

/// An address list as the kernel returns it.
pub open spec fn spec_addr_list(assoc_id: i32, addrs: Seq<SockAddr>) -> Seq<u8> {
    bytes_le_i32(assoc_id) + bytes_le_i32(addrs.len() as i32) + spec_encode_addrs(addrs)
}

/// Appends all of `src`.
pub fn push_all(out: &mut Vec<u8>, src: &[u8])
    ensures
        final(out)@ == old(out)@ + src@,
{
    let mut i: usize = 0;
    while i < src.len()
        invariant
            i <= src@.len(),
            out@ == old(out)@ + src@.subrange(0, i as int),
        decreases src@.len() - i,
    {
        out.push(src[i]);
        i += 1;
    }
    assert(src@.subrange(0, i as int) =~= src@);
}

/// Appends the record of `addr`.
pub fn push_addr(out: &mut Vec<u8>, addr: &SockAddr)
    ensures
        final(out)@ == old(out)@ + spec_encode_addr(addr@),
{
    match addr {
        SockAddr::V4 { ip, port } => {
            push_le16(out, AF_INET as u16);
            push_be16(out, *port);
            push_all(out, ip.as_slice());
            push_zeros(out, 8);
        },
        SockAddr::V6 { ip, port, flowinfo, scope_id } => {
            push_le16(out, AF_INET6 as u16);
            push_be16(out, *port);
            push_le32(out, *flowinfo);
            push_all(out, ip.as_slice());
            push_le32(out, *scope_id);
        },
    }
    assert(out@ =~= old(out)@ + spec_encode_addr(addr@));
}

/// The record of one address.
pub fn encode_addr(addr: &SockAddr) -> (out: Vec<u8>)
    ensures
        out@ == spec_encode_addr(addr@),
{
    let mut out: Vec<u8> = Vec::new();
    push_addr(&mut out, addr);
    out
}

/// The records of a list of addresses, one behind the other: what
/// `sctp_bindx` and `sctp_connectx` hand to the kernel.
pub fn encode_addrs(addrs: &[SockAddr]) -> (out: Vec<u8>)
    ensures
        out@ == spec_encode_addrs(addrs@),
{
    let mut out: Vec<u8> = Vec::new();
    let mut i: usize = 0;
    assert(addrs@.subrange(0, addrs@.len() as int) =~= addrs@);
    while i < addrs.len()
        invariant
            i <= addrs@.len(),
            out@ + spec_encode_addrs(addrs@.subrange(i as int, addrs@.len() as int))
                == spec_encode_addrs(addrs@),
        decreases addrs@.len() - i,
    {
        let ghost rest = addrs@.subrange(i as int, addrs@.len() as int);
        assert(rest.subrange(1, rest.len() as int) =~= addrs@.subrange(
            i + 1,
            addrs@.len() as int,
        ));
        assert(rest[0] == addrs@[i as int]);
        let ghost before = out@;
        push_addr(&mut out, &addrs[i]);
        assert(out@ + spec_encode_addrs(addrs@.subrange(i + 1, addrs@.len() as int)) =~= before
            + spec_encode_addrs(rest));
        i += 1;
    }
    out
}

/// Reads the record of one address at `at`; returns the address and the
/// size of its record.
pub fn decode_addr(buf: &[u8], at: usize) -> (r: Result<(SockAddr, usize), SctpError>)
    ensures
        match spec_decode_addr(buf@, at as int) {
            Ok((addr, width)) => r matches Ok((a, w)) && a@ == addr && w == width,
            Err(e) => r == Err::<(SockAddr, usize), SctpError>(e),
        },
        r matches Ok((_, w)) ==> at + w <= buf@.len(),
{
    let len: usize = buf.len();
    if at > len || len - at < 2 {
        return Err(SctpError::Truncated);
    }
    let family: u16 = read_le16(buf, at);
    if family as i32 == AF_INET {
        if len - at < SOCKADDR_IN_LEN {
            return Err(SctpError::Truncated);
        }
        let port: u16 = read_be16(buf, at + 2);
        let ip: [u8; 4] = [buf[at + 4], buf[at + 5], buf[at + 6], buf[at + 7]];
        assert(ip@ =~= buf@.subrange(at + 4, at + 8));
        Ok((SockAddr::V4 { ip, port }, SOCKADDR_IN_LEN))
    } else if family as i32 == AF_INET6 {
        if len - at < SOCKADDR_IN6_LEN {
            return Err(SctpError::Truncated);
        }
        let port: u16 = read_be16(buf, at + 2);
        let flowinfo: u32 = read_le32(buf, at + 4);
        let ip: [u8; 16] = [
            buf[at + 8],
            buf[at + 9],
            buf[at + 10],
            buf[at + 11],
            buf[at + 12],
            buf[at + 13],
            buf[at + 14],
            buf[at + 15],
            buf[at + 16],
            buf[at + 17],
            buf[at + 18],
            buf[at + 19],
            buf[at + 20],
            buf[at + 21],
            buf[at + 22],
            buf[at + 23],
        ];
        let scope_id: u32 = read_le32(buf, at + 24);
        assert(ip@ =~= buf@.subrange(at + 8, at + 24));
        Ok((SockAddr::V6 { ip, port, flowinfo, scope_id }, SOCKADDR_IN6_LEN))
    } else {
        Err(SctpError::UnsupportedAddressFamily)
    }
}

/// What `spec_decode_addrs` gives for the records behind those that were
/// read already, with the addresses read so far in front.
pub open spec fn spec_decode_rest(
    done: Seq<SockAddrView>,
    rest: Result<Seq<SockAddrView>, SctpError>,
) -> Result<Seq<SockAddrView>, SctpError> {
    match rest {
        Ok(addrs) => Ok(done + addrs),
        Err(e) => Err(e),
    }
}

/// Reads an address list as the kernel returns it.
///
/// The result is the announced number of addresses in their order, or the
/// error of the first record that cannot be read: `Truncated` where the
/// buffer ends before the head or within a record,
/// `UnsupportedAddressFamily` for a family other than IPv4 and IPv6.
pub fn decode_addr_list(buf: &[u8]) -> (r: Result<Vec<SockAddr>, SctpError>)
    ensures
        match spec_decode_addr_list(buf@) {
            Ok(addrs) => r matches Ok(v) && views(v@) == addrs,
            Err(e) => r == Err::<Vec<SockAddr>, SctpError>(e),
        },
{
    if buf.len() < ADDR_LIST_HEAD_LEN {
        return Err(SctpError::Truncated);
    }
    let announced: i32 = read_le_i32(buf, 4);
    let count: usize = if announced > 0 {
        announced as usize
    } else {
        0
    };
    let mut out: Vec<SockAddr> = Vec::new();
    let mut at: usize = ADDR_LIST_HEAD_LEN;
    let mut i: usize = 0;
    assert(views(out@) =~= Seq::<SockAddrView>::empty());
    assert(spec_decode_rest(views(out@), spec_decode_addrs(buf@, 8, count as nat))
        == spec_decode_addrs(buf@, 8, count as nat)) by {
        match spec_decode_addrs(buf@, 8, count as nat) {
            Ok(addrs) => {
                assert(views(out@) + addrs =~= addrs);
            },
            Err(_) => {},
        }
    }
    while i < count
        invariant
            i <= count,
            count == spec_addr_count(buf@),
            at <= buf@.len(),
            spec_decode_rest(views(out@), spec_decode_addrs(buf@, at as int, (count - i) as nat))
                == spec_decode_addr_list(buf@),
            8 <= buf@.len() <= usize::MAX,
        decreases count - i,
    {
        let ghost done = views(out@);
        match decode_addr(buf, at) {
            Err(e) => {
                return Err(e);
            },
            Ok((addr, width)) => {
                out.push(addr);
                proof {
                    let next = spec_decode_addrs(buf@, at + width, (count - i - 1) as nat);
                    assert(views(out@) =~= done + seq![addr@]);
                    match next {
                        Ok(rest) => {
                            assert(views(out@) + rest =~= done + (seq![addr@] + rest));
                        },
                        Err(_) => {},
                    }
                }
                at = at + width;
                i += 1;
            },
        }
    }
    proof {
        assert(views(out@) + Seq::<SockAddrView>::empty() =~= views(out@));
    }
    Ok(out)
}

/// An address list as the kernel returns it is read back as the addresses
/// it was made of, in their order, whatever stands behind it in the
/// buffer.
pub proof fn lemma_addr_list_round_trip(assoc_id: i32, addrs: Seq<SockAddr>, tail: Seq<u8>)
    requires
        addrs.len() <= i32::MAX,
    ensures
        spec_decode_addr_list(spec_addr_list(assoc_id, addrs) + tail) == Ok::<
            Seq<SockAddrView>,
            SctpError,
        >(views(addrs)),
{
    let head = bytes_le_i32(assoc_id) + bytes_le_i32(addrs.len() as i32);
    let s = spec_addr_list(assoc_id, addrs) + tail;
    assert(s =~= bytes_le_i32(assoc_id) + bytes_le_i32(addrs.len() as i32) + (spec_encode_addrs(
        addrs,
    ) + tail));
    lemma_le_i32_written(
        bytes_le_i32(assoc_id),
        addrs.len() as i32,
        spec_encode_addrs(addrs) + tail,
    );
    assert(s =~= head + spec_encode_addrs(addrs) + tail);
    lemma_records_round_trip(head, addrs, tail);
}

/// The records of a list of addresses are read back as those addresses,
/// wherever the records stand in a buffer.
pub proof fn lemma_records_round_trip(pre: Seq<u8>, addrs: Seq<SockAddr>, post: Seq<u8>)
    ensures
        spec_decode_addrs(pre + spec_encode_addrs(addrs) + post, pre.len() as int, addrs.len())
            == Ok::<Seq<SockAddrView>, SctpError>(views(addrs)),
    decreases addrs.len(),
{
    let s = pre + spec_encode_addrs(addrs) + post;
    if addrs.len() == 0 {
        assert(views(addrs) =~= Seq::<SockAddrView>::empty());
    } else {
        let first = addrs[0];
        let rest = addrs.subrange(1, addrs.len() as int);
        let record = spec_encode_addr(first@);
        let behind = spec_encode_addrs(rest) + post;
        assert(s =~= pre + record + behind);
        lemma_record_round_trip(pre, first, behind);
        assert(s =~= (pre + record) + spec_encode_addrs(rest) + post);
        lemma_records_round_trip(pre + record, rest, post);
        assert(views(addrs) =~= seq![first@] + views(rest));
    }
}

/// The record of one address is read back as that address, wherever the
/// record stands in a buffer.
pub proof fn lemma_record_round_trip(pre: Seq<u8>, addr: SockAddr, post: Seq<u8>)
    ensures
        spec_decode_addr(pre + spec_encode_addr(addr@) + post, pre.len() as int) == Ok::<
            (SockAddrView, int),
            SctpError,
        >((addr@, spec_encode_addr(addr@).len() as int)),
{
    let s = pre + spec_encode_addr(addr@) + post;
    let n = pre.len() as int;
    match addr {
        SockAddr::V4 { ip, port } => {
            let fam = bytes_le16(AF_INET as u16);
            let after_port = ip@ + zeros(8) + post;
            assert(s =~= pre + fam + (bytes_be16(port) + after_port));
            lemma_le16_written(pre, AF_INET as u16, bytes_be16(port) + after_port);
            assert(s =~= (pre + fam) + bytes_be16(port) + after_port);
            lemma_be16_written(pre + fam, port, after_port);
            assert(s.subrange(n + 4, n + 8) =~= ip@);
        },
        SockAddr::V6 { ip, port, flowinfo, scope_id } => {
            let fam = bytes_le16(AF_INET6 as u16);
            let after_port = bytes_le32(flowinfo) + ip@ + bytes_le32(scope_id) + post;
            assert(s =~= pre + fam + (bytes_be16(port) + after_port));
            lemma_le16_written(pre, AF_INET6 as u16, bytes_be16(port) + after_port);
            assert(s =~= (pre + fam) + bytes_be16(port) + after_port);
            lemma_be16_written(pre + fam, port, after_port);
            let after_flow = ip@ + bytes_le32(scope_id) + post;
            assert(s =~= (pre + fam + bytes_be16(port)) + bytes_le32(flowinfo) + after_flow);
            lemma_le32_written(pre + fam + bytes_be16(port), flowinfo, after_flow);
            assert(s =~= (pre + fam + bytes_be16(port) + bytes_le32(flowinfo) + ip@) + bytes_le32(
                scope_id,
            ) + post);
            lemma_le32_written(
                pre + fam + bytes_be16(port) + bytes_le32(flowinfo) + ip@,
                scope_id,
                post,
            );
            assert(s.subrange(n + 8, n + 24) =~= ip@);
        },
    }
}

/// The records of a list of one address are the record of that address,
/// which is 16 bytes long for IPv4 and 28 for IPv6.
pub proof fn lemma_encode_one(addr: SockAddr)
    ensures
        spec_encode_addrs(seq![addr]) == spec_encode_addr(addr@),
        addr is V4 ==> spec_encode_addr(addr@).len() == 16,
        addr is V6 ==> spec_encode_addr(addr@).len() == 28,
{
    let one = seq![addr];
    let rest = one.subrange(1, one.len() as int);
    assert(rest.len() == 0);
    assert(spec_encode_addrs(rest) =~= Seq::<u8>::empty());
    assert(spec_encode_addrs(one) =~= spec_encode_addr(one[0]@) + spec_encode_addrs(rest));
    assert(spec_encode_addrs(one) =~= spec_encode_addr(addr@));
}

/// Whether the records of `addrs` are few enough for their size to be
/// stated in a signed 32-bit number, as the connect option wants it.
pub fn connect_addrs_fit(addrs: &[SockAddr]) -> (fits: bool)
    ensures
        fits == (spec_encode_addrs(addrs@).len() <= i32::MAX),
{
    let n: usize = addrs.len();
    let mut i: usize = n;
    let mut total: u64 = 0;
    let mut fits: bool = true;
    assert(spec_encode_addrs(addrs@.subrange(n as int, n as int)) =~= Seq::<u8>::empty());
    while i > 0
        invariant
            i <= n,
            n == addrs@.len(),
            fits ==> total == spec_encode_addrs(addrs@.subrange(i as int, n as int)).len(),
            fits ==> total <= i32::MAX,
            !fits ==> spec_encode_addrs(addrs@.subrange(i as int, n as int)).len() > i32::MAX,
        decreases i,
    {
        i -= 1;
        let ghost longer = addrs@.subrange(i as int, n as int);
        proof {
            assert(longer.subrange(1, longer.len() as int) =~= addrs@.subrange(i + 1, n as int));
            assert(longer[0] == addrs@[i as int]);
            lemma_encode_one(addrs@[i as int]);
        }
        let width: u64 = match addrs[i] {
            SockAddr::V4 { .. } => 16,
            SockAddr::V6 { .. } => 28,
        };
        if fits {
            total = total + width;
            if total > 0x7fff_ffff {
                fits = false;
            }
        }
    }
    assert(addrs@.subrange(0, n as int) =~= addrs@);
    fits
}

} // verus!
