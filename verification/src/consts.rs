//! Numeric constants of the Linux sockets interface and of `linux/sctp.h`.

use vstd::prelude::*;

verus! {

/// Address family of IPv4 (`AF_INET`).
pub const AF_INET: i32 = 2;

/// Address family of IPv6 (`AF_INET6`).
pub const AF_INET6: i32 = 10;

/// Socket type of a one-to-one socket (`SOCK_STREAM`).
pub const SOCK_STREAM: i32 = 1;

/// Socket type of a one-to-many socket (`SOCK_SEQPACKET`).
pub const SOCK_SEQPACKET: i32 = 5;

/// Protocol number of SCTP (`IPPROTO_SCTP`).
pub const IPPROTO_SCTP: i32 = 132;

/// Socket option level of SCTP (`SOL_SCTP`).
pub const SOL_SCTP: i32 = 132;

/// Socket option that adds local addresses.
pub const SCTP_SOCKOPT_BINDX_ADD: i32 = 100;

/// Socket option that removes local addresses.
pub const SCTP_SOCKOPT_BINDX_REM: i32 = 101;

/// Socket option that peels an association off a one-to-many socket.
pub const SCTP_SOCKOPT_PEELOFF: i32 = 102;

/// Socket option that reads the peer's addresses.
pub const SCTP_GET_PEER_ADDRS: i32 = 108;

/// Socket option that reads the local addresses.
pub const SCTP_GET_LOCAL_ADDRS: i32 = 109;

/// Socket option that connects to a list of addresses.
pub const SCTP_SOCKOPT_CONNECTX: i32 = 110;

/// Socket option that connects to a list of addresses and reports the
/// association id, also on a non-blocking socket.
pub const SCTP_SOCKOPT_CONNECTX3: i32 = 111;

/// Socket option that subscribes to one event.
pub const SCTP_EVENT: i32 = 127;

/// Socket option that sets the parameters of new associations.
pub const SCTP_INITMSG: i32 = 2;

/// Socket option that reads the status of an association.
pub const SCTP_STATUS: i32 = 14;

/// Socket option that switches receive information on or off.
pub const SCTP_RECVRCVINFO: i32 = 32;

/// Socket option that switches information about the next message on or off.
pub const SCTP_RECVNXTINFO: i32 = 33;

/// Socket option that sets the default send information.
pub const SCTP_DEFAULT_SNDINFO: i32 = 34;

/// Flag that the kernel sets on a received message that is a notification.
pub const MSG_NOTIFICATION: u32 = 0x8000;

/// Type tag of the association-change notification.
pub const SCTP_ASSOC_CHANGE: u16 = 0x8001;

/// Type tag of the shutdown notification.
pub const SCTP_SHUTDOWN_EVENT: u16 = 0x8005;

/// `fcntl` command that reads the status flags of a descriptor.
pub const F_GETFL: i32 = 3;

/// `fcntl` command that writes the status flags of a descriptor.
pub const F_SETFL: i32 = 4;

/// Status flag of a non-blocking descriptor.
pub const O_NONBLOCK: i32 = 0x800;

/// `shutdown` of the receiving side.
pub const SHUT_RD: i32 = 0;

/// `shutdown` of the sending side.
pub const SHUT_WR: i32 = 1;

/// `shutdown` of both sides.
pub const SHUT_RDWR: i32 = 2;

/// Error code: the call would block (`EWOULDBLOCK`, equal to `EAGAIN`).
pub const EWOULDBLOCK: i32 = 11;

/// Error code: invalid argument.
pub const EINVAL: i32 = 22;

/// Error code: operation not supported.
pub const EOPNOTSUPP: i32 = 95;

/// Error code: connection refused.
pub const ECONNREFUSED: i32 = 111;

/// Error code: the operation is in progress.
pub const EINPROGRESS: i32 = 115;

} // verus!
