//! A sans-I/O core for SCTP sockets on Linux.
//!
//! The crate holds everything about the SCTP sockets interface that can be
//! decided without touching the kernel: the byte layout of every structure
//! that crosses the system-call boundary, the numeric constants, and the
//! step-by-step protocol of the operations that have to wait for readiness.
//!
//! An operation is started by a method of one of the three kinds of socket,
//! [`SctpSocket`], [`Listener`] and [`ConnectedSocket`]. The method returns a
//! [`Step`]: a system call to make, a readiness to wait for, or the result.
//! A driver does what the step asks and hands the [`Outcome`] to the
//! operation's `step`, which returns the next step, until the operation is
//! done. The crate itself never calls the kernel and never blocks.
//!
//! All layouts and numbers are those of 64-bit little-endian Linux.

pub mod addr;
pub mod bytes;
pub mod cmsg;
pub mod connected_socket;
pub mod consts;
pub mod error;
pub mod internal;
pub mod listener;
pub mod notification;
pub mod socket;
pub mod syscall;
pub mod transition;
pub mod types;
pub mod wire;

pub use addr::SockAddr;
pub use connected_socket::ConnectedSocket;
pub use error::SctpError;
pub use listener::Listener;
pub use socket::SctpSocket;
pub use syscall::{Outcome, Step, Syscall};
pub use types::{
    AssocChangeState, AssociationChange, AssociationId, BindxFlags, CmsgType, ConnState,
    ConnStatus, Event, Notification, NotificationOrData, NxtInfo, PeerAddress, RcvInfo,
    ReceivedData, SendData, SendInfo, Shutdown, ShutdownHow, SocketToAssociation,
    SubscribeEventAssocId,
};
