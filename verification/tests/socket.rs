use sctp_rs::addr::{encode_addr, SockAddr};
use sctp_rs::cmsg::recv_control_len;
use sctp_rs::connected_socket::ConnectedSocket;
use sctp_rs::error::SctpError;
use sctp_rs::internal::{RecvOp, SendOp};
use sctp_rs::listener::Listener;
use sctp_rs::socket::SctpSocket;
use sctp_rs::syscall::{Outcome, Step, Syscall};
use sctp_rs::transition::{ConnectOp, ListenOp, OpenOp};
use sctp_rs::types::{
    AssocChangeState, BindxFlags, Event, Notification, NotificationOrData, ReceivedData, SendData,
    SocketToAssociation, SubscribeEventAssocId,
};

fn open_socket(assoc: SocketToAssociation, v4: bool, fd: i32) -> SctpSocket {
    let first = if v4 { SctpSocket::new_v4(assoc) } else { SctpSocket::new_v6(assoc) };
    let Step::Call(op, _) = first else { panic!("a call of socket") };
    let Step::Call(op, _) = op.step(Outcome::returned(fd)) else { panic!("a call of fcntl") };
    let Step::Call(op, _) = op.step(Outcome::returned(2)) else { panic!("a call of fcntl") };
    let Step::Done(Ok(socket)) = op.step(Outcome::returned(0)) else { panic!("a socket") };
    socket
}

fn create_socket_bind_and_listen(
    assoc: SocketToAssociation,
    fd: i32,
    port: u16,
) -> (Listener, SockAddr) {
    let socket = open_socket(assoc, true, fd);
    let bindaddr = SockAddr::V4 { ip: [127, 0, 0, 1], port };
    let Step::Call(op, _) = socket.bind(bindaddr) else { panic!("a call of setsockopt") };
    assert!(matches!(op.step(Outcome::returned(0)), Step::Done(Ok(()))));
    let Step::Call(op, call) = socket.listen(10) else { panic!("a call of listen") };
    assert_eq!(call, Syscall::Listen { fd, backlog: 10 });
    let Step::Done(Ok(listener)) = op.step(Outcome::returned(0)) else { panic!("a listener") };
    (listener, bindaddr)
}

fn connect(socket: SctpSocket, to: &[SockAddr], assoc_id: i32) -> (ConnectedSocket, i32) {
    let Step::Call(op, _) = socket.sctp_connectx(to) else { panic!("a connect call") };
    let mut param = vec![0u8; 16];
    param[..4].copy_from_slice(&assoc_id.to_le_bytes());
    let mut in_progress = Outcome::with_data(-1, param);
    in_progress.errno = 115;
    let Step::AwaitWritable(op) = op.step(in_progress) else { panic!("a wait") };
    let Step::Call(op, _) = op.step(Outcome::returned(0)) else { panic!("a status call") };
    let Step::Done(Ok(pair)) = op.step(Outcome::with_data(0, vec![0u8; 176])) else {
        panic!("a connected socket")
    };
    pair
}

fn send_on(step: Step<SendOp, ()>) -> Syscall {
    let Step::AwaitWritable(op) = step else { panic!("a wait") };
    let Step::Call(op, call) = op.step(Outcome::returned(0)) else { panic!("a call of sendmsg") };
    assert!(matches!(op.step(Outcome::returned(12)), Step::Done(Ok(()))));
    call
}

fn receive(step: Step<RecvOp, NotificationOrData>, outcome: Outcome) -> NotificationOrData {
    let Step::AwaitReadable(op) = step else { panic!("a wait") };
    let Step::Call(op, _) = op.step(Outcome::returned(0)) else { panic!("a call of recvmsg") };
    let Step::Done(Ok(received)) = op.step(outcome) else { panic!("a message") };
    received
}

fn rcvinfo_control(assoc_id: i32) -> Vec<u8> {
    let mut control = vec![44u8, 0, 0, 0, 0, 0, 0, 0, 132, 0, 0, 0, 3, 0, 0, 0];
    control.extend_from_slice(&[0u8; 24]);
    control.extend_from_slice(&assoc_id.to_le_bytes());
    control.extend_from_slice(&[0u8; 4]);
    control
}

fn nxtinfo_control(assoc_id: i32, length: u32) -> Vec<u8> {
    let mut control = vec![32u8, 0, 0, 0, 0, 0, 0, 0, 132, 0, 0, 0, 4, 0, 0, 0];
    control.extend_from_slice(&[0u8; 8]);
    control.extend_from_slice(&length.to_le_bytes());
    control.extend_from_slice(&assoc_id.to_le_bytes());
    control
}

fn assoc_change(state: u16, ob_streams: u16, ib_streams: u16, assoc_id: i32) -> Vec<u8> {
    let mut data = vec![0x01u8, 0x80, 0, 0, 20, 0, 0, 0];
    data.extend_from_slice(&state.to_le_bytes());
    data.extend_from_slice(&[0, 0]);
    data.extend_from_slice(&ob_streams.to_le_bytes());
    data.extend_from_slice(&ib_streams.to_le_bytes());
    data.extend_from_slice(&assoc_id.to_le_bytes());
    data
}

#[test]
fn open_asks_for_the_right_kind_of_socket() {
    let Step::Call(op, call) = SctpSocket::new_v4(SocketToAssociation::OneToOne) else {
        panic!("a call of socket")
    };
    assert_eq!(call, Syscall::Socket { domain: 2, ty: 1, protocol: 132 });
    assert_eq!(op, OpenOp::Creating { assoc: SocketToAssociation::OneToOne });
    let Step::Call(_, call) = SctpSocket::new_v6(SocketToAssociation::OneToMany) else {
        panic!("a call of socket")
    };
    assert_eq!(call, Syscall::Socket { domain: 10, ty: 5, protocol: 132 });
}

#[test]
fn open_makes_the_descriptor_non_blocking_at_once() {
    let Step::Call(op, _) = SctpSocket::new_v4(SocketToAssociation::OneToMany) else {
        panic!("a call of socket")
    };
    let Step::Call(op, call) = op.step(Outcome::returned(7)) else { panic!("a call of fcntl") };
    assert_eq!(call, Syscall::Fcntl { fd: 7, cmd: 3, arg: 0 });
    let Step::Call(op, call) = op.step(Outcome::returned(0x8002)) else {
        panic!("a call of fcntl")
    };
    assert_eq!(call, Syscall::Fcntl { fd: 7, cmd: 4, arg: 0x8802 });
    let Step::Done(Ok(socket)) = op.step(Outcome::returned(0)) else { panic!("a socket") };
    assert_eq!(socket.as_raw_fd(), 7);
    assert_eq!(socket.assoc(), SocketToAssociation::OneToMany);
    assert_eq!(socket.close(), Syscall::Close { fd: 7 });
}

#[test]
fn open_reports_the_error_of_the_kernel() {
    let Step::Call(op, _) = SctpSocket::new_v4(SocketToAssociation::OneToOne) else {
        panic!("a call of socket")
    };
    assert!(matches!(op.step(Outcome::failed(93)), Step::Done(Err(SctpError::Os(93)))));
}

#[test]
fn open_closes_a_descriptor_that_cannot_be_made_non_blocking() {
    let op = OpenOp::ReadingFlags { fd: 7, assoc: SocketToAssociation::OneToOne };
    let Step::Call(op, call) = op.step(Outcome::failed(9)) else { panic!("a call of close") };
    assert_eq!(call, Syscall::Close { fd: 7 });
    assert!(matches!(op.step(Outcome::returned(0)), Step::Done(Err(SctpError::Os(9)))));
    let op = OpenOp::WritingFlags { fd: 8, assoc: SocketToAssociation::OneToOne };
    let Step::Call(op, call) = op.step(Outcome::failed(1)) else { panic!("a call of close") };
    assert_eq!(call, Syscall::Close { fd: 8 });
    assert!(matches!(op.step(Outcome::failed(5)), Step::Done(Err(SctpError::Os(1)))));
}

#[test]
fn listen_closes_the_descriptor_on_failure() {
    let socket = open_socket(SocketToAssociation::OneToOne, true, 3);
    let Step::Call(op, _) = socket.listen(10) else { panic!("a call of listen") };
    assert_eq!(op, ListenOp::Listening { fd: 3, assoc: SocketToAssociation::OneToOne });
    let Step::Call(op, call) = op.step(Outcome::failed(98)) else { panic!("a call of close") };
    assert_eq!(call, Syscall::Close { fd: 3 });
    assert!(matches!(op.step(Outcome::returned(0)), Step::Done(Err(SctpError::Os(98)))));
}

#[test]
fn socket_connect_basic_send_recv_req_info_on_and_off() {
    let client_socket = open_socket(SocketToAssociation::OneToMany, true, 4);
    let Step::Call(op, call) = client_socket
        .sctp_subscribe_event(Event::Association, SubscribeEventAssocId::Current)
    else {
        panic!("a call of setsockopt")
    };
    assert_eq!(
        call,
        Syscall::SetSockOpt {
            fd: 4,
            level: 132,
            name: 127,
            value: vec![1, 0, 0, 0, 0x01, 0x80, 1, 0]
        }
    );
    assert!(matches!(op.step(Outcome::returned(0)), Step::Done(Ok(()))));

    let Step::Call(op, call) = client_socket.sctp_request_rcvinfo(true) else {
        panic!("a call of setsockopt")
    };
    assert_eq!(
        call,
        Syscall::SetSockOpt { fd: 4, level: 132, name: 32, value: vec![1, 0, 0, 0] }
    );
    assert!(matches!(op.step(Outcome::returned(0)), Step::Done(Ok(()))));

    let (listener, bindaddr) = create_socket_bind_and_listen(SocketToAssociation::OneToMany, 5, 8080);
    let (connected, assoc_id) = connect(client_socket, &[bindaddr], 17);
    assert_eq!(assoc_id, 17);
    assert_eq!(connected.as_raw_fd(), 4);

    let client_addr = SockAddr::V4 { ip: [127, 0, 0, 1], port: 40000 };
    let senddata = SendData { payload: b"hello world!".to_vec(), snd_info: None };
    let call = send_on(listener.sctp_send(client_addr, senddata.clone()));
    assert_eq!(
        call,
        Syscall::SendMsg {
            fd: 5,
            name: encode_addr(&client_addr),
            payload: b"hello world!".to_vec(),
            control: vec![],
            flags: 0
        }
    );

    let data = receive(
        connected.sctp_recv(),
        Outcome::message(b"hello world!".to_vec(), rcvinfo_control(assoc_id), 0x80),
    );
    assert!(matches!(data, NotificationOrData::Data(ReceivedData { .. })));
    if let NotificationOrData::Data(ReceivedData { payload, rcv_info, nxt_info }) = data {
        assert!(payload == b"hello world!".to_vec());
        assert!(rcv_info.is_some());
        assert_eq!(rcv_info.unwrap().assoc_id, assoc_id);
        assert!(nxt_info.is_none());
    }

    let Step::Call(op, call) = connected.sctp_request_rcvinfo(false) else {
        panic!("a call of setsockopt")
    };
    assert_eq!(
        call,
        Syscall::SetSockOpt { fd: 4, level: 132, name: 32, value: vec![0, 0, 0, 0] }
    );
    assert!(matches!(op.step(Outcome::returned(0)), Step::Done(Ok(()))));

    send_on(listener.sctp_send(client_addr, senddata));
    let data =
        receive(connected.sctp_recv(), Outcome::message(b"hello world!".to_vec(), vec![], 0x80));
    if let NotificationOrData::Data(ReceivedData { payload, rcv_info, nxt_info }) = data {
        assert!(payload == b"hello world!".to_vec());
        assert!(rcv_info.is_none());
        assert!(nxt_info.is_none());
    } else {
        panic!("data");
    }
}

#[test]
fn socket_send_recv_nxtinfo_test() {
    let client_socket = open_socket(SocketToAssociation::OneToMany, true, 4);
    let Step::Call(op, call) = client_socket.sctp_request_nxtinfo(true) else {
        panic!("a call of setsockopt")
    };
    assert_eq!(
        call,
        Syscall::SetSockOpt { fd: 4, level: 132, name: 33, value: vec![1, 0, 0, 0] }
    );
    assert!(matches!(op.step(Outcome::returned(0)), Step::Done(Ok(()))));

    let (_listener, bindaddr) =
        create_socket_bind_and_listen(SocketToAssociation::OneToMany, 5, 8081);
    let (connected, assoc_id) = connect(client_socket, &[bindaddr], 3);

    let data = receive(
        connected.sctp_recv(),
        Outcome::message(b"hello world!".to_vec(), nxtinfo_control(assoc_id, 12), 0x80),
    );
    if let NotificationOrData::Data(ReceivedData { payload, rcv_info, nxt_info }) = data {
        assert!(payload == b"hello world!".to_vec());
        assert!(rcv_info.is_none());
        assert!(nxt_info.is_some());
        assert_eq!(nxt_info.unwrap().length, 12);
        assert_eq!(nxt_info.unwrap().assoc_id, assoc_id);
    } else {
        panic!("data");
    }

    let data =
        receive(connected.sctp_recv(), Outcome::message(b"hello world!".to_vec(), vec![], 0x80));
    if let NotificationOrData::Data(ReceivedData { payload, rcv_info, nxt_info }) = data {
        assert!(payload == b"hello world!".to_vec());
        assert!(rcv_info.is_none());
        assert!(nxt_info.is_none());
    } else {
        panic!("data");
    }
}

#[test]
fn socket_init_params_set_ostreams_success() {
    let (listener, bindaddr) =
        create_socket_bind_and_listen(SocketToAssociation::OneToMany, 5, 8082);
    let Step::Call(op, call) =
        listener.sctp_subscribe_event(Event::Association, SubscribeEventAssocId::Future)
    else {
        panic!("a call of setsockopt")
    };
    assert_eq!(
        call,
        Syscall::SetSockOpt {
            fd: 5,
            level: 132,
            name: 127,
            value: vec![0, 0, 0, 0, 0x01, 0x80, 1, 0]
        }
    );
    assert!(matches!(op.step(Outcome::returned(0)), Step::Done(Ok(()))));

    let client_ostreams = 100;
    let client_istreams = 5;
    let client_socket = open_socket(SocketToAssociation::OneToMany, true, 4);
    let Step::Call(op, call) =
        client_socket.sctp_setup_init_params(client_ostreams, client_istreams, 0, 0)
    else {
        panic!("a call of setsockopt")
    };
    assert_eq!(
        call,
        Syscall::SetSockOpt { fd: 4, level: 132, name: 2, value: vec![100, 0, 5, 0, 0, 0, 0, 0] }
    );
    assert!(matches!(op.step(Outcome::returned(0)), Step::Done(Ok(()))));
    connect(client_socket, &[bindaddr], 1);

    let notification = receive(
        listener.sctp_recv(),
        Outcome::message(assoc_change(0, client_istreams, client_ostreams, 9), vec![], 0x8080),
    );
    if let NotificationOrData::Notification(Notification::AssociationChange(change)) = notification
    {
        assert!(change.ib_streams == client_ostreams);
        assert!(change.ob_streams == client_istreams);
        assert_eq!(change.state, AssocChangeState::CommUp);
        assert_eq!(change.assoc_id, 9);
        assert_eq!(change.ev_type, Event::Association);
    } else {
        panic!("an association change");
    }
}

#[test]
fn socket_sctp_req_recv_info_success() {
    let one2one_socket = open_socket(SocketToAssociation::OneToOne, true, 3);
    let Step::Call(op, _) = one2one_socket.sctp_request_rcvinfo(true) else {
        panic!("a call of setsockopt")
    };
    assert!(matches!(op.step(Outcome::returned(0)), Step::Done(Ok(()))));
    let one2many_socket = open_socket(SocketToAssociation::OneToMany, true, 4);
    let Step::Call(op, _) = one2many_socket.sctp_request_rcvinfo(true) else {
        panic!("a call of setsockopt")
    };
    assert!(matches!(op.step(Outcome::returned(0)), Step::Done(Ok(()))));
}

#[test]
fn test_bind_success() {
    let sctp_socket = open_socket(SocketToAssociation::OneToOne, true, 3);
    let Step::Call(op, call) = sctp_socket.bind(SockAddr::V4 { ip: [0, 0, 0, 0], port: 0 }) else {
        panic!("a call of setsockopt")
    };
    assert_eq!(
        call,
        Syscall::SetSockOpt {
            fd: 3,
            level: 132,
            name: 100,
            value: vec![2, 0, 0, 0, 0, 0, 0, 0, 0, 0, 0, 0, 0, 0, 0, 0]
        }
    );
    assert!(matches!(op.step(Outcome::returned(0)), Step::Done(Ok(()))));
}

#[test]
fn test_bindx_inaddr_any_add_success() {
    let sctp_socket = open_socket(SocketToAssociation::OneToOne, true, 3);
    let Step::Call(op, call) =
        sctp_socket.sctp_bindx(&[SockAddr::V4 { ip: [0, 0, 0, 0], port: 0 }], BindxFlags::Add)
    else {
        panic!("a call of setsockopt")
    };
    assert!(matches!(call, Syscall::SetSockOpt { fd: 3, level: 132, name: 100, .. }));
    assert!(matches!(op.step(Outcome::returned(0)), Step::Done(Ok(()))));
}

#[test]
fn test_bindx_inaddr6_any_add_success() {
    let sctp_socket = open_socket(SocketToAssociation::OneToOne, false, 3);
    let Step::Call(op, call) = sctp_socket.sctp_bindx(
        &[SockAddr::V6 { ip: [0; 16], port: 0, flowinfo: 0, scope_id: 0 }],
        BindxFlags::Add,
    ) else {
        panic!("a call of setsockopt")
    };
    let mut record = vec![10u8, 0];
    record.extend_from_slice(&[0u8; 26]);
    assert_eq!(call, Syscall::SetSockOpt { fd: 3, level: 132, name: 100, value: record });
    assert!(matches!(op.step(Outcome::returned(0)), Step::Done(Ok(()))));
}

#[test]
fn test_bindx_inaddr_any_add_and_remove_failure() {
    let sctp_socket = open_socket(SocketToAssociation::OneToOne, false, 3);
    let mut localhost = [0u8; 16];
    localhost[15] = 1;
    let addr = SockAddr::V6 { ip: localhost, port: 8080, flowinfo: 0, scope_id: 0 };
    let Step::Call(op, call) = sctp_socket.sctp_bindx(&[addr], BindxFlags::Add) else {
        panic!("a call of setsockopt")
    };
    assert!(matches!(call, Syscall::SetSockOpt { name: 100, .. }));
    assert!(matches!(op.step(Outcome::returned(0)), Step::Done(Ok(()))));

    let Step::Call(op, call) = sctp_socket.sctp_bindx(&[addr], BindxFlags::Remove) else {
        panic!("a call of setsockopt")
    };
    assert_eq!(
        call,
        Syscall::SetSockOpt { fd: 3, level: 132, name: 101, value: encode_addr(&addr) }
    );
    let result = op.step(Outcome::failed(22));
    assert!(matches!(result, Step::Done(Err(SctpError::Os(22)))));
}

#[test]
fn test_connect_no_listen_failure() {
    let client_socket = open_socket(SocketToAssociation::OneToMany, true, 4);
    let connect_addr = SockAddr::V4 { ip: [127, 0, 0, 53], port: 8080 };
    let Step::Call(op, call) = client_socket.connect(connect_addr) else {
        panic!("a connect call")
    };
    assert_eq!(
        call,
        Syscall::ConnectX {
            fd: 4,
            level: 132,
            name: 111,
            head: vec![0, 0, 0, 0, 16, 0, 0, 0],
            addrs: vec![2, 0, 0x1f, 0x90, 127, 0, 0, 53, 0, 0, 0, 0, 0, 0, 0, 0]
        }
    );
    let mut in_progress = Outcome::with_data(-1, vec![1, 0, 0, 0, 16, 0, 0, 0]);
    in_progress.errno = libc::EINPROGRESS;
    let Step::AwaitWritable(op) = op.step(in_progress) else { panic!("a wait") };
    assert_eq!(op, ConnectOp::Waiting { fd: 4, assoc_id: 1 });
    let Step::Call(op, call) = op.step(Outcome::returned(0)) else { panic!("a status call") };
    let mut query = vec![1u8, 0, 0, 0];
    query.extend_from_slice(&[0u8; 172]);
    assert_eq!(call, Syscall::GetSockOpt { fd: 4, level: 132, name: 14, value: query });
    let Step::Call(op, call) = op.step(Outcome::failed(libc::EINVAL)) else {
        panic!("a call of close")
    };
    assert_eq!(call, Syscall::Close { fd: 4 });
    let Step::Done(result) = op.step(Outcome::returned(0)) else { panic!("the end") };
    assert!(result.is_err());
    let err = result.err().unwrap();
    assert_eq!(err, SctpError::ConnectionRefused);
    assert_eq!(err.raw_os_error(), libc::ECONNREFUSED);
}

#[test]
fn connect_reports_other_errors_as_they_are() {
    let op = ConnectOp::Connecting { fd: 4 };
    let Step::Call(op, call) = op.step(Outcome::failed(101)) else { panic!("a call of close") };
    assert_eq!(call, Syscall::Close { fd: 4 });
    assert!(matches!(op.step(Outcome::returned(0)), Step::Done(Err(SctpError::Os(101)))));

    let op = ConnectOp::Checking { fd: 4, assoc_id: 1 };
    let Step::Call(op, _) = op.step(Outcome::failed(110)) else { panic!("a call of close") };
    assert_eq!(op, ConnectOp::Closing { error: SctpError::Os(110) });

    let op = ConnectOp::Waiting { fd: 4, assoc_id: 1 };
    let Step::Call(op, _) = op.step(Outcome::failed(9)) else { panic!("a call of close") };
    assert_eq!(op, ConnectOp::Closing { error: SctpError::Os(9) });

    let op = ConnectOp::Connecting { fd: 4 };
    let Step::Call(op, _) = op.step(Outcome::with_data(0, vec![1, 0, 0])) else {
        panic!("a call of close")
    };
    assert_eq!(op, ConnectOp::Closing { error: SctpError::Truncated });
}

#[test]
fn connect_that_succeeds_at_once_still_waits_and_checks() {
    let socket = open_socket(SocketToAssociation::OneToOne, true, 6);
    let to = [
        SockAddr::V4 { ip: [10, 0, 0, 1], port: 38412 },
        SockAddr::V6 { ip: [1; 16], port: 38412, flowinfo: 0, scope_id: 0 },
    ];
    let Step::Call(op, call) = socket.sctp_connectx(&to) else { panic!("a connect call") };
    let Syscall::ConnectX { head, addrs, .. } = call else { panic!("a connect call") };
    assert_eq!(head, vec![0, 0, 0, 0, 44, 0, 0, 0]);
    assert_eq!(addrs.len(), 44);
    let Step::AwaitWritable(op) = op.step(Outcome::with_data(0, vec![0xfe, 0xff, 0xff, 0xff]))
    else {
        panic!("a wait")
    };
    assert_eq!(op, ConnectOp::Waiting { fd: 6, assoc_id: -2 });
    let Step::Call(op, _) = op.step(Outcome::returned(0)) else { panic!("a status call") };
    let Step::Done(Ok((connected, assoc_id))) = op.step(Outcome::with_data(0, vec![0u8; 176]))
    else {
        panic!("a connected socket")
    };
    assert_eq!(connected.as_raw_fd(), 6);
    assert_eq!(assoc_id, -2);
}

#[test]
fn receive_buffers_have_their_sizes() {
    let socket = ConnectedSocket::from_rawfd(9);
    let Step::AwaitReadable(op) = socket.sctp_recv() else { panic!("a wait") };
    let Step::Call(_, call) = op.step(Outcome::returned(0)) else { panic!("a call of recvmsg") };
    assert_eq!(
        call,
        Syscall::RecvMsg {
            fd: 9,
            payload_capacity: 4096,
            name_capacity: 256,
            control_capacity: recv_control_len(),
            flags: 0
        }
    );
}
