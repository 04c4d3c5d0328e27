use sctp_rs::addr::{
    connect_addrs_fit, decode_addr, decode_addr_list, encode_addr, encode_addrs, SockAddr,
};
use sctp_rs::bytes::{
    push_be16, push_le16, push_le32, push_le64, push_le_i32, push_zeros, read_be16, read_le16,
    read_le32, read_le64, read_le_i32, to_signed32, to_unsigned32,
};
use sctp_rs::cmsg::{
    cmsg_len, cmsg_space, encode_send_control, parse_control, read_nxtinfo, read_rcvinfo,
    recv_control_len, Ancillary,
};
use sctp_rs::error::SctpError;
use sctp_rs::notification::{decode_notification, notification_from_message};
use sctp_rs::types::{
    AssocChangeState, AssociationChange, CmsgType, ConnState, Event, Notification, NxtInfo,
    RcvInfo, SendInfo, Shutdown, SubscribeEventAssocId,
};
use sctp_rs::wire::{
    decode_status, query_buffer, switch_bytes, ConnStatusInternal, InitMsg, PeeloffArg,
    SubscribeEvent,
};

fn v4(a: u8, b: u8, c: u8, d: u8, port: u16) -> SockAddr {
    SockAddr::V4 { ip: [a, b, c, d], port }
}

fn v6(last: u8, port: u16, flowinfo: u32, scope_id: u32) -> SockAddr {
    SockAddr::V6 {
        ip: [0x20, 0x01, 0x0d, 0xb8, 0, 0, 0, 0, 0, 0, 0, 0, 0, 0, 0, last],
        port,
        flowinfo,
        scope_id,
    }
}

fn addr_list(assoc_id: i32, count: i32, records: &[u8]) -> Vec<u8> {
    let mut buf = Vec::new();
    push_le_i32(&mut buf, assoc_id);
    push_le_i32(&mut buf, count);
    buf.extend_from_slice(records);
    buf
}

fn rcvinfo_entry() -> Vec<u8> {
    let mut e = Vec::new();
    push_le64(&mut e, 44);
    push_le_i32(&mut e, 132);
    push_le_i32(&mut e, 3);
    push_le16(&mut e, 5);
    push_le16(&mut e, 6);
    push_le16(&mut e, 1);
    push_zeros(&mut e, 2);
    push_le32(&mut e, 0x1234);
    push_le32(&mut e, 1000);
    push_le32(&mut e, 999);
    push_le32(&mut e, 77);
    push_le_i32(&mut e, 42);
    push_zeros(&mut e, 4);
    e
}

fn nxtinfo_entry() -> Vec<u8> {
    let mut e = Vec::new();
    push_le64(&mut e, 32);
    push_le_i32(&mut e, 132);
    push_le_i32(&mut e, 4);
    push_le16(&mut e, 9);
    push_le16(&mut e, 2);
    push_le32(&mut e, 0xabcd);
    push_le32(&mut e, 12);
    push_le_i32(&mut e, 42);
    e
}

fn status_buffer(family: u16) -> Vec<u8> {
    let mut b = Vec::new();
    push_le_i32(&mut b, 11);
    push_le_i32(&mut b, 4);
    push_le32(&mut b, 106496);
    push_le16(&mut b, 1);
    push_le16(&mut b, 2);
    push_le16(&mut b, 10);
    push_le16(&mut b, 20);
    push_le32(&mut b, 1452);
    push_le_i32(&mut b, 11);
    push_le16(&mut b, family);
    push_be16(&mut b, 8080);
    b.extend_from_slice(&[127, 0, 0, 1]);
    push_zeros(&mut b, 120);
    push_le_i32(&mut b, 2);
    push_le32(&mut b, 4380);
    push_le32(&mut b, 3);
    push_le32(&mut b, 3000);
    push_le32(&mut b, 1500);
    b
}

#[test]
fn integers_are_read_and_written_little_endian() {
    let mut out = Vec::new();
    push_le16(&mut out, 0x8001);
    push_be16(&mut out, 8080);
    push_le32(&mut out, 0x1234_5678);
    push_le_i32(&mut out, -2);
    push_le64(&mut out, 0x0102_0304_0506_0708);
    assert_eq!(
        out,
        vec![
            0x01, 0x80, 0x1f, 0x90, 0x78, 0x56, 0x34, 0x12, 0xfe, 0xff, 0xff, 0xff, 0x08, 0x07,
            0x06, 0x05, 0x04, 0x03, 0x02, 0x01
        ]
    );
    assert_eq!(read_le16(&out, 0), 0x8001);
    assert_eq!(read_be16(&out, 2), 8080);
    assert_eq!(read_le32(&out, 4), 0x1234_5678);
    assert_eq!(read_le_i32(&out, 8), -2);
    assert_eq!(read_le64(&out, 12), 0x0102_0304_0506_0708);
}

#[test]
fn integers_agree_with_the_standard_library() {
    for x in [0u32, 1, 255, 256, 65535, 65536, 0x7fff_ffff, 0x8000_0000, 0xffff_ffff] {
        let mut out = Vec::new();
        push_le32(&mut out, x);
        assert_eq!(out, x.to_le_bytes().to_vec());
        assert_eq!(read_le32(&out, 0), x);
        assert_eq!(to_signed32(x), x as i32);
        assert_eq!(to_unsigned32(x as i32), x);
    }
    for x in [0u16, 1, 255, 256, 0x8001, 0xffff] {
        let mut le = Vec::new();
        push_le16(&mut le, x);
        assert_eq!(le, x.to_le_bytes().to_vec());
        let mut be = Vec::new();
        push_be16(&mut be, x);
        assert_eq!(be, x.to_be_bytes().to_vec());
    }
    for x in [0u64, 44, 0xffff_ffff, 0x1_0000_0000, u64::MAX] {
        let mut out = Vec::new();
        push_le64(&mut out, x);
        assert_eq!(out, x.to_le_bytes().to_vec());
        assert_eq!(read_le64(&out, 0), x);
    }
}

#[test]
fn ipv4_address_is_a_record_of_16_bytes() {
    let record = encode_addr(&v4(127, 0, 0, 1, 8080));
    assert_eq!(record, vec![2, 0, 0x1f, 0x90, 127, 0, 0, 1, 0, 0, 0, 0, 0, 0, 0, 0]);
}

#[test]
fn ipv6_address_is_a_record_of_28_bytes() {
    let record = encode_addr(&v6(1, 443, 0x11223344, 0x55667788));
    assert_eq!(
        record,
        vec![
            10, 0, 0x01, 0xbb, 0x44, 0x33, 0x22, 0x11, 0x20, 0x01, 0x0d, 0xb8, 0, 0, 0, 0, 0, 0,
            0, 0, 0, 0, 0, 1, 0x88, 0x77, 0x66, 0x55
        ]
    );
}

#[test]
fn address_list_is_the_records_in_order() {
    let a = v4(10, 0, 0, 1, 1);
    let b = v6(2, 2, 0, 0);
    let mut expected = encode_addr(&a);
    expected.extend(encode_addr(&b));
    assert_eq!(encode_addrs(&[a, b]), expected);
    assert_eq!(encode_addrs(&[]), Vec::<u8>::new());
}

#[test]
fn address_lists_of_one_to_eight_round_trip() {
    let all = [
        v4(127, 0, 0, 1, 8080),
        v6(1, 8081, 0, 0),
        v4(10, 1, 2, 3, 0),
        v6(0xff, 65535, 0xffff_ffff, 0xffff_ffff),
        v4(255, 255, 255, 255, 65535),
        v4(0, 0, 0, 0, 0),
        v6(0, 0, 1, 2),
        v4(192, 168, 1, 1, 38412),
    ];
    for n in 1..=8usize {
        let addrs = &all[..n];
        let mut buf = addr_list(99, n as i32, &encode_addrs(addrs));
        assert_eq!(decode_addr_list(&buf), Ok(addrs.to_vec()));
        buf.resize(256, 0);
        assert_eq!(decode_addr_list(&buf), Ok(addrs.to_vec()));
    }
}

#[test]
fn address_list_stops_at_the_announced_count() {
    let records = encode_addrs(&[v4(1, 1, 1, 1, 1), v4(2, 2, 2, 2, 2)]);
    let mut buf = addr_list(0, 1, &records);
    buf.extend_from_slice(&[0xde, 0xad, 0xbe, 0xef]);
    assert_eq!(decode_addr_list(&buf), Ok(vec![v4(1, 1, 1, 1, 1)]));
    assert_eq!(decode_addr_list(&addr_list(0, 0, &records)), Ok(vec![]));
    assert_eq!(decode_addr_list(&addr_list(0, -3, &records)), Ok(vec![]));
}

#[test]
fn unknown_address_family_is_rejected() {
    let mut records = encode_addr(&v4(1, 1, 1, 1, 1));
    records.extend_from_slice(&[1, 0, 0, 0, 0, 0, 0, 0, 0, 0, 0, 0, 0, 0, 0, 0]);
    records.extend(encode_addr(&v4(3, 3, 3, 3, 3)));
    let r = decode_addr_list(&addr_list(5, 3, &records));
    assert_eq!(r, Err(SctpError::UnsupportedAddressFamily));
    assert_eq!(r.unwrap_err().raw_os_error(), 22);
    assert_eq!(decode_addr(&[0u8; 16], 0), Err(SctpError::UnsupportedAddressFamily));
}

#[test]
fn short_address_list_is_truncated() {
    assert_eq!(decode_addr_list(&[0, 0, 0, 0, 1, 0, 0]), Err(SctpError::Truncated));
    let records = encode_addr(&v6(1, 1, 0, 0));
    assert_eq!(decode_addr_list(&addr_list(1, 1, &records[..27])), Err(SctpError::Truncated));
    assert_eq!(decode_addr_list(&addr_list(1, 2, &records)), Err(SctpError::Truncated));
    assert_eq!(decode_addr(&[2, 0, 0, 80, 1, 2, 3], 0), Err(SctpError::Truncated));
    assert_eq!(decode_addr(&[2], 0), Err(SctpError::Truncated));
}

#[test]
fn one_address_is_decoded_with_its_width() {
    let mut buf = vec![0xaa, 0xbb];
    buf.extend(encode_addr(&v6(7, 9, 3, 4)));
    buf.extend(encode_addr(&v4(9, 8, 7, 6, 5)));
    assert_eq!(decode_addr(&buf, 2), Ok((v6(7, 9, 3, 4), 28)));
    assert_eq!(decode_addr(&buf, 30), Ok((v4(9, 8, 7, 6, 5), 16)));
}

#[test]
fn connect_addresses_fit_a_signed_size() {
    assert!(connect_addrs_fit(&[]));
    assert!(connect_addrs_fit(&[v4(1, 1, 1, 1, 1), v6(1, 1, 0, 0)]));
}

#[test]
fn control_message_sizes() {
    assert_eq!(cmsg_space(0), 16);
    assert_eq!(cmsg_space(1), 24);
    assert_eq!(cmsg_space(16), 32);
    assert_eq!(cmsg_space(28), 48);
    assert_eq!(cmsg_space(44), 64);
    assert_eq!(cmsg_len(16), 32);
    assert_eq!(cmsg_len(28), 44);
    assert_eq!(recv_control_len(), 80);
    assert_eq!(recv_control_len() as u64, cmsg_space(28) + cmsg_space(16));
}

#[test]
fn send_control_carries_the_send_information() {
    assert_eq!(encode_send_control(&None), Vec::<u8>::new());
    let info = SendInfo { sid: 5, flags: 1, ppid: 0x1234, context: 7, assoc_id: -1 };
    assert_eq!(
        encode_send_control(&Some(info)),
        vec![
            32, 0, 0, 0, 0, 0, 0, 0, 132, 0, 0, 0, 2, 0, 0, 0, 5, 0, 1, 0, 0x34, 0x12, 0, 0, 7, 0,
            0, 0, 0xff, 0xff, 0xff, 0xff
        ]
    );
}

#[test]
fn control_without_entries_has_no_information() {
    assert_eq!(parse_control(&[]), Ok(Ancillary { rcv_info: None, nxt_info: None }));
    assert_eq!(parse_control(&[0u8; 15]), Ok(Ancillary { rcv_info: None, nxt_info: None }));
}

#[test]
fn control_with_receive_information() {
    let expected = RcvInfo {
        sid: 5,
        ssn: 6,
        flags: 1,
        ppid: 0x1234,
        tsn: 1000,
        cumtsn: 999,
        context: 77,
        assoc_id: 42,
    };
    let control = rcvinfo_entry();
    assert_eq!(control.len(), 48);
    assert_eq!(read_rcvinfo(&control, 16), expected);
    assert_eq!(parse_control(&control), Ok(Ancillary { rcv_info: Some(expected), nxt_info: None }));
}

#[test]
fn control_with_both_kinds_of_information() {
    let mut control = rcvinfo_entry();
    control.extend(nxtinfo_entry());
    let found = parse_control(&control).unwrap();
    assert_eq!(found.rcv_info.unwrap().assoc_id, 42);
    assert_eq!(
        found.nxt_info,
        Some(NxtInfo { sid: 9, flags: 2, ppid: 0xabcd, length: 12, assoc_id: 42 })
    );
    assert_eq!(read_nxtinfo(&control, 64), found.nxt_info.unwrap());
}

#[test]
fn control_of_another_level_or_type_is_passed_over() {
    let mut control = Vec::new();
    push_le64(&mut control, 20);
    push_le_i32(&mut control, 1);
    push_le_i32(&mut control, 3);
    push_zeros(&mut control, 8);
    push_le64(&mut control, 17);
    push_le_i32(&mut control, 132);
    push_le_i32(&mut control, 7);
    push_zeros(&mut control, 8);
    control.extend(nxtinfo_entry());
    let found = parse_control(&control).unwrap();
    assert_eq!(found.rcv_info, None);
    assert_eq!(found.nxt_info.unwrap().sid, 9);
}

#[test]
fn control_that_cannot_be_read_is_rejected() {
    let mut short_header = rcvinfo_entry();
    short_header[0] = 15;
    assert_eq!(parse_control(&short_header), Err(SctpError::Truncated));
    let mut long_entry = rcvinfo_entry();
    long_entry[0] = 49;
    assert_eq!(parse_control(&long_entry), Err(SctpError::Truncated));
    let mut short_payload = rcvinfo_entry();
    short_payload[0] = 43;
    assert_eq!(parse_control(&short_payload), Err(SctpError::Truncated));
    let mut short_next = nxtinfo_entry();
    short_next[0] = 31;
    assert_eq!(parse_control(&short_next), Err(SctpError::Truncated));
    assert_eq!(parse_control(&[0u8; 16]), Err(SctpError::Truncated));
}

#[test]
fn association_change_is_decoded() {
    let mut data = Vec::new();
    push_le16(&mut data, 0x8001);
    push_le16(&mut data, 3);
    push_le32(&mut data, 24);
    push_le16(&mut data, 0);
    push_le16(&mut data, 9);
    push_le16(&mut data, 5);
    push_le16(&mut data, 100);
    push_le_i32(&mut data, 7);
    data.extend_from_slice(&[1, 2, 3, 4]);
    let expected = Notification::AssociationChange(AssociationChange {
        ev_type: Event::Association,
        flags: 3,
        length: 24,
        state: AssocChangeState::CommUp,
        error: 9,
        ob_streams: 5,
        ib_streams: 100,
        assoc_id: 7,
        info: vec![1, 2, 3, 4],
    });
    assert_eq!(notification_from_message(&data), expected);
    assert_eq!(decode_notification(&data), Ok(expected));
    assert_eq!(decode_notification(&data[..19]), Err(SctpError::Truncated));
    match notification_from_message(&data[..20]) {
        Notification::AssociationChange(change) => assert_eq!(change.info, Vec::<u8>::new()),
        _ => panic!("an association change"),
    }
}

#[test]
fn shutdown_event_is_decoded() {
    let mut data = Vec::new();
    push_le16(&mut data, 0x8005);
    push_le16(&mut data, 0);
    push_le32(&mut data, 12);
    push_le_i32(&mut data, 31);
    let expected = Notification::Shutdown(Shutdown {
        ev_type: Event::Shutdown,
        flags: 0,
        length: 12,
        assoc_id: 31,
    });
    assert_eq!(notification_from_message(&data), expected);
    assert_eq!(decode_notification(&data[..11]), Err(SctpError::Truncated));
}

#[test]
fn other_notifications_are_unsupported() {
    assert_eq!(notification_from_message(&[0x02, 0x80]), Notification::Unsupported);
    assert_eq!(decode_notification(&[0x09, 0x80, 0, 0]), Ok(Notification::Unsupported));
    assert_eq!(decode_notification(&[0, 0]), Ok(Notification::Unsupported));
    assert_eq!(decode_notification(&[0x01]), Err(SctpError::Truncated));
    assert_eq!(decode_notification(&[]), Err(SctpError::Truncated));
}

#[test]
fn events_and_their_type_tags() {
    let all = [
        (Event::DataIo, 0x8000u16),
        (Event::Association, 0x8001),
        (Event::Address, 0x8002),
        (Event::SendFailure, 0x8003),
        (Event::PeerError, 0x8004),
        (Event::Shutdown, 0x8005),
        (Event::PartialDelivery, 0x8006),
        (Event::AdaptationLayer, 0x8007),
        (Event::Authentication, 0x8008),
        (Event::SenderDry, 0x8009),
        (Event::StreamReset, 0x800a),
        (Event::AssociationReset, 0x800b),
        (Event::StreamChange, 0x800c),
        (Event::SendFailureEvent, 0x800d),
        (Event::Unknown, 0x800e),
    ];
    for (event, tag) in all {
        assert_eq!(event.to_u16(), tag);
        assert_eq!(Event::from_u16(tag), event);
    }
    assert_eq!(Event::from_u16(0), Event::Unknown);
    assert_eq!(Event::from_u16(0x7fff), Event::Unknown);
    assert_eq!(Event::from_u16(0xffff), Event::Unknown);
}

#[test]
fn states_and_their_numbers() {
    assert_eq!(AssocChangeState::from_u16(0), AssocChangeState::CommUp);
    assert_eq!(AssocChangeState::from_u16(1), AssocChangeState::CommLost);
    assert_eq!(AssocChangeState::from_u16(2), AssocChangeState::Restart);
    assert_eq!(AssocChangeState::from_u16(3), AssocChangeState::ShutdownComplete);
    assert_eq!(AssocChangeState::from_u16(4), AssocChangeState::CannotStartAssoc);
    assert_eq!(AssocChangeState::from_u16(5), AssocChangeState::Unknown);
    let states = [
        ConnState::Empty,
        ConnState::Closed,
        ConnState::CookieWait,
        ConnState::CookieEchoed,
        ConnState::Established,
        ConnState::ShutdownPending,
        ConnState::ShutdownSent,
        ConnState::ShutdownReceived,
        ConnState::ShutdownAckSent,
        ConnState::Unknown,
    ];
    for (n, state) in states.iter().enumerate() {
        assert_eq!(ConnState::from_i32(n as i32), *state);
    }
    assert_eq!(ConnState::from_i32(-1), ConnState::Unknown);
    assert_eq!(ConnState::default(), ConnState::Empty);
    assert_eq!(CmsgType::Init.to_i32(), 0);
    assert_eq!(CmsgType::SndInfo.to_i32(), 2);
    assert_eq!(CmsgType::RcvInfo.to_i32(), 3);
    assert_eq!(CmsgType::NxtInfo.to_i32(), 4);
    assert_eq!(CmsgType::DstAddrV6.to_i32(), 8);
}

#[test]
fn subscription_groups_are_zero_one_and_two() {
    assert_eq!(i32::from(SubscribeEventAssocId::Future), 0);
    assert_eq!(i32::from(SubscribeEventAssocId::Current), 1);
    assert_eq!(i32::from(SubscribeEventAssocId::All), 2);
    assert_eq!(i32::from(SubscribeEventAssocId::Value(-17)), -17);
}

#[test]
fn option_structures_have_their_layout() {
    let arg = PeeloffArg::from_assoc_id(42);
    assert_eq!(arg, PeeloffArg { assoc_id: 42, sd: 0 });
    assert_eq!(arg.to_bytes(), vec![42, 0, 0, 0, 0, 0, 0, 0]);
    assert_eq!(
        PeeloffArg::from_bytes(&[42, 0, 0, 0, 9, 0, 0, 0, 1]),
        Ok(PeeloffArg { assoc_id: 42, sd: 9 })
    );
    assert_eq!(PeeloffArg::from_bytes(&[42, 0, 0, 0, 9, 0, 0]), Err(SctpError::Truncated));
    let init = InitMsg { ostreams: 100, istreams: 5, retries: 0x0102, timeout: 0 };
    assert_eq!(init.to_bytes(), vec![100, 0, 5, 0, 2, 1, 0, 0]);
    let on = SubscribeEvent { assoc_id: 0, event: Event::Association, on: true };
    assert_eq!(on.to_bytes(), vec![0, 0, 0, 0, 0x01, 0x80, 1, 0]);
    let off = SubscribeEvent { assoc_id: 2, event: Event::Shutdown, on: false };
    assert_eq!(off.to_bytes(), vec![2, 0, 0, 0, 0x05, 0x80, 0, 0]);
    assert_eq!(switch_bytes(true), vec![1, 0, 0, 0]);
    assert_eq!(switch_bytes(false), vec![0, 0, 0, 0]);
    let query = query_buffer(-2, 256);
    assert_eq!(query.len(), 256);
    assert_eq!(&query[..4], &[0xfe, 0xff, 0xff, 0xff]);
    assert!(query[4..].iter().all(|b| *b == 0));
}

#[test]
fn status_is_decoded() {
    let buf = status_buffer(2);
    assert_eq!(buf.len(), 176);
    let internal = ConnStatusInternal::from_bytes(&buf).unwrap();
    assert_eq!(internal.state, 4);
    assert_eq!(internal.peer_primary.address.len(), 128);
    assert_eq!(internal.peer_primary.mtu, 1500);
    let status = decode_status(&buf).unwrap();
    assert_eq!(status.assoc_id, 11);
    assert_eq!(status.state, ConnState::Established);
    assert_eq!(status.rwnd, 106496);
    assert_eq!(status.unacked_data, 1);
    assert_eq!(status.pending_data, 2);
    assert_eq!(status.instreams, 10);
    assert_eq!(status.outstreams, 20);
    assert_eq!(status.fragmentation_pt, 1452);
    assert_eq!(status.peer_primary.assoc_id, 11);
    assert_eq!(status.peer_primary.address, v4(127, 0, 0, 1, 8080));
    assert_eq!(status.peer_primary.state, 2);
    assert_eq!(status.peer_primary.cwnd, 4380);
    assert_eq!(status.peer_primary.srtt, 3);
    assert_eq!(status.peer_primary.rto, 3000);
    assert_eq!(status.peer_primary.mtu, 1500);
}

#[test]
fn status_that_cannot_be_read_is_rejected() {
    assert_eq!(decode_status(&status_buffer(2)[..175]), Err(SctpError::Truncated));
    assert_eq!(decode_status(&status_buffer(0)), Err(SctpError::UnsupportedAddressFamily));
    assert_eq!(decode_status(&status_buffer(1)), Err(SctpError::UnsupportedAddressFamily));
}

#[test]
fn errors_and_their_codes() {
    assert_eq!(SctpError::Os(13).raw_os_error(), 13);
    assert_eq!(SctpError::NotSupported.raw_os_error(), 95);
    assert_eq!(SctpError::UnsupportedAddressFamily.raw_os_error(), 22);
    assert_eq!(SctpError::Truncated.raw_os_error(), 22);
    assert_eq!(SctpError::ConnectionRefused.raw_os_error(), 111);
}
