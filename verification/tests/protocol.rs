use mitch::errors::Error;
use mitch::group::{dispatch, sync_reply_members, Dispatch};
use mitch::member_info::{IpAddr, MemberInfo, SocketAddr};
use mitch::protomitch::{self, encode, frame_len, join_info};
use mitch::protomitch_pb::mitch_msg::Value;
use mitch::protomitch_pb::{FailedMsg, JoinMsg, MitchMsg, PullMsg, SyncMsg};
use mitch::reactor::Event;

fn member(id: u32, nick: &str, ip: IpAddr, port: u16, metadata: Vec<u8>) -> MemberInfo {
    MemberInfo {
        id,
        nickname: nick.to_string(),
        min_proto: 0,
        max_proto: 0,
        target: SocketAddr { ip, port },
        metadata,
    }
}

fn join_msg_of(msg: MitchMsg) -> JoinMsg {
    match msg.value {
        Some(Value::Join(j)) => j,
        _ => panic!("not a join message"),
    }
}

#[test]
fn encode_prefixes_network_order_length() {
    let body: Vec<u8> = (0..300u32).map(|i| (i % 251) as u8).collect();
    let framed = encode(&body).unwrap();
    assert_eq!(framed.len(), 304);
    assert_eq!(&framed[..4], &[0x00, 0x00, 0x01, 0x2c]);
    assert_eq!(&framed[4..], &body[..]);
}

#[test]
fn encode_empty_body() {
    assert_eq!(encode(&[]).unwrap(), vec![0, 0, 0, 0]);
}

#[test]
fn frame_len_reads_network_order() {
    assert_eq!(frame_len(&[0x12, 0x34, 0x56, 0x78]), 0x1234_5678);
    assert_eq!(frame_len(&[0, 0, 0, 5, 99]), 5);
}

#[test]
fn frame_roundtrip_law() {
    let body = vec![7u8; 70000];
    let framed = encode(&body).unwrap();
    assert_eq!(frame_len(&framed) as usize, body.len());
    assert_eq!(&framed[4..], &body[..]);
}

#[test]
fn join_message_carries_member() {
    let m = member(7, "brave-otter", IpAddr::V4([10, 1, 2, 3]), 4242, vec![1, 2]);
    let j = join_msg_of(protomitch::join(&m));
    assert_eq!(j.id, 7);
    assert_eq!(j.nickname, "brave-otter");
    assert_eq!(j.address, vec![10, 1, 2, 3]);
    assert_eq!(j.port, 4242);
    assert_eq!(j.metadata, vec![1, 2]);
}

#[test]
fn join_info_roundtrip_ipv4() {
    let m = member(9, "calm-fox", IpAddr::V4([192, 168, 0, 9]), 65535, vec![5]);
    let back = join_info(join_msg_of(protomitch::join(&m)));
    assert_eq!(back.id, 9);
    assert_eq!(back.nickname, "calm-fox");
    assert_eq!(back.metadata, vec![5]);
    assert_eq!(back.target.port, 65535);
    match back.target.ip {
        IpAddr::V4(a) => assert_eq!(a, [192, 168, 0, 9]),
        IpAddr::V6(_) => panic!("expected IPv4"),
    }
}

#[test]
fn join_info_roundtrip_ipv6_with_equal_octets() {
    let mut octets = [0u8; 16];
    for (i, o) in octets.iter_mut().enumerate() {
        *o = i as u8;
    }
    octets[13] = octets[12];
    let m = member(3, "x", IpAddr::V6(octets), 80, vec![]);
    let back = join_info(join_msg_of(protomitch::join(&m)));
    match back.target.ip {
        IpAddr::V6(a) => assert_eq!(a, octets),
        IpAddr::V4(_) => panic!("expected IPv6"),
    }
}

#[test]
fn join_info_ipv6_reads_octet_twelve_twice() {
    let octets: Vec<u8> = (0..16u8).collect();
    let j = JoinMsg {
        id: 1,
        nickname: String::new(),
        address: octets,
        port: 1,
        min_proto: 0,
        max_proto: 0,
        metadata: vec![],
    };
    match join_info(j).target.ip {
        IpAddr::V6(a) => {
            assert_eq!(a[12], 12);
            assert_eq!(a[13], 12);
            assert_eq!(a[14], 14);
        }
        IpAddr::V4(_) => panic!("expected IPv6"),
    }
}

#[test]
fn join_info_truncates_port() {
    let j = JoinMsg {
        id: 1,
        nickname: String::new(),
        address: vec![1, 2, 3, 4],
        port: 0x1_0050,
        min_proto: 0,
        max_proto: 0,
        metadata: vec![],
    };
    assert_eq!(join_info(j).target.port, 0x50);
}

#[test]
fn pull_none_means_all_members() {
    match protomitch::pull(None).value {
        Some(Value::Pull(p)) => assert_eq!(p.num_members, 0),
        _ => panic!("not a pull"),
    }
    match protomitch::pull(Some(5)).value {
        Some(Value::Pull(p)) => assert_eq!(p.num_members, 5),
        _ => panic!("not a pull"),
    }
}

#[test]
fn failed_and_ping_messages() {
    match protomitch::failed(77).value {
        Some(Value::Failed(f)) => assert_eq!(f.id, 77),
        _ => panic!("not a failure"),
    }
    assert!(matches!(protomitch::ping().value, Some(Value::Ping(_))));
}

#[test]
fn sync_then_reply_roundtrip() {
    let ms = vec![
        member(1, "a", IpAddr::V4([1, 1, 1, 1]), 1, vec![]),
        member(2, "b", IpAddr::V4([2, 2, 2, 2]), 2, vec![9]),
    ];
    let back = sync_reply_members(protomitch::sync(&ms)).unwrap();
    assert_eq!(back.len(), 2);
    assert_eq!(back[0].id, 1);
    assert_eq!(back[1].id, 2);
    assert_eq!(back[1].metadata, vec![9]);
    match back[1].target.ip {
        IpAddr::V4(a) => assert_eq!(a, [2, 2, 2, 2]),
        _ => panic!("expected IPv4"),
    }
}

#[test]
fn sync_reply_refuses_other_messages() {
    assert!(matches!(
        sync_reply_members(protomitch::ping()),
        Err(Error::UnexpectedReply)
    ));
    assert!(matches!(
        sync_reply_members(MitchMsg { value: None }),
        Err(Error::UnexpectedReply)
    ));
}

#[test]
fn dispatch_none_value() {
    assert!(matches!(
        dispatch(MitchMsg { value: None }, None),
        Err(Error::DispatchNoneValue)
    ));
}

#[test]
fn dispatch_ping_forwards_nothing() {
    match dispatch(protomitch::ping(), None) {
        Ok(Dispatch::Forward(v)) => assert!(v.is_empty()),
        _ => panic!("unexpected dispatch"),
    }
}

#[test]
fn dispatch_failed_forwards_failure() {
    let msg = MitchMsg { value: Some(Value::Failed(FailedMsg { id: 12 })) };
    match dispatch(msg, None) {
        Ok(Dispatch::Forward(v)) => {
            assert_eq!(v.len(), 1);
            assert!(matches!(v[0], Event::Failed(12)));
        }
        _ => panic!("unexpected dispatch"),
    }
}

#[test]
fn dispatch_join_records_peer_address() {
    let m = member(5, "eager-lynx", IpAddr::V4([9, 9, 9, 9]), 9, vec![]);
    let peer = SocketAddr { ip: IpAddr::V4([172, 16, 0, 1]), port: 5555 };
    match dispatch(protomitch::join(&m), Some(peer)) {
        Ok(Dispatch::Forward(v)) => match &v[..] {
            [Event::Join(j)] => {
                assert_eq!(j.id, 5);
                assert_eq!(j.nickname, "eager-lynx");
                assert_eq!(j.target.port, 5555);
            }
            _ => panic!("expected one join"),
        },
        _ => panic!("unexpected dispatch"),
    }
}

#[test]
fn dispatch_join_without_peer_address() {
    let m = member(5, "n", IpAddr::V4([9, 9, 9, 9]), 9, vec![]);
    assert!(matches!(
        dispatch(protomitch::join(&m), None),
        Err(Error::PeerAddressUnavailable)
    ));
}

#[test]
fn dispatch_pull_answers() {
    let msg = MitchMsg { value: Some(Value::Pull(PullMsg { num_members: 3 })) };
    assert!(matches!(dispatch(msg, None), Ok(Dispatch::AnswerPull(3))));
    let all = MitchMsg { value: Some(Value::Pull(PullMsg { num_members: 0 })) };
    assert!(matches!(dispatch(all, None), Ok(Dispatch::AnswerPull(0))));
}

#[test]
fn dispatch_sync_joins_each_member_in_order_at_loopback() {
    let ms = vec![
        member(1, "a", IpAddr::V4([1, 1, 1, 1]), 1, vec![]),
        member(2, "b", IpAddr::V4([2, 2, 2, 2]), 2, vec![]),
        member(3, "c", IpAddr::V4([3, 3, 3, 3]), 3, vec![]),
    ];
    match dispatch(protomitch::sync(&ms), None) {
        Ok(Dispatch::Forward(v)) => {
            let ids: Vec<u32> = v
                .iter()
                .map(|e| match e {
                    Event::Join(m) => {
                        assert_eq!(m.target.port, 0);
                        match m.target.ip {
                            IpAddr::V4(a) => assert_eq!(a, [127, 0, 0, 1]),
                            _ => panic!("expected loopback"),
                        }
                        m.id
                    }
                    _ => panic!("expected joins"),
                })
                .collect();
            assert_eq!(ids, vec![1, 2, 3]);
        }
        _ => panic!("unexpected dispatch"),
    }
    let empty = MitchMsg { value: Some(Value::Sync(SyncMsg { members: vec![] })) };
    assert!(matches!(dispatch(empty, None), Ok(Dispatch::Forward(v)) if v.is_empty()));
}

#[test]
fn error_messages() {
    assert_eq!(Error::MetadataTooLarge.message(), "metadata larger than maximum size");
    assert_eq!(Error::ClientTlsMissing.message(), "Client TLS configuration missing");
    assert_eq!(Error::ServerTlsMissing.message(), "Server TLS configuration missing");
    assert_eq!(Error::OverlongProtobuf.message(), "overlong protobuf message");
    assert_eq!(Error::DispatchNoneValue.message(), "dispatch: None value");
    assert_eq!(Error::UnexpectedReply.message(), "foo");
}
