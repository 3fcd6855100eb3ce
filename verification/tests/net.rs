//! Pairing, the encrypted session, and finding peers.

use mineshare::device::DeviceId;
use mineshare::net::discovery::{
    peer_from_info, same_endpoint, short_id, Address, AdvertError, Browser, Discovery,
    DiscoveryEvent, PeerAdvert, ServiceInfo,
};
use mineshare::net::pairing::{
    frame_len, generate_static_key, read_frame, write_frame, EncryptedSession, Initiator,
    PairingError, ReplayWindow, Responder,
};

fn v4(a: u8, b: u8, c: u8, d: u8) -> Address {
    Address::V4(u32::from_be_bytes([a, b, c, d]))
}

fn advert(port: u16, addrs: &[Address]) -> PeerAdvert {
    PeerAdvert {
        device_id: DeviceId::nil(),
        display_name: "test".to_string(),
        os: "test".to_string(),
        control_port: port,
        addresses: addrs.to_vec(),
    }
}

#[test]
fn identical_endpoint_is_same() {
    assert!(same_endpoint(
        &advert(5000, &[v4(192, 168, 1, 5)]),
        &advert(5000, &[v4(192, 168, 1, 5)])
    ));
}

#[test]
fn address_order_does_not_matter() {
    assert!(same_endpoint(
        &advert(5000, &[v4(192, 168, 1, 5), v4(10, 0, 0, 2)]),
        &advert(5000, &[v4(10, 0, 0, 2), v4(192, 168, 1, 5)]),
    ));
}

#[test]
fn changed_port_is_different() {
    assert!(!same_endpoint(
        &advert(5000, &[v4(192, 168, 1, 5)]),
        &advert(6001, &[v4(192, 168, 1, 5)])
    ));
}

#[test]
fn changed_ip_is_different() {
    assert!(!same_endpoint(
        &advert(5000, &[v4(192, 168, 1, 5)]),
        &advert(5000, &[v4(192, 168, 1, 9)])
    ));
}

#[test]
fn added_ip_during_dhcp_change_is_different() {
    assert!(!same_endpoint(
        &advert(5000, &[v4(192, 168, 1, 5)]),
        &advert(5000, &[v4(192, 168, 1, 5), v4(192, 168, 1, 9)]),
    ));
}

fn sessions() -> (EncryptedSession, EncryptedSession) {
    let a = generate_static_key().unwrap();
    let b = generate_static_key().unwrap();
    let mut i = Initiator::new(&a.private).unwrap();
    let mut r = Responder::new(&b.private).unwrap();
    let (hello, _) = read_frame(&i.hello().unwrap()).unwrap();
    let (reply, _) = read_frame(&r.reply(&hello).unwrap()).unwrap();
    let (last, init_session) = i.answer(&reply).unwrap();
    let (last, _) = read_frame(&last).unwrap();
    let resp_session = r.finish(&last).unwrap();
    (EncryptedSession::from(init_session), EncryptedSession::from(resp_session))
}

#[test]
fn xx_handshake_then_udp_aead_roundtrip() {
    let init_kp = generate_static_key().unwrap();
    let resp_kp = generate_static_key().unwrap();

    let mut i = Initiator::new(&init_kp.private).unwrap();
    let mut r = Responder::new(&resp_kp.private).unwrap();
    let hello = i.hello().unwrap();
    let (hello, used) = read_frame(&hello).unwrap();
    assert_eq!(used, hello.len() + 2);
    let reply = r.reply(&hello).unwrap();
    let (reply, _) = read_frame(&reply).unwrap();
    let (last, init_session) = i.answer(&reply).unwrap();
    let (last, _) = read_frame(&last).unwrap();
    let resp_session = r.finish(&last).unwrap();

    assert_eq!(init_session.remote_static.as_slice(), resp_kp.public.as_slice());
    assert_eq!(resp_session.remote_static.as_slice(), init_kp.public.as_slice());

    let mut init_aead = EncryptedSession::from(init_session);
    let mut resp_aead = EncryptedSession::from(resp_session);

    let pt = b"hello mineshare";
    let frame = init_aead.seal(pt).unwrap();
    let out = resp_aead.open(&frame).unwrap();
    assert_eq!(out, pt);

    assert!(resp_aead.open(&frame).is_err());

    let frame2 = resp_aead.seal(b"reply").unwrap();
    let out2 = init_aead.open(&frame2).unwrap();
    assert_eq!(out2, b"reply");
}

#[test]
fn a_handshake_is_run_once() {
    let kp = generate_static_key().unwrap();
    let mut i = Initiator::new(&kp.private).unwrap();
    assert!(i.hello().is_ok());
    assert!(i.answer(&[1, 2, 3]).is_err());
    assert_eq!(i.hello(), Err(PairingError::HandshakeDone));
    let mut r = Responder::new(&kp.private).unwrap();
    assert_eq!(r.reply(&[0; 5]), Err(PairingError::Noise));
    assert_eq!(r.reply(&[0; 32]), Err(PairingError::HandshakeDone));
}

#[test]
fn keys_differ_from_one_to_the_next() {
    let a = generate_static_key().unwrap();
    let b = generate_static_key().unwrap();
    assert_eq!(a.private.len(), 32);
    assert_ne!(a.private, a.public);
    assert_ne!(a.private, b.private);
}

#[test]
fn frames_are_refused_for_what_is_wrong_with_them() {
    let (mut a, mut b) = sessions();
    assert_eq!(b.open(&[0; 7]), Err(PairingError::FrameTooShort));
    let frame = a.seal(b"one").unwrap();
    assert_ne!(&frame[8..], b"one");
    assert_eq!(frame.len(), 8 + 3 + 16);
    let mut broken = frame.clone();
    broken[9] ^= 1;
    assert_eq!(b.open(&broken), Err(PairingError::Noise));
    assert_eq!(b.open(&frame), Err(PairingError::Replay { nonce: 0 }));
    let next = a.seal(b"two").unwrap();
    assert_eq!(b.open(&next).unwrap(), b"two");
    assert_eq!(a.seal(&vec![0; 65_535]), Err(PairingError::Noise));
}

#[test]
fn messages_may_come_in_another_order() {
    let (mut a, mut b) = sessions();
    let frames: Vec<Vec<u8>> = (0..10u8).map(|n| a.seal(&[n]).unwrap()).collect();
    for n in [3, 1, 9, 0, 2, 8, 4, 7, 5, 6] {
        assert_eq!(b.open(&frames[n]).unwrap(), [n as u8]);
    }
    for frame in &frames {
        assert!(b.open(frame).is_err());
    }
}

#[test]
fn frames_of_the_handshake_carry_their_length() {
    let f = write_frame(&[7, 8, 9]).unwrap();
    assert_eq!(f, [0, 3, 7, 8, 9]);
    assert_eq!(frame_len([1, 2]), 258);
    assert_eq!(read_frame(&[0]), None);
    assert_eq!(read_frame(&[0, 3, 7, 8]), None);
    assert_eq!(read_frame(&[0, 2, 7, 8, 9]), Some((vec![7, 8], 4)));
    assert_eq!(write_frame(&vec![0; 65_536]), Err(PairingError::FrameTooLarge));
}

#[test]
fn replay_window_basic() {
    let mut w = ReplayWindow::default();
    assert!(w.check_and_record(1));
    assert!(w.check_and_record(2));
    assert!(!w.check_and_record(1)); // replay
    assert!(w.check_and_record(50));
    assert!(w.check_and_record(40)); // older but inside window
    assert!(!w.check_and_record(40)); // replay
}

#[test]
fn numbers_behind_the_window_are_refused() {
    let mut w = ReplayWindow::default();
    assert!(w.check_and_record(0));
    assert!(!w.check_and_record(0));
    assert!(w.check_and_record(5_000));
    assert!(!w.check_and_record(1));
    assert!(w.check_and_record(4_999));
}

fn info(id: &str, ip: Address, port: u16) -> ServiceInfo {
    ServiceInfo {
        device_id: Some(id.to_string()),
        display_name: Some("peer".to_string()),
        os: None,
        port,
        addresses: vec![ip],
    }
}

#[test]
fn a_service_becomes_an_advert() {
    let id = DeviceId(7);
    let p = peer_from_info(&info(&id.to_text(), v4(10, 0, 0, 1), 4242)).unwrap();
    assert_eq!(p.device_id, id);
    assert_eq!(p.display_name, "peer");
    assert_eq!(p.os, "?");
    assert_eq!(p.control_port, 4242);
    assert!(matches!(
        peer_from_info(&info("nonsense", v4(10, 0, 0, 1), 1)),
        Err(AdvertError::InvalidDeviceId)
    ));
    let nameless = ServiceInfo { device_id: None, ..info("x", v4(10, 0, 0, 1), 1) };
    assert!(matches!(peer_from_info(&nameless), Err(AdvertError::MissingDeviceId)));
}

#[test]
fn a_browser_passes_on_news_only() {
    let id = DeviceId(7).to_text();
    let mut b = Browser::new("me.local.");
    let first = info(&id, v4(10, 0, 0, 1), 4242);
    assert!(matches!(b.resolved("peer.local.", &first), Some(DiscoveryEvent::PeerOnline(_))));
    assert!(b.resolved("peer.local.", &first).is_none());
    assert!(b.resolved("peer-2.local.", &first).is_none());
    assert!(b.resolved("me.local.", &first).is_none());
    let moved = info(&id, v4(10, 0, 0, 2), 4242);
    assert!(matches!(b.resolved("peer.local.", &moved), Some(DiscoveryEvent::PeerOnline(_))));
    assert!(b.removed("peer.local.").is_none());
    assert!(
        matches!(b.removed("peer-2.local."), Some(DiscoveryEvent::PeerOffline(d)) if d == DeviceId(7))
    );
    assert!(b.removed("peer-2.local.").is_none());
    assert!(matches!(b.resolved("peer.local.", &moved), Some(DiscoveryEvent::PeerOnline(_))));
}

#[test]
fn a_machine_announces_itself_once_it_has_a_name() {
    let mut d = Discovery::new();
    assert_eq!(d.goodbye(), None);
    let mut a = advert(4242, &[v4(10, 0, 0, 1)]);
    a.device_id = DeviceId(0x0123_4567_89ab_cdef_0123_4567_89ab_cdef);
    assert_eq!(short_id(&a.device_id), "01234567");
    let said = d.announce(&a);
    assert_eq!(said.port, 4242);
    assert_eq!(said.addresses, vec![v4(10, 0, 0, 1)]);
    assert_eq!(said.host, "01234567.local.");
    assert_eq!(said.instance, "test-01234567");
    assert!(d.goodbye().unwrap().ends_with("_mineshare._tcp.local."));
}

#[test]
fn an_announced_peer_is_read_back() {
    let mut d = Discovery::new();
    let mut a = advert(4242, &[v4(10, 0, 0, 1), v4(10, 0, 0, 2)]);
    a.device_id = DeviceId(0xfeed_0000_0000_4000_8000_0000_0000_0001);
    let said = d.announce(&a);
    let info = ServiceInfo {
        device_id: Some(said.device_id),
        display_name: Some(said.display_name),
        os: Some(said.os),
        port: said.port,
        addresses: said.addresses,
    };
    let heard = peer_from_info(&info).unwrap();
    assert_eq!(heard.device_id, a.device_id);
    assert_eq!(heard.display_name, a.display_name);
    assert_eq!(heard.os, a.os);
    assert!(same_endpoint(&heard, &a));
    let mut own = Browser::new(&d.instance_name);
    assert!(own.resolved(&said.fullname, &info).is_none());
    let mut other = Browser::new("other-01234567");
    assert!(other.resolved(&said.fullname, &info).is_some());
}
