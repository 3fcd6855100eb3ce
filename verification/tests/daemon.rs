//! Settings, trust, sessions, clipboard, logs.

use mineshare::audio::{AudioDevices, AudioFrame, StreamKind};
use mineshare::daemon::audio_status::{
    set_play_mic, set_send_mic, set_virtual_mic_backend, AudioToggles, VirtualMicBackend,
};
use mineshare::daemon::clipboard::{
    queue_capacity, ClipboardAction, ClipboardEvent, ClipboardImage, ImageError, ImagePoll,
    IncomingImage, TextPoll, Watcher, WatcherStart, IMAGE_CHUNK_BYTES,
};
use mineshare::daemon::collect::{
    build_header, commit_message, host_label, is_log, plan_recent_logs, read_recent_logs, tail_start,
    Header, LogEntry, TailRead,
};
use mineshare::daemon::control::ControlMsg;
use mineshare::daemon::echo::EchoGuard;
use mineshare::daemon::identity::{build_id, build_id_short, Identity};
use mineshare::daemon::latency::Latency;
use mineshare::daemon::layout::{map_side, Layout, LayoutConfig, PeerSide as Side};
use mineshare::daemon::lifecycle::{OwnershipAnswer, OwnershipError, RuntimeOwner, ShutdownHook};
use mineshare::daemon::logs::{
    crash_file_name, crash_report, expired, is_daemon_log, LogFile, Pruning, LOG_RETENTION_NS,
};
use mineshare::daemon::pairing::{format_pin, generate_pin, Pairing, PairingPhase};
use mineshare::daemon::peers::{
    detect_local_addresses, dial_targets, Endpoint, PeerAction, Peers,
};
use mineshare::daemon::session::{
    begin_session, clipboard_message, control_message, count_heard, count_injected, deliver, end_session, exit_reason,
    hex_short, on_announce, on_control, on_loop_event, on_sent, open_datagram, ping,
    read_encrypted,
    start_plan, write_encrypted, ControlAction, Counters, Delivery, LoopAction, LoopEvent,
    PortAnnounce, RunOpts, SessionEnd, SessionStats, WireFrame,
};
use mineshare::daemon::settings::{
    apply, install_loaded, load, set_audio_input_device, set_audio_output_device, set_audio_toggle,
    set_sysout_capture_device, Layers, Settings,
};
use mineshare::daemon::status::{
    clear_peer_connected, set_peer_connected, snapshot, tray_header, RuntimeStatus,
};
use mineshare::daemon::trust::TrustList;
use mineshare::device::DeviceId;
use mineshare::input::events::{Button, InputEvent};
use mineshare::input::{
    set_peer_in_remote, GameDrive, InputState, PeerSide, Platform, RemoteEvent,
};
use mineshare::net::discovery::{Address, DiscoveryEvent, PeerAdvert};
use mineshare::net::pairing::{
    generate_static_key, read_frame, EncryptedSession, Initiator, Keypair, Responder,
};
use mineshare::ui::{current_status, menu_entry, on_menu_event, refresh, MenuAction, MenuEntry};
use std::cell::Cell;

fn bits(v: f32) -> u32 {
    v.to_bits()
}

fn layers() -> Layers {
    Layers {
        input: InputState::new(Platform::Linux),
        audio: AudioDevices::new(),
        toggles: AudioToggles::new(),
    }
}

#[test]
fn mouse_rate_clamps_into_range() {
    let lo = Settings { mouse_rate_hz: 5, ..Settings::default() }.clamped();
    let hi = Settings { mouse_rate_hz: 9000, ..Settings::default() }.clamped();
    assert_eq!(lo.mouse_rate_hz, 60);
    assert_eq!(hi.mouse_rate_hz, 1000);
    assert_eq!(Settings::default().mouse_rate_hz, 500);
    assert_eq!(
        Settings::default().auto_focus_on_take_control,
        false,
        "keyboard handoff must never synthesize a click by default"
    );
}

#[test]
fn touchpad_scroll_speed_defaults_and_clamps() {
    let of = |v: f32| {
        let s = Settings { touchpad_scroll_speed_bits: bits(v), ..Settings::default() }.clamped();
        f32::from_bits(s.touchpad_scroll_speed_bits)
    };
    assert_eq!(of(0.01), 0.25);
    assert_eq!(of(99.0), 4.0);
    assert_eq!(of(f32::NAN), 1.0);
    assert_eq!(f32::from_bits(Settings::default().touchpad_scroll_speed_bits), 1.0);
}

#[test]
fn a_sensitivity_is_always_in_its_range() {
    let s = Settings { mouse_sensitivity_bits: bits(f32::NAN), ..Settings::default() };
    let mut l = layers();
    let kept = apply(&mut l, s);
    assert_eq!(f32::from_bits(kept.mouse_sensitivity_bits), 1.0);
    assert_eq!(f32::from_bits(l.input.tuning.mouse_sens_bits), 1.0);
    let s = Settings { mouse_sensitivity_bits: bits(-2.0), ..Settings::default() }.clamped();
    assert_eq!(f32::from_bits(s.mouse_sensitivity_bits), 0.25);
    let s = Settings { mouse_sensitivity_bits: bits(f32::INFINITY), ..Settings::default() }.clamped();
    assert_eq!(f32::from_bits(s.mouse_sensitivity_bits), 4.0);
}

#[test]
fn settings_take_effect_on_input_and_sound() {
    let mut l = layers();
    let s = Settings {
        invert_scroll_y: true,
        mouse_rate_hz: 250,
        audio_output_device: Some("Speakers".to_string()),
        audio_send_sysout: false,
        ..Settings::default()
    };
    let kept = apply(&mut l, s);
    assert!(l.input.tuning.invert_scroll_y);
    assert_eq!(l.input.tuning.target_flush_us, 4_000);
    assert_eq!(l.audio.output.name.as_deref(), Some("Speakers"));
    assert_eq!(l.audio.output.version, 1);
    assert!(!l.toggles.send_sysout);
    let kept = set_audio_input_device(&mut l, kept, Some("Mic".to_string()));
    let kept = set_sysout_capture_device(&mut l, kept, Some("Mixer".to_string()));
    let kept = set_audio_output_device(&mut l, kept, None);
    assert_eq!(l.audio.input.name.as_deref(), Some("Mic"));
    assert_eq!(l.audio.sysout_capture.name.as_deref(), Some("Mixer"));
    assert_eq!(l.audio.output.name, None);
    let mut fresh = layers();
    install_loaded(&mut fresh, &load(Some(kept)));
    assert_eq!(fresh.audio.input.name.as_deref(), Some("Mic"));
    assert!(!fresh.toggles.send_sysout);
    assert_eq!(load(None).mouse_rate_hz, 500);
}

#[test]
fn switches_are_thrown_by_name() {
    let mut l = layers();
    let s = set_audio_toggle(&mut l, Settings::default(), "sysout", "play", false).ok().unwrap();
    assert!(!s.audio_play_sysout && !l.toggles.play_sysout);
    let s = set_audio_toggle(&mut l, s, "mic", "send", false).ok().unwrap();
    assert!(!s.audio_send_mic && !l.toggles.send_mic && !l.toggles.play_sysout);
    assert!(set_audio_toggle(&mut l, s, "mic", "sing", true).is_err());
}

#[test]
fn image_transfer_reassembles_rgba_exactly() {
    let rgba: Vec<u8> = (0..64).collect();
    let mut image = IncomingImage::new(7, 4, 4, rgba.len() as u64).ok().unwrap();
    image.push(7, 0, &rgba[..31]).unwrap();
    image.push(7, 31, &rgba[31..]).unwrap();
    let image = image.finish(7).ok().unwrap();
    assert_eq!(image.width, 4);
    assert_eq!(image.height, 4);
    assert_eq!(image.bytes, rgba);
}

#[test]
fn image_transfer_rejects_invalid_shape_and_offsets() {
    assert!(IncomingImage::new(1, 4, 4, 63).is_err());
    assert!(IncomingImage::new(1, 0, 4, 0).is_err());
    assert!(IncomingImage::new(1, 8_192, 8_192, 268_435_456).is_err());

    let mut image = IncomingImage::new(1, 1, 1, 4).ok().unwrap();
    assert!(image.push(1, 1, &[0, 0, 0, 0]).is_err());
}

#[test]
fn each_fault_of_an_image_has_its_error() {
    assert_eq!(IncomingImage::new(1, 4, 4, 63).err(), Some(ImageError::SizeMismatch));
    assert_eq!(IncomingImage::new(1, 0, 4, 0).err(), Some(ImageError::ZeroDimensions));
    assert_eq!(
        IncomingImage::new(1, 8_192, 8_192, 268_435_456).err(),
        Some(ImageError::TooLarge)
    );
    assert_eq!(
        IncomingImage::new(1, u32::MAX, u32::MAX, 4).err(),
        Some(ImageError::DimensionsOverflow)
    );
    let mut image = IncomingImage::new(1, 1, 1, 4).ok().unwrap();
    assert_eq!(image.push(2, 0, &[0; 4]), Err(ImageError::IdChanged));
    assert_eq!(image.push(1, 1, &[0; 4]), Err(ImageError::OffsetMismatch));
    assert_eq!(image.push(1, 0, &[0; 5]), Err(ImageError::TooManyBytes));
    assert_eq!(
        image.push(1, 0, &vec![0; IMAGE_CHUNK_BYTES + 1]),
        Err(ImageError::ChunkTooLarge)
    );
    assert_eq!(image.finish(1).err(), Some(ImageError::Incomplete));
}

#[test]
fn image_sender_chunks_frames_below_control_limit() {
    let rgba = vec![0x7f; 128 * 128 * 4];
    let image = ClipboardImage { width: 128, height: 128, bytes: rgba };
    let mut w = Watcher::new();
    let mut sender = match w.poll_image(image, true) {
        ImagePoll::Send(s) => s,
        ImagePoll::Skip => panic!("the image is not sent"),
    };
    assert!(matches!(
        sender.next().unwrap(),
        ClipboardEvent::ImageStart { width: 128, height: 128, total_bytes: 65_536, .. }
    ));
    for expected_offset in [0, IMAGE_CHUNK_BYTES as u64] {
        match sender.next().unwrap() {
            ClipboardEvent::ImageChunk { offset, data, .. } => {
                assert_eq!(offset, expected_offset);
                assert_eq!(data.len(), IMAGE_CHUNK_BYTES);
            }
            _ => panic!("expected image chunk"),
        }
    }
    assert!(matches!(sender.next().unwrap(), ClipboardEvent::ImageEnd { .. }));
    assert!(sender.next().is_none());
}

#[test]
fn an_image_goes_over_and_does_not_come_back() {
    let pixels: Vec<u8> = (0..100 * 100 * 4).map(|n| (n % 251) as u8).collect();
    let copy = || ClipboardImage { width: 100, height: 100, bytes: pixels.clone() };
    let mut here = Watcher::new();
    let mut there = Watcher::new();
    let mut sender = match here.poll_image(copy(), true) {
        ImagePoll::Send(s) => s,
        ImagePoll::Skip => panic!("the image is not sent"),
    };
    let mut applied = None;
    while let Some(ev) = sender.next() {
        if let ClipboardAction::SetImage(i) = there.apply_from_peer(ev) {
            applied = Some(i);
        }
    }
    here.settle(true);
    there.settle(true);
    assert_eq!(applied.unwrap().bytes, pixels);
    assert!(matches!(there.poll_image(copy(), true), ImagePoll::Skip));
    assert!(matches!(here.poll_image(copy(), true), ImagePoll::Skip));
    let mut other = pixels.clone();
    other[0] ^= 1;
    let changed = ClipboardImage { width: 100, height: 100, bytes: other };
    assert!(matches!(there.poll_image(changed, true), ImagePoll::Send(_)));
}

#[test]
fn text_is_sent_once_and_not_sent_back() {
    let mut w = Watcher::new();
    assert_eq!(w.ensure_watcher(true), WatcherStart::Disabled);
    assert!(!w.accepts_peer_events(false));
    assert_eq!(w.ensure_watcher(false), WatcherStart::Start);
    assert_eq!(w.ensure_watcher(false), WatcherStart::Replace);
    assert!(w.accepts_peer_events(false) && !w.accepts_peer_events(true));
    assert!(matches!(w.poll_text(None, true), TextPoll::ReadImage));
    assert!(matches!(w.poll_text(Some("a".to_string()), false), TextPoll::Skip));
    assert!(matches!(w.poll_text(Some("a".to_string()), true), TextPoll::Send(t) if t == "a"));
    w.settle(true);
    assert!(matches!(w.poll_text(Some("a".to_string()), true), TextPoll::Skip));
    let action = w.apply_from_peer(ClipboardEvent::Text("b".to_string()));
    assert!(matches!(action, ClipboardAction::SetText(t) if t == "b"));
    w.settle(true);
    assert!(matches!(w.poll_text(Some("b".to_string()), true), TextPoll::Skip));
    let long = "x".repeat(64 * 1024 + 1);
    assert!(matches!(w.poll_text(Some(long), true), TextPoll::Skip));
    assert!(queue_capacity() > 0);
}

#[test]
fn text_past_the_bound_is_not_taken_from_the_peer() {
    let mut w = Watcher::new();
    assert_eq!(w.ensure_watcher(false), WatcherStart::Start);
    let long = "x".repeat(64 * 1024 + 1);
    let action = w.apply_from_peer(ClipboardEvent::Text(long));
    assert!(matches!(action, ClipboardAction::Nothing));
    let full = "x".repeat(64 * 1024);
    let action = w.apply_from_peer(ClipboardEvent::Text(full.clone()));
    assert!(matches!(action, ClipboardAction::SetText(t) if t == full));
}

#[test]
fn a_paired_key_is_trusted_until_it_is_replaced_or_revoked() {
    let mut list = TrustList::new();
    let (a, b) = ([1u8; 32], [0xabu8; 32]);
    assert!(!list.is_trusted(&a));
    list.add_trusted("laptop", "Laptop", &a, 100);
    assert!(list.is_trusted(&a) && !list.is_trusted(&b));
    assert_eq!(list.list_trusted()[0].noise_static_hex, "01".repeat(32));
    list.add_trusted("desk", "Desk", &b, 200);
    list.add_trusted("laptop", "Laptop", &b, 300);
    assert!(!list.is_trusted(&a), "another key under the same identity is another machine");
    assert_eq!(list.list_trusted().len(), 2);
    assert!(list.revoke("desk"));
    assert!(!list.revoke("desk"));
    assert!(list.is_trusted(&b));
    assert!(list.revoke("laptop"));
    assert!(!list.is_trusted(&b));
}

#[test]
fn a_pin_is_six_digits() {
    assert_eq!(format_pin(42), "000042");
    assert_eq!(format_pin(999_999), "999999");
    let mut all = Vec::new();
    for _ in 0..50 {
        let pin = generate_pin();
        assert_eq!(pin.len(), 6);
        assert!(pin.chars().all(|c| c.is_ascii_digit()));
        all.push(pin);
    }
    all.dedup();
    assert!(all.len() > 1);
}

#[test]
fn a_typed_pin_is_fetched_once() {
    let mut p = Pairing::new();
    assert!(matches!(p.current_phase(), PairingPhase::Idle));
    assert_eq!(p.take_submitted_pin(), None);
    p.submit_pin("111111".to_string());
    p.submit_pin("222222".to_string());
    assert_eq!(p.take_submitted_pin().as_deref(), Some("222222"));
    assert_eq!(p.take_submitted_pin(), None);
    p.set_phase(PairingPhase::Failed { reason: "wrong".to_string() });
    assert!(matches!(p.current_phase(), PairingPhase::Failed { reason } if reason == "wrong"));
}

fn ring(values: &[f32]) -> Latency {
    let mut l = Latency::new();
    for v in values {
        l.record_rtt_ms(bits(*v));
    }
    l
}

#[test]
fn round_trips_are_counted_by_their_length() {
    let s = ring(&[1.0, 3.0, 4.9, 5.0, 1_000.0, f32::NAN, -1.0, f32::INFINITY, -0.0]).snapshot();
    assert_eq!(s.samples, 6);
    assert_eq!(s.histogram, vec![2, 2, 1, 0, 0, 0, 0, 1]);
    assert_eq!(s.last_bits.map(f32::from_bits), Some(0.0));
    assert_eq!(s.min_bits.map(f32::from_bits), Some(0.0));
    assert_eq!(s.max_bits.map(f32::from_bits), Some(1_000.0));
    let sorted: Vec<f32> = s.sorted.iter().map(|b| f32::from_bits(*b)).collect();
    assert_eq!(sorted, vec![0.0, 1.0, 3.0, 4.9, 5.0, 1_000.0]);
}

#[test]
fn only_the_last_round_trips_are_kept() {
    let values: Vec<f32> = (0..200).map(|n| n as f32).collect();
    let mut l = ring(&values);
    let s = l.snapshot();
    assert_eq!(s.samples, 128);
    assert_eq!(s.min_bits.map(f32::from_bits), Some(72.0));
    assert_eq!(s.last_bits.map(f32::from_bits), Some(199.0));
    l.reset();
    let s = l.snapshot();
    assert_eq!((s.samples, s.min_bits, s.last_bits), (0, None, None));
    assert_eq!(s.histogram, vec![0; 8]);
}

fn peer(id: u128, ip: u32) -> PeerAdvert {
    PeerAdvert {
        device_id: DeviceId(id),
        display_name: "peer".to_string(),
        os: "linux".to_string(),
        control_port: 4242,
        addresses: vec![Address::V4(ip)],
    }
}

#[test]
fn one_of_two_machines_dials() {
    let mut low = Peers::new(DeviceId(1));
    let mut high = Peers::new(DeviceId(2));
    assert_eq!(low.hear(DiscoveryEvent::PeerOnline(peer(2, 9))), PeerAction::Dial);
    assert_eq!(high.hear(DiscoveryEvent::PeerOnline(peer(1, 8))), PeerAction::Wait);
    assert_eq!(low.hear(DiscoveryEvent::PeerOnline(peer(1, 8))), PeerAction::Ignore);
    assert_eq!(low.hear(DiscoveryEvent::PeerOnline(peer(2, 10))), PeerAction::Ignore);
    let again = low.redial(DeviceId(2)).unwrap();
    assert_eq!(dial_targets(&again), vec![Endpoint { ip: Address::V4(10), port: 4242 }]);
    assert_eq!(low.hear(DiscoveryEvent::PeerOffline(DeviceId(2))), PeerAction::Gone);
    assert!(low.redial(DeviceId(2)).is_none());
    assert_eq!(low.hear(DiscoveryEvent::PeerOnline(peer(2, 9))), PeerAction::Dial);
}

#[test]
fn every_address_of_a_peer_is_dialed() {
    let mut p = peer(2, 9);
    p.addresses.push(Address::V6(7));
    let targets = dial_targets(&p);
    assert_eq!(targets.len(), 2);
    assert_eq!(targets[1], Endpoint { ip: Address::V6(7), port: 4242 });
    p.addresses.clear();
    assert!(dial_targets(&p).is_empty());
    assert_eq!(detect_local_addresses(None), vec![Address::V4(0x7f00_0001)]);
    assert_eq!(detect_local_addresses(Some(Address::V6(3))), vec![Address::V6(3)]);
}

#[test]
fn the_guard_holds_back_an_echo() {
    let mut g = EchoGuard::new();
    let mut t = AudioToggles::new();
    assert!(g.forwards(&t, StreamKind::SysOut, 1_000));
    g.hear(StreamKind::SysOut, 11, 1_000);
    g.hear(StreamKind::Mic, 500, 1_000);
    assert!(g.forwards(&t, StreamKind::SysOut, 1_000));
    g.hear(StreamKind::SysOut, 12, 1_000);
    assert!(!g.forwards(&t, StreamKind::SysOut, 1_499));
    assert!(g.forwards(&t, StreamKind::SysOut, 1_500));
    assert!(g.forwards(&t, StreamKind::Mic, 1_100));
    set_send_mic(&mut t, false);
    assert!(!g.forwards(&t, StreamKind::Mic, 1_100));
}

fn sessions() -> (EncryptedSession, EncryptedSession) {
    let a = generate_static_key().unwrap();
    let b = generate_static_key().unwrap();
    let mut i = Initiator::new(&a.private).unwrap();
    let mut r = Responder::new(&b.private).unwrap();
    let (hello, _) = read_frame(&i.hello().unwrap()).unwrap();
    let (reply, _) = read_frame(&r.reply(&hello).unwrap()).unwrap();
    let (last, init_session) = i.answer(&reply).unwrap();
    let (last, _) = read_frame(&last).unwrap();
    let resp_session = r.finish(&last).unwrap();
    (EncryptedSession::from(init_session), EncryptedSession::from(resp_session))
}

fn counters() -> Counters {
    Counters { session: SessionStats::new(), totals: RuntimeStatus::new().totals }
}

#[test]
fn a_packet_is_taken_from_the_peer_and_once() {
    let (mut a, mut b) = sessions();
    let mut c = counters();
    let here = Endpoint { ip: Address::V4(1), port: 1 };
    let there = Endpoint { ip: Address::V4(2), port: 1 };
    let frame = match on_loop_event(&mut a, LoopEvent::Frame(Some(b"frame".to_vec()))) {
        LoopAction::Send(f) => f,
        _ => panic!("the frame is not sent"),
    };
    assert!(open_datagram(&mut c, &mut b, here, there, &frame).is_none());
    assert_eq!(c.session.recv_pkts, 0);
    assert_eq!(open_datagram(&mut c, &mut b, here, here, &frame).unwrap(), b"frame");
    assert!(open_datagram(&mut c, &mut b, here, here, &frame).is_none());
    assert_eq!((c.session.recv_pkts, c.session.decrypt_errs), (2, 1));
    assert_eq!(c.session.recv_bytes, 2 * frame.len() as u64);
    assert_eq!((c.totals.recv_pkts, c.totals.decrypt_errs), (2, 1));
}

#[test]
fn frames_go_where_they_belong() {
    let mut g = EchoGuard::new();
    let mut t = AudioToggles::new();
    let audio = |stream, len| WireFrame::Audio(AudioFrame { stream, seq: 1, opus: vec![0; len] });
    let moved = WireFrame::Input(InputEvent::MouseMove { dx: 900, dy: 0 });
    assert!(matches!(
        deliver(&mut g, &t, moved, 1_000),
        Delivery::Inject(InputEvent::MouseMove { dx: 200, dy: 0 })
    ));
    assert!(matches!(deliver(&mut g, &t, audio(StreamKind::Mic, 50), 1_000), Delivery::VirtualMic(_)));
    assert_eq!(g.last_peer_sysout_ms, 0);
    assert!(matches!(deliver(&mut g, &t, audio(StreamKind::SysOut, 50), 1_000), Delivery::Speakers(_)));
    assert_eq!(g.last_peer_sysout_ms, 1_000);
    set_play_mic(&mut t, false);
    assert!(matches!(deliver(&mut g, &t, audio(StreamKind::Mic, 50), 1_000), Delivery::Muted));
    let press = WireFrame::Input(InputEvent::MouseButton { btn: Button::Left, down: true });
    assert!(matches!(
        deliver(&mut g, &t, press, 1_000),
        Delivery::Inject(InputEvent::MouseButton { btn: Button::Left, down: true })
    ));
}

#[test]
fn a_session_counts_what_it_does() {
    let mut c = counters();
    count_injected(&mut c, true);
    count_injected(&mut c, false);
    count_heard(&mut c, true);
    count_heard(&mut c, false);
    assert!(matches!(on_sent(&mut c, 40, true), LoopAction::GoOn));
    assert!(matches!(on_sent(&mut c, 40, false), LoopAction::End(SessionEnd::SendFailed)));
    let before = SessionStats::new();
    let d = c.session.delta(&before);
    assert_eq!((d.injected, d.inject_errs, d.audio_recv), (1, 1, 1));
    assert_eq!((d.sent_pkts, d.sent_bytes), (1, 40));
    assert!(d.worth_reporting());
    assert!(!before.worth_reporting());
    assert_eq!(before.delta(&c.session), before);
}

#[test]
fn the_loop_ends_for_three_reasons() {
    let (mut a, _) = sessions();
    assert!(matches!(
        on_loop_event(&mut a, LoopEvent::ControlEnded),
        LoopAction::End(SessionEnd::ControlEnded)
    ));
    assert!(matches!(
        on_loop_event(&mut a, LoopEvent::Closed),
        LoopAction::End(SessionEnd::BroadcastClosed)
    ));
    assert!(matches!(on_loop_event(&mut a, LoopEvent::Lagged), LoopAction::GoOn));
    assert!(matches!(on_loop_event(&mut a, LoopEvent::Frame(None)), LoopAction::GoOn));
    let huge = vec![0; 70_000];
    assert!(matches!(on_loop_event(&mut a, LoopEvent::Frame(Some(huge))), LoopAction::GoOn));
    assert_eq!(exit_reason(SessionEnd::ControlEnded), "TCP control reader ended");
    assert_eq!(exit_reason(SessionEnd::SendFailed), "UDP send error");
    assert_eq!(exit_reason(SessionEnd::BroadcastClosed), "broadcast closed");
}

#[test]
fn control_messages_are_read_as_they_were_written() {
    let (mut a, mut b) = sessions();
    let mut stream = write_encrypted(&mut a, b"first").unwrap();
    stream.extend(write_encrypted(&mut a, b"second").unwrap());
    assert!(read_encrypted(&mut b, &stream[..3]).is_none());
    assert!(read_encrypted(&mut b, &stream[..20]).is_none());
    let (first, used) = read_encrypted(&mut b, &stream).unwrap();
    assert_eq!(first.unwrap(), b"first");
    assert_eq!(used, 4 + 8 + 5 + 16);
    let (second, _) = read_encrypted(&mut b, &stream[used..]).unwrap();
    assert_eq!(second.unwrap(), b"second");
    assert!(write_encrypted(&mut a, &vec![0; 70_000]).is_err());
}

#[test]
fn transitions_reach_the_other_machine() {
    let mut st = InputState::new(Platform::Windows);
    let mut out = Vec::new();
    let mut say = |st: &mut InputState, ev| {
        on_control(st, control_message(ev), true, (5, 5), 1_000, &mut out)
    };
    assert!(matches!(say(&mut st, RemoteEvent::Entered), ControlAction::Nothing));
    assert!(st.link.peer_in_remote);
    say(&mut st, RemoteEvent::Exited);
    assert!(!st.link.peer_in_remote);
    say(&mut st, RemoteEvent::GameDriveStart);
    assert_eq!(st.link.game_drive, GameDrive::Receiving);
    say(&mut st, RemoteEvent::GameDriveStop);
    assert_eq!(st.link.game_drive, GameDrive::Off);
    say(&mut st, RemoteEvent::RequestPeerExit);
    let mut hear = |msg, now_ms| on_control(&mut st, msg, true, (0, 0), now_ms, &mut out);
    let text = clipboard_message(ClipboardEvent::Text("t".to_string()));
    assert!(matches!(
        hear(text, 0),
        ControlAction::ApplyClipboard(ClipboardEvent::Text(t)) if t == "t"
    ));
    let chunk = clipboard_message(ClipboardEvent::ImageChunk { id: 4, offset: 8, data: vec![1] });
    assert!(matches!(
        hear(chunk, 0),
        ControlAction::ApplyClipboard(ClipboardEvent::ImageChunk { id: 4, offset: 8, data }) if data == [1]
    ));
    assert!(matches!(
        hear(ControlMsg::FileCancel { id: 3 }, 0),
        ControlAction::File(ControlMsg::FileCancel { id: 3 })
    ));
    let back = match hear(ping(1_000), 77) {
        ControlAction::Reply(m) => m,
        _ => panic!("a ping is answered"),
    };
    assert!(matches!(hear(back, 1_012), ControlAction::RoundTrip { ms: 12 }));
}

#[test]
fn a_session_begins_and_leaves_nothing_behind() {
    let mut st = InputState::new(Platform::Windows);
    let mut status = RuntimeStatus::new();
    st.keys.last_smart_to_peer = true;
    st.activity.peer_activity_at = 5;
    st.activity.local_click_at = 4;
    let mut begun = Vec::new();
    begin_session(&mut st, &mut status, "10.0.0.2:4000".to_string(), &mut begun);
    assert!(st.link.remote_listener && status.peer_connected);
    assert!(begun.is_empty());
    assert!(!st.keys.last_smart_to_peer);
    assert_eq!((st.activity.peer_activity_at, st.activity.local_click_at), (0, 4));
    let announce = PortAnnounce {
        udp_port: 777,
        daemon_version: "1".to_string(),
        screen_w: 2560,
        screen_h: 0,
    };
    let control = Endpoint { ip: Address::V4(2), port: 4000 };
    let udp = on_announce(&mut st, control, &announce);
    assert_eq!(udp, Endpoint { ip: Address::V4(2), port: 777 });
    assert_eq!((st.win.peer_w, st.win.peer_h), (2560, 1));
    set_peer_in_remote(&mut st, true);
    end_session(&mut st, &mut status);
    assert!(!st.link.remote_listener && !st.link.peer_in_remote && !status.peer_connected);
    assert_eq!(hex_short(&[0, 1, 0xab, 3, 4, 5, 6]), "0001ab030405");
    assert_eq!(hex_short(&[0xff]), "ff");
    let plan = start_plan(RunOpts { capture: true, inject: false });
    assert!(plan.input_capture && plan.mic_capture && !plan.inject && !plan.virtual_mic);
}

#[test]
fn the_tray_shows_the_peer_and_flips_switches() {
    let mut st = InputState::new(Platform::Windows);
    let mut status = RuntimeStatus::new();
    let mut t = AudioToggles::new();
    let mut out = Vec::new();
    assert_eq!(tray_header(&current_status(&status, &st)), "no peer");
    set_peer_connected(&mut status, "10.0.0.2:4000".to_string(), None);
    assert_eq!(tray_header(&snapshot(&status, &st)), "paired with 10.0.0.2:4000");
    set_peer_connected(&mut status, "10.0.0.2:4000".to_string(), Some("desk".to_string()));
    assert_eq!(tray_header(&snapshot(&status, &st)), "paired with desk");
    status.peer_name = None;
    status.peer_addr = None;
    assert_eq!(tray_header(&snapshot(&status, &st)), "paired");
    clear_peer_connected(&mut status);
    assert_eq!(menu_entry("game_lock"), Some(MenuEntry::GameLock));
    assert_eq!(menu_entry("nothing"), None);
    on_menu_event(MenuEntry::GameLock, &mut t, &mut st, &mut out);
    assert!(refresh(&snapshot(&status, &st), &t).game_lock);
    on_menu_event(MenuEntry::GameLock, &mut t, &mut st, &mut out);
    on_menu_event(MenuEntry::SendMic, &mut t, &mut st, &mut out);
    let view = refresh(&snapshot(&status, &st), &t);
    assert!(!view.game_lock && !view.send_mic && view.play_mic);
    assert_eq!(view.header, "no peer");
    assert_eq!(on_menu_event(MenuEntry::Quit, &mut t, &mut st, &mut out), MenuAction::Exit);
    assert_eq!(on_menu_event(MenuEntry::Show, &mut t, &mut st, &mut out), MenuAction::ShowWindow);
    set_virtual_mic_backend(&mut t, VirtualMicBackend::Pipewire);
    let shown = mineshare::daemon::audio_status::snapshot(&t, "linux");
    assert_eq!(shown.virtual_mic, VirtualMicBackend::Pipewire);
    assert_eq!(shown.os, "linux");
}

#[test]
fn the_layout_is_read_once_and_set_for_the_input() {
    let mut layout = Layout::new();
    assert_eq!(layout.current(Platform::Linux, || None).peer_side, Side::Left);
    let other = || Some(LayoutConfig { peer_side: Side::Top });
    assert_eq!(layout.current(Platform::Linux, other).peer_side, Side::Left);
    assert_eq!(Layout::new().current(Platform::Linux, other).peer_side, Side::Top);
    assert_eq!(LayoutConfig::default_for(Platform::Windows).peer_side, Side::Right);
    let mut st = InputState::new(Platform::Linux);
    layout.set(&mut st, LayoutConfig { peer_side: Side::Bottom });
    assert_eq!(st.link.peer_side, PeerSide::Bottom);
    assert_eq!(layout.current(Platform::Linux, other).peer_side, Side::Bottom);
    assert_eq!(map_side(Side::Right), PeerSide::Right);
}

#[test]
fn an_identity_is_made_once() {
    let (id, new) = Identity::load_or_create(None, None, "linux").ok().unwrap();
    assert!(new);
    assert_eq!(id.display_name, "mineshare");
    assert_eq!(id.os, "linux");
    assert_eq!(id.noise_static_pub.len(), 32);
    let device = id.device_id;
    let (again, new) =
        Identity::load_or_create(Some(id), Some("host".to_string()), "windows").ok().unwrap();
    assert!(!new && again.device_id == device && again.display_name == "mineshare");
    let (named, _) =
        Identity::load_or_create(None, Some("host".to_string()), "windows").ok().unwrap();
    assert_eq!(named.display_name, "host");
    assert_ne!(named.device_id, device);
}

#[test]
fn an_identity_holds_the_keys_that_it_is_made_of() {
    let keys = Keypair { private: vec![1; 32], public: vec![2; 32] };
    let id = Identity::from_keys(keys, DeviceId(7), Some("host".to_string()), "linux");
    assert_eq!(id.device_id, DeviceId(7));
    assert_eq!((id.display_name.as_str(), id.os.as_str()), ("host", "linux"));
    assert_eq!((id.noise_static_priv, id.noise_static_pub), (vec![1; 32], vec![2; 32]));
    let (new, _) = Identity::load_or_create(None, None, "linux").ok().unwrap();
    assert_eq!((new.device_id.0 >> 76) % 16, 4);
    assert_eq!((new.device_id.0 >> 62) % 4, 2);
}

#[test]
fn a_build_is_named_by_its_commit() {
    assert_eq!(build_id("0.0.6", "1a2b3c4", "-dirty", "2026-05-27"), "0.0.6 · 1a2b3c4-dirty · 2026-05-27");
    assert_eq!(build_id_short("0.0.6", "1a2b3c4", ""), "0.0.6 · 1a2b3c4");
}

#[test]
fn one_daemon_runs_in_a_session() {
    assert!(RuntimeOwner::acquire(OwnershipAnswer::Created).ok().unwrap().locked);
    assert!(!RuntimeOwner::acquire(OwnershipAnswer::NotNeeded).ok().unwrap().locked);
    assert_eq!(
        RuntimeOwner::acquire(OwnershipAnswer::AlreadyExists).err(),
        Some(OwnershipError::AlreadyActive)
    );
    assert_eq!(
        RuntimeOwner::acquire(OwnershipAnswer::Failed).err(),
        Some(OwnershipError::LockFailed)
    );
}

#[test]
fn the_first_shutdown_hook_counts() {
    let runs = Cell::new(0);
    let mut hooks: ShutdownHook<Box<dyn Fn() + '_>> = ShutdownHook::new();
    assert!(!hooks.run_shutdown_hook());
    hooks.register_shutdown_hook(Box::new(|| runs.set(runs.get() + 1)));
    hooks.register_shutdown_hook(Box::new(|| runs.set(runs.get() + 100)));
    assert!(hooks.run_shutdown_hook());
    assert_eq!(runs.get(), 1);
}

#[test]
fn old_logs_go_first() {
    assert!(is_daemon_log("daemon.2026-01-01"));
    assert!(!is_daemon_log("daemon"));
    let f = LogFile { modified_ns: 1_000, len: 5 };
    assert!(!expired(&f, 1_000 + LOG_RETENTION_NS));
    assert!(expired(&f, 1_001 + LOG_RETENTION_NS));
    let mib = 1024 * 1024;
    let files = vec![
        LogFile { modified_ns: 30, len: 300 * mib },
        LogFile { modified_ns: 10, len: 200 * mib },
        LogFile { modified_ns: 20, len: 100 * mib },
    ];
    let mut p = Pruning::new(files);
    assert_eq!(p.next(), Some(1));
    p.tried(false);
    assert_eq!(p.next(), Some(2));
    p.tried(true);
    assert_eq!(p.next(), None);
    let mut q = Pruning::new(vec![LogFile { modified_ns: 1, len: 600 * mib }]);
    assert_eq!(q.next(), Some(0));
    q.tried(false);
    assert_eq!(q.next(), None);
}

#[test]
fn a_breakdown_is_written_down() {
    assert_eq!(crash_file_name("2026-01-01T10:20:30Z"), "crash-2026-01-01T10-20-30Z.txt");
    assert_eq!(
        crash_report("1", "main", "a.rs:1:2", "oh", "trace"),
        "MineShare daemon panic\n----------------------\nversion  : 1\nthread   : main\nlocation : a.rs:1:2\nmessage  : oh\n\ntrace\n"
    );
}

fn log(path: &str, modified_ns: u128, len: u64) -> LogEntry {
    LogEntry { path: path.to_string(), modified_ns, len }
}

#[test]
fn a_bundle_takes_the_newest_logs() {
    assert_eq!(host_label(Some("my host!"), "linux"), "my-host--linux");
    assert_eq!(host_label(Some(""), "linux"), "unknown-linux");
    assert_eq!(host_label(None, "windows"), "unknown-windows");
    assert!(is_log("daemon.log") && !is_log("other"));
    let files = [log("a", 10, 100), log("b", 40, 50), log("c", 30, 70), log("d", 20, 5)];
    let reads = plan_recent_logs(&files, 3, 100);
    assert_eq!(
        reads,
        vec![
            TailRead { index: 1, take: 50 },
            TailRead { index: 2, take: 50 },
            TailRead { index: 3, take: 0 }
        ]
    );
    let contents = ["bb".to_string(), "cc".to_string(), String::new()];
    assert_eq!(
        read_recent_logs(&files, &reads, &contents),
        "--- b (50 bytes) ---\nbb\n--- c (70 bytes) ---\ncc\n--- d (5 bytes) ---\n(skipped — bundle size cap reached)\n\n"
    );
    assert_eq!(read_recent_logs(&[], &[], &[]), "(no daemon log files found)\n");
    let none = plan_recent_logs(&files, 0, 100);
    assert!(none.is_empty());
    assert_eq!(read_recent_logs(&files, &none, &[]), "(no daemon log files found)\n");
    assert_eq!(tail_start(70, 50), 20);
    assert_eq!(tail_start(10, 50), 0);
    assert_eq!(commit_message("h", "t"), "logs: snapshot from h at t");
}

#[test]
fn a_bundle_has_a_head() {
    let h = Header {
        host: "h".to_string(),
        os: "o".to_string(),
        arch: "a".to_string(),
        collected: "now".to_string(),
        version: "1".to_string(),
        log_dir: "/l".to_string(),
        identity: Some(("id".to_string(), "name".to_string())),
        local_addrs: "[]".to_string(),
    };
    assert_eq!(
        build_header(&h),
        "=== MineShare log bundle ===\nhost:        h\nos:          o\narch:        a\ncollected:   now\ndaemon ver:  1\nlog dir:     /l\ndevice id:   id\ndisplay:     name\nlocal addrs: []\n"
    );
    let nameless = Header { identity: None, ..h };
    assert!(!build_header(&nameless).contains("device id"));
}
