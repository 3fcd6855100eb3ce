//! Sound: devices, capture, playback.

use mineshare::audio::capture::{
    bytes_from_samples, loopback_plan, mic_plan, samples_from_bytes, CaptureConfig, CaptureError,
    CpalMic, EncodeStep, FrameEncoder, PipewireMonitor, WasapiLoopback,
};
use mineshare::audio::codec::{
    check_decode_buffer, check_encode_input, encoder_settings, frames_lost, interleaved_len,
    CodecError,
};
use mineshare::audio::playback::{
    can_play, pick_config, ConfigRange, FrameOutcome, CpalPlayback, SampleFormat,
};
use mineshare::audio::ring::{sample_ring, silence_after};
use mineshare::audio::sink::{goes_on, CaptureSink, SendOutcome};
use mineshare::audio::virtual_mic::{
    find_cable_input_device, stale_modules, CableMissing, MicFrame, PipewireVirtualMic,
    VbCablePlayback,
};
use mineshare::audio::{
    input_device_version, invalidate_device_cache, list_devices, list_input_devices,
    list_output_devices, make_mic_capture, make_playback, make_sysout_capture,
    make_virtual_mic_playback, output_device_version,
    resolve_input_device, resolve_output_device, resolve_sysout_capture_device,
    selected_input_device, selected_output_device, selected_sysout_capture_device,
    set_input_device, set_output_device, set_sysout_capture_device, sysout_capture_device_version,
    AudioDevices, AudioFrame, Backend, DeviceInfo, StreamKind, Unsupported,
};
use mineshare::input::Platform;
use std::sync::atomic::{AtomicBool, Ordering};
use std::sync::Arc;

fn some(name: &str) -> Option<String> {
    Some(name.to_string())
}

#[test]
fn frames_lost_counts_the_gap() {
    assert_eq!(frames_lost(None, 0), 0);
    assert_eq!(frames_lost(Some(4), 5), 0); // contiguous
    assert_eq!(frames_lost(Some(4), 7), 2); // dropped 5,6
    assert_eq!(frames_lost(Some(9), 9), 0); // duplicate -> caller drops
}

#[test]
fn a_restarted_sender_has_lost_nothing() {
    assert_eq!(frames_lost(Some(100), 0), 0);
    assert_eq!(frames_lost(Some(0), u32::MAX), u32::MAX - 1);
}

fn frame(seq: u32) -> AudioFrame {
    AudioFrame { stream: StreamKind::Mic, seq, opus: vec![seq as u8] }
}

#[test]
fn capture_sink_is_dynamic_bounded_and_lossy() {
    let enabled = Arc::new(AtomicBool::new(false));
    let enabled_for_sink = enabled.clone();
    let (tx, rx) = tokio::sync::mpsc::channel(1);
    let sink = CaptureSink::new(tx, move || enabled_for_sink.load(Ordering::Relaxed));

    assert!(!sink.is_active());
    enabled.store(true, Ordering::Relaxed);
    assert!(sink.is_active());
    assert!(sink.send_lossy(frame(1)));
    for seq in 2..=100_001 {
        assert!(sink.send_lossy(frame(seq)), "a full queue is a lossy drop");
    }
    assert_eq!(rx.len(), 1);
    drop(rx);
    assert!(!sink.send_lossy(frame(3)));
}

#[test]
fn a_queued_frame_is_the_one_that_was_sent() {
    let (tx, mut rx) = tokio::sync::mpsc::channel(2);
    let sink = CaptureSink::new(tx, || true);
    assert!(sink.send_lossy(frame(5)));
    let got = rx.try_recv().ok().unwrap();
    assert_eq!((got.seq, got.opus), (5, vec![5]));
    assert!(goes_on(SendOutcome::Queued) && goes_on(SendOutcome::Full));
    assert!(!goes_on(SendOutcome::Closed));
}

#[test]
fn codec_input_is_a_whole_frame() {
    assert_eq!(check_encode_input(1_920), Ok(()));
    assert_eq!(check_encode_input(960), Err(CodecError::WrongFrameSize { samples: 960 }));
    assert_eq!(check_decode_buffer(2_000), Ok(()));
    assert_eq!(check_decode_buffer(1_919), Err(CodecError::BufferTooSmall { samples: 1_919 }));
    assert_eq!(interleaved_len(960), 1_920);
    let s = encoder_settings(48_000, true);
    assert!(s.vbr && s.dtx && s.inband_fec);
    assert_eq!(s.packet_loss_perc, Some(10));
    assert_eq!(encoder_settings(96_000, false).packet_loss_perc, None);
}

fn config(sample_rate: u32, channels: u16, format: SampleFormat) -> Option<CaptureConfig> {
    Some(CaptureConfig { sample_rate, channels, format })
}

#[test]
fn a_capture_is_planned_for_its_device() {
    let plan = mic_plan(config(16_000, 1, SampleFormat::I16)).unwrap();
    assert_eq!(plan.in_samples_per_out, 321);
    assert_eq!(plan.bitrate_bps, 48_000);
    assert!(plan.converts);
    assert_eq!(plan.stream, StreamKind::Mic);
    let plan = loopback_plan(config(48_000, 2, SampleFormat::F32)).unwrap();
    assert_eq!(plan.in_samples_per_out, 1_922);
    assert_eq!(plan.bitrate_bps, 96_000);
    assert!(!plan.converts);
    let plan = loopback_plan(config(44_100, 2, SampleFormat::I16)).unwrap();
    assert_eq!(plan.in_samples_per_out, 2 * 883);
}

#[test]
fn a_capture_is_refused_for_what_is_wrong() {
    assert_eq!(mic_plan(None), Err(CaptureError::NoDevice));
    assert_eq!(
        mic_plan(config(48_000, 0, SampleFormat::F32)),
        Err(CaptureError::UnsupportedChannels { channels: 0 })
    );
    assert_eq!(
        mic_plan(config(48_000, 1, SampleFormat::Other)),
        Err(CaptureError::UnsupportedFormat { format: SampleFormat::Other })
    );
    assert!(mic_plan(config(48_000, 6, SampleFormat::I32)).is_ok());
    assert_eq!(loopback_plan(None), Err(CaptureError::NoDevice));
    assert_eq!(
        loopback_plan(config(48_000, 6, SampleFormat::F32)),
        Err(CaptureError::UnsupportedChannels { channels: 6 })
    );
    assert_eq!(
        loopback_plan(config(48_000, 2, SampleFormat::I32)),
        Err(CaptureError::UnsupportedFormat { format: SampleFormat::I32 })
    );
}

#[test]
fn frames_are_numbered_as_they_are_made() {
    let mut e = FrameEncoder::new(StreamKind::SysOut, 100);
    assert_eq!(e.step(99, true), EncodeStep::Wait);
    assert_eq!(e.step(100, false), EncodeStep::Discard);
    assert_eq!(e.step(100, true), EncodeStep::Encode);
    let first = e.encoded(Some(vec![1])).unwrap();
    assert_eq!((first.seq, first.stream), (0, StreamKind::SysOut));
    assert!(e.encoded(None).is_none());
    assert_eq!(e.encoded(Some(vec![2])).unwrap().seq, 1);
    e.seq = u32::MAX;
    assert_eq!(e.encoded(Some(vec![3])).unwrap().seq, u32::MAX);
    assert_eq!(e.encoded(Some(vec![4])).unwrap().seq, 0);
}

#[test]
fn samples_are_little_endian() {
    let values = [0.5f32, -1.0, 0.0];
    let patterns: Vec<u32> = values.iter().map(|v| v.to_bits()).collect();
    let raw = bytes_from_samples(&patterns);
    let expected: Vec<u8> = values.iter().flat_map(|v| v.to_le_bytes()).collect();
    assert_eq!(raw, expected);
    assert_eq!(samples_from_bytes(&raw), patterns);
    assert_eq!(samples_from_bytes(&raw[..7]), patterns[..1]);
}

#[test]
fn a_capture_is_started_once() {
    let mut mic = CpalMic::new();
    assert!(mic.start());
    assert!(!mic.start());
    let mut loopback = WasapiLoopback::new();
    assert!(loopback.start());
    assert!(!loopback.start());
    let mut monitor = PipewireMonitor::new();
    assert!(!monitor.close());
    assert!(monitor.start());
    monitor.spawned();
    assert!(!monitor.start());
    assert!(monitor.close());
    assert!(!monitor.close());
}

#[test]
fn a_device_list_is_kept_for_a_while() {
    let mut st = AudioDevices::new();
    let list = |name: &str| vec![DeviceInfo { name: name.to_string(), is_default: true }];
    let first = list_output_devices(&mut st, 1_000, || (1_500, list("a")));
    assert_eq!(first[0].name, "a");
    assert_eq!(list_output_devices(&mut st, 6_499, || (0, list("b")))[0].name, "a");
    assert_eq!(list_output_devices(&mut st, 6_500, || (6_600, list("c")))[0].name, "c");
    assert_eq!(list_input_devices(&mut st, 6_600, || (6_600, list("m")))[0].name, "m");
    invalidate_device_cache(&mut st);
    assert_eq!(list_output_devices(&mut st, 6_700, || (6_700, list("d")))[0].name, "d");
    let named = list_devices(&[some("x"), None, some("y")], Some("y"));
    let shown: Vec<(&str, bool)> = named.iter().map(|d| (d.name.as_str(), d.is_default)).collect();
    assert_eq!(shown, vec![("x", false), ("?", false), ("y", true)]);
}

#[test]
fn a_chosen_device_is_found_by_name() {
    let mut st = AudioDevices::new();
    let names = [some("a"), None, some("b"), some("b")];
    assert_eq!(resolve_output_device(&st, Some(&names)), None);
    set_output_device(&mut st, some("b"));
    set_input_device(&mut st, some("gone"));
    set_sysout_capture_device(&mut st, some("a"));
    assert_eq!(resolve_output_device(&st, Some(&names)), Some(2));
    assert_eq!(resolve_output_device(&st, None), None);
    assert_eq!(resolve_input_device(&st, Some(&names)), None);
    assert_eq!(resolve_sysout_capture_device(&st, Some(&names)), Some(0));
    set_output_device(&mut st, None);
    assert_eq!(output_device_version(&st), 2);
    assert_eq!(input_device_version(&st), 1);
    assert_eq!(sysout_capture_device_version(&st), 1);
    assert_eq!(selected_output_device(&st), None);
    assert_eq!(selected_input_device(&st), some("gone"));
    assert_eq!(selected_sysout_capture_device(&st), some("a"));
}

#[test]
fn each_platform_has_its_devices() {
    assert_eq!(make_sysout_capture(Platform::Windows), Ok(Backend::WasapiLoopback));
    assert_eq!(make_sysout_capture(Platform::Linux), Ok(Backend::PipewireMonitor));
    assert_eq!(make_sysout_capture(Platform::Other), Err(Unsupported));
    assert_eq!(make_virtual_mic_playback(Platform::Windows), Ok(Backend::VbCable));
    assert_eq!(make_virtual_mic_playback(Platform::Linux), Ok(Backend::PipewireVirtualMic));
    assert_eq!(make_virtual_mic_playback(Platform::Other), Err(Unsupported));
}

fn range(channels: u16, lo: u32, hi: u32, format: SampleFormat) -> ConfigRange {
    ConfigRange { channels, min_sample_rate: lo, max_sample_rate: hi, format }
}

#[test]
fn the_best_configuration_is_picked() {
    let ranges = [
        range(1, 8_000, 96_000, SampleFormat::F32),
        range(2, 8_000, 96_000, SampleFormat::I16),
        range(2, 44_100, 44_100, SampleFormat::F32),
        range(2, 48_000, 48_000, SampleFormat::F32),
    ];
    assert_eq!(pick_config(&ranges), Some(3));
    assert_eq!(pick_config(&ranges[..3]), Some(1));
    assert_eq!(pick_config(&ranges[..1]), None);
    assert!(can_play(SampleFormat::I16) && !can_play(SampleFormat::I32));
}

#[test]
fn a_stream_is_built_and_built_again() {
    let mut p = CpalPlayback::new(5, 1_000);
    assert!(p.needs_build(5, false, 1_000));
    p.built(5, None, 1_000);
    assert!(!p.needs_build(5, false, 3_999));
    assert!(p.needs_build(5, false, 4_000));
    p.built(5, Some(0), 4_000);
    assert!(!p.needs_build(5, false, 4_001));
    assert!(p.needs_build(5, true, 4_001));
    p.built(5, Some(0), 4_001);
    assert!(p.needs_build(6, false, 4_002));
}

#[test]
fn a_device_that_stops_is_given_up() {
    let mut p = CpalPlayback::new(1, 0);
    p.built(1, Some(10), 0);
    assert_eq!(p.on_frame(11, 20), FrameOutcome::Play);
    assert_eq!(p.on_frame(30, 500), FrameOutcome::Play);
    assert_eq!(p.on_frame(30, 520), FrameOutcome::Play);
    assert_eq!(p.on_frame(30, 1_000), FrameOutcome::PlayAndDropStream);
    assert!(p.needs_build(1, false, 1_000));
}

#[test]
fn lost_frames_are_reported_now_and_then() {
    let mut p = CpalPlayback::new(1, 0);
    assert_eq!(p.on_frame(0, 100), FrameOutcome::Lost);
    assert_eq!(p.on_frame(0, 2_000), FrameOutcome::LostAndReport { count: 2 });
    assert_eq!(p.on_frame(0, 2_001), FrameOutcome::Lost);
}

#[test]
fn leftover_sinks_are_found_in_the_list() {
    let list = "1\tmodule-null-sink\tsink_name=mineshare_mic channels=2\n\
                2\tmodule-null-sink\tsink_name=other\n\
                3\tmodule-loopback\tsink_name=mineshare_mic\n\
                no tabs here\n\
                44\tmodule-null-sink\tchannels=2 sink_name=mineshare_mic\textra";
    assert_eq!(stale_modules(list), vec!["1".to_string(), "44".to_string()]);
    assert!(stale_modules("").is_empty());
    assert!(stale_modules("5\tmodule-null-sink").is_empty());
}

#[test]
fn the_virtual_cable_is_found_whatever_its_case() {
    let names = [some("Speakers"), None, some("CABLE Input (VB-Audio)"), some("cable input 2")];
    assert_eq!(find_cable_input_device(&names), Some(2));
    assert_eq!(find_cable_input_device(&names[..2]), None);
    assert_eq!(VbCablePlayback::new(Some(&names)), Ok(VbCablePlayback { device: 2 }));
    assert_eq!(VbCablePlayback::new(Some(&names[..2])), Err(CableMissing));
    assert_eq!(VbCablePlayback::new(None), Err(CableMissing));
}

#[test]
fn a_virtual_microphone_stops_after_a_failure() {
    let mut mic = PipewireVirtualMic::new("536870913".to_string());
    assert_eq!(mic.enqueue(), MicFrame::Write);
    mic.write_failed();
    assert_eq!(mic.enqueue(), MicFrame::Drop);
    assert_eq!(mic.close(), (true, some("536870913")));
    assert_eq!(mic.close(), (false, None));
}

#[test]
fn a_device_gets_what_came_and_silence() {
    let (mut writer, mut reader) = sample_ring();
    assert_eq!(writer.enqueue(&[1, 2, 3]), 0);
    let mut out = vec![9; 2];
    assert_eq!(reader.fill_callback(&mut out), 0);
    assert_eq!(out, vec![1, 2]);
    let mut out = vec![9; 3];
    assert_eq!(reader.fill_callback(&mut out), 2);
    assert_eq!(out, vec![3, 0, 0]);
    let mut out = vec![7, 8];
    silence_after(&mut out, 1);
    assert_eq!(out, vec![7, 0]);
}

#[test]
fn a_full_ring_loses_what_has_no_room() {
    let (mut writer, mut reader) = sample_ring();
    assert_eq!(writer.enqueue(&vec![5; 19_201]), 1);
    assert_eq!(writer.enqueue(&[6]), 1);
    let encoder = FrameEncoder::new(StreamKind::Mic, 19_200);
    assert_eq!(encoder.poll(&reader, true), EncodeStep::Encode);
    assert_eq!(encoder.poll(&reader, false), EncodeStep::Discard);
    let mut frame = vec![0; 19_200];
    assert!(reader.take_frame(&mut frame));
    assert_eq!(frame, vec![5; 19_200]);
    assert_eq!(encoder.poll(&reader, true), EncodeStep::Wait);
    assert!(!reader.take_frame(&mut frame));
}

#[test]
fn capture_and_playback_start_idle() {
    assert!(!make_mic_capture().started);
    let mut st = AudioDevices::new();
    set_output_device(&mut st, None);
    let mut playback = make_playback(&st, 50);
    assert_eq!(playback, CpalPlayback::new(1, 50));
    assert!(playback.needs_build(1, false, 50));
}
