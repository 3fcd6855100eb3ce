//! Capturing input on a Linux machine.

use mineshare::input::events::{Button, InputEvent, KeyCode};
use mineshare::input::linux::{
    button_from_key, forward_scaled_motion, key_from_button, pump_device, DeviceEvent, MotionStep,
    Pump, REL_X,
};
use mineshare::input::screen::{detect_via_xrandr, is_virtual_device};
use mineshare::input::{set_remote_event_sender, CursorMode, Effect, InputState, Platform, RemoteEvent};

fn mouse() -> Pump {
    Pump { is_pointer: true, accum_dx: 0, accum_dy: 0, grabbed: false }
}

#[test]
fn buttons_have_the_numbers_of_the_system() {
    assert_eq!(key_from_button(Button::Left), 0x110);
    assert_eq!(key_from_button(Button::X2), 0x114);
    assert_eq!(button_from_key(0x112), Some(Button::Middle));
    assert_eq!(button_from_key(30), None);
}

#[test]
fn a_sustained_push_enters_the_peer() {
    let mut st = InputState::new(Platform::Linux);
    set_remote_event_sender(&mut st);
    let mut pump = mouse();
    let mut out = Vec::new();
    let mut now = 1_000;
    let mut rounds = 0;
    while st.linux.mode == CursorMode::Local && rounds < 1_000 {
        pump_device(&mut st, &mut pump, DeviceEvent::Relative { axis: REL_X, value: 20 }, now, &mut out);
        pump_device(&mut st, &mut pump, DeviceEvent::SynReport, now, &mut out);
        now += 8;
        rounds += 1;
    }
    assert_eq!(st.linux.mode, CursorMode::Remote);
    assert!(out.contains(&Effect::Remote(RemoteEvent::Entered)));
    assert!(rounds > 10, "entering takes more than one report");
    out.clear();
    pump_device(&mut st, &mut pump, DeviceEvent::Relative { axis: REL_X, value: 7 }, now, &mut out);
    let step = pump_device(&mut st, &mut pump, DeviceEvent::SynReport, now, &mut out);
    assert_eq!(step, MotionStep::Scale { dx: 7, dy: 0 });
    forward_scaled_motion(&mut st.linux, 7, 0, now + 50, &mut out);
    assert!(out
        .iter()
        .any(|e| matches!(e, Effect::Forward(InputEvent::MouseMove { dx: 7, dy: 0 }))));
}

#[test]
fn keys_go_to_the_peer_while_it_is_driven() {
    let mut st = InputState::new(Platform::Linux);
    st.linux.mode = CursorMode::Remote;
    let mut pump = Pump { is_pointer: false, ..mouse() };
    let mut out = Vec::new();
    pump_device(&mut st, &mut pump, DeviceEvent::Key { code: 30, value: 1 }, 5, &mut out);
    assert!(out.contains(&Effect::Forward(InputEvent::Key { code: KeyCode(30), down: true })));
    st.linux.mode = CursorMode::Local;
    out.clear();
    pump_device(&mut st, &mut pump, DeviceEvent::Key { code: 30, value: 0 }, 6, &mut out);
    assert!(out.contains(&Effect::Forward(InputEvent::Key { code: KeyCode(30), down: false })));
    pump_device(&mut st, &mut pump, DeviceEvent::Key { code: 0x110, value: 1 }, 7, &mut out);
    out.clear();
    pump_device(&mut st, &mut pump, DeviceEvent::Key { code: 31, value: 1 }, 8, &mut out);
    assert!(out.is_empty());
}

#[test]
fn the_screen_size_is_read_from_its_report() {
    let report = "Screen 0: minimum 16 x 16, current 2560 x 1440, maximum 32767 x 32767\nDP-1 connected";
    assert_eq!(detect_via_xrandr(report), Some((2560, 1440)));
    assert_eq!(detect_via_xrandr("nothing of use"), None);
    assert!(!is_virtual_device("Logitech Mouse"));
}
