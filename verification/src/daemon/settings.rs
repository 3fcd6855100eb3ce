//! What the user has set, and where it takes effect.

use crate::audio::{self, AudioDevices};
use crate::daemon::audio_status::{
    set_play_mic, set_play_sysout, set_send_mic, set_send_sysout, AudioToggles,
};
use crate::input::speed::{
    self, clamp_number, clamp_speed, set_mouse_sensitivity, set_touchpad_scroll_speed, ONE_BITS,
};
use crate::input::{
    self, mouse_rate_stats, set_auto_focus_on_take_control, set_invert_scroll, set_mouse_rate_hz,
    InputState, MouseRateStats, Tuning, MAX_MOUSE_RATE_HZ, MIN_MOUSE_RATE_HZ,
};
use crate::text::{self, copy_optional, same_text};
use vstd::prelude::*;
use vstd::string::*;

verus! {

pub const DEFAULT_MOUSE_RATE_HZ: u32 = 500;

/// What the user has set. Speeds are kept by their bit patterns.
pub struct Settings {
    pub mouse_sensitivity_bits: u32,
    pub invert_scroll_y: bool,
    pub invert_scroll_x: bool,
    pub touchpad_scroll_speed_bits: u32,
    pub auto_focus_on_take_control: bool,
    pub mouse_rate_hz: u32,
    /// The device that plays the peer's sound; the default without one.
    pub audio_output_device: Option<String>,
    pub audio_input_device: Option<String>,
    /// The device whose sound is captured.
    pub sysout_capture_device: Option<String>,
    pub audio_send_sysout: bool,
    pub audio_play_sysout: bool,
    pub audio_send_mic: bool,
    pub audio_play_mic: bool,
}

/// What holds where the user has set nothing.
pub open spec fn defaults() -> Settings {
    Settings {
        mouse_sensitivity_bits: ONE_BITS,
        invert_scroll_y: false,
        invert_scroll_x: false,
        touchpad_scroll_speed_bits: ONE_BITS,
        auto_focus_on_take_control: false,
        mouse_rate_hz: DEFAULT_MOUSE_RATE_HZ,
        audio_output_device: None,
        audio_input_device: None,
        sysout_capture_device: None,
        audio_send_sysout: true,
        audio_play_sysout: true,
        audio_send_mic: true,
        audio_play_mic: true,
    }
}

impl Default for Settings {
    fn default() -> (r: Self)
        ensures
            r == defaults(),
    {
        Settings {
            mouse_sensitivity_bits: ONE_BITS,
            invert_scroll_y: false,
            invert_scroll_x: false,
            touchpad_scroll_speed_bits: ONE_BITS,
            auto_focus_on_take_control: false,
            mouse_rate_hz: DEFAULT_MOUSE_RATE_HZ,
            audio_output_device: None,
            audio_input_device: None,
            sysout_capture_device: None,
            audio_send_sysout: true,
            audio_play_sysout: true,
            audio_send_mic: true,
            audio_play_mic: true,
        }
    }
}

/// A rate moved between the slowest and the fastest.
pub open spec fn rate(hz: u32) -> u32 {
    crate::arith::clamp(hz as int, MIN_MOUSE_RATE_HZ as int, MAX_MOUSE_RATE_HZ as int) as u32
}

impl Settings {
    /// The settings with everything in its range.
    pub open spec fn in_range(self) -> Settings {
        Settings {
            mouse_sensitivity_bits: speed::clamped_number(self.mouse_sensitivity_bits),
            touchpad_scroll_speed_bits: speed::speed(self.touchpad_scroll_speed_bits),
            mouse_rate_hz: rate(self.mouse_rate_hz),
            ..self
        }
    }

    pub fn clamped(self) -> (r: Self)
        ensures
            r == self.in_range(),
            speed::SLOWEST_BITS <= r.mouse_sensitivity_bits <= speed::FASTEST_BITS,
            speed::SLOWEST_BITS <= r.touchpad_scroll_speed_bits <= speed::FASTEST_BITS,
            MIN_MOUSE_RATE_HZ <= r.mouse_rate_hz <= MAX_MOUSE_RATE_HZ,
    {
        let hz: u32 = if self.mouse_rate_hz < MIN_MOUSE_RATE_HZ {
            MIN_MOUSE_RATE_HZ
        } else if self.mouse_rate_hz > MAX_MOUSE_RATE_HZ {
            MAX_MOUSE_RATE_HZ
        } else {
            self.mouse_rate_hz
        };
        Settings {
            mouse_sensitivity_bits: clamp_number(self.mouse_sensitivity_bits),
            touchpad_scroll_speed_bits: clamp_speed(self.touchpad_scroll_speed_bits),
            mouse_rate_hz: hz,
            ..self
        }
    }
}

/// Clamping twice is clamping once, and leaves alone what is in its range.
pub proof fn settings_in_range_stay(s: Settings)
    ensures
        s.in_range().in_range() == s.in_range(),
        speed::SLOWEST_BITS <= s.mouse_sensitivity_bits <= speed::FASTEST_BITS
            && speed::SLOWEST_BITS <= s.touchpad_scroll_speed_bits <= speed::FASTEST_BITS
            && MIN_MOUSE_RATE_HZ <= s.mouse_rate_hz <= MAX_MOUSE_RATE_HZ ==> s.in_range() == s,
{
}

/// The settings that are used: what was read, in its range, or the defaults
/// where nothing could be read.
pub fn load(read: Option<Settings>) -> (r: Settings)
    ensures
        match read {
            Some(s) => r == s.in_range(),
            None => r == defaults(),
        },
{
    match read {
        Some(s) => s.clamped(),
        None => Settings::default(),
    }
}

/// What settings take effect on.
pub struct Layers {
    pub input: InputState,
    pub audio: AudioDevices,
    pub toggles: AudioToggles,
}

/// Whether the input follows the settings, and is else as it was.
pub open spec fn input_follows(before: InputState, after: InputState, s: Settings) -> bool {
    after == (InputState {
        tuning: Tuning {
            mouse_sens_bits: speed::speed(s.mouse_sensitivity_bits),
            scroll_speed_bits: speed::speed(s.touchpad_scroll_speed_bits),
            invert_scroll_x: s.invert_scroll_x,
            invert_scroll_y: s.invert_scroll_y,
            auto_focus_on_take: s.auto_focus_on_take_control,
            target_flush_us: (1_000_000int / rate(s.mouse_rate_hz) as int) as u64,
        },
        ..before
    })
}

/// Whether the devices are chosen as the settings say, each anew.
pub open spec fn devices_follow(before: AudioDevices, after: AudioDevices, s: Settings) -> bool {
    &&& before.output.chosen(text::optional(s.audio_output_device), after.output)
    &&& before.input.chosen(text::optional(s.audio_input_device), after.input)
    &&& before.sysout_capture.chosen(
        text::optional(s.sysout_capture_device),
        after.sysout_capture,
    )
    &&& after.outputs == before.outputs
    &&& after.inputs == before.inputs
}

/// The switches as the settings say.
pub open spec fn switched(before: AudioToggles, s: Settings) -> AudioToggles {
    AudioToggles {
        send_sysout: s.audio_send_sysout,
        play_sysout: s.audio_play_sysout,
        send_mic: s.audio_send_mic,
        play_mic: s.audio_play_mic,
        ..before
    }
}

fn push_to_input_layer(st: &mut InputState, s: &Settings)
    ensures
        input_follows(*old(st), *final(st), *s),
{
    set_mouse_sensitivity(st, s.mouse_sensitivity_bits);
    set_touchpad_scroll_speed(st, s.touchpad_scroll_speed_bits);
    set_invert_scroll(st, s.invert_scroll_x, s.invert_scroll_y);
    set_auto_focus_on_take_control(st, s.auto_focus_on_take_control);
    set_mouse_rate_hz(st, s.mouse_rate_hz);
}

fn push_to_audio_layer(audio: &mut AudioDevices, toggles: &mut AudioToggles, s: &Settings)
    ensures
        devices_follow(*old(audio), *final(audio), *s),
        *final(toggles) == switched(*old(toggles), *s),
{
    audio::set_output_device(audio, copy_optional(&s.audio_output_device));
    audio::set_input_device(audio, copy_optional(&s.audio_input_device));
    audio::set_sysout_capture_device(audio, copy_optional(&s.sysout_capture_device));
    set_send_sysout(toggles, s.audio_send_sysout);
    set_play_sysout(toggles, s.audio_play_sysout);
    set_send_mic(toggles, s.audio_send_mic);
    set_play_mic(toggles, s.audio_play_mic);
}

/// Puts new settings into effect; gives them as they are to be written to the
/// disk.
pub fn apply(layers: &mut Layers, s: Settings) -> (r: Settings)
    ensures
        r == s.in_range(),
        input_follows(old(layers).input, final(layers).input, r),
        devices_follow(old(layers).audio, final(layers).audio, r),
        final(layers).toggles == switched(old(layers).toggles, r),
{
    let clamped = s.clamped();
    push_to_input_layer(&mut layers.input, &clamped);
    push_to_audio_layer(&mut layers.audio, &mut layers.toggles, &clamped);
    clamped
}

/// Puts the settings into effect that were read when the daemon started.
pub fn install_loaded(layers: &mut Layers, s: &Settings)
    ensures
        input_follows(old(layers).input, final(layers).input, *s),
        devices_follow(old(layers).audio, final(layers).audio, *s),
        final(layers).toggles == switched(old(layers).toggles, *s),
{
    push_to_input_layer(&mut layers.input, s);
    push_to_audio_layer(&mut layers.audio, &mut layers.toggles, s);
}

/// Chooses the device that plays the peer's sound; gives the settings as they
/// are to be written.
pub fn set_audio_output_device(layers: &mut Layers, s: Settings, name: Option<String>) -> (r:
    Settings)
    ensures
        r == (Settings { audio_output_device: name, ..s }),
        final(layers).input == old(layers).input,
        devices_follow(old(layers).audio, final(layers).audio, r),
        final(layers).toggles == switched(old(layers).toggles, r),
{
    let r = Settings { audio_output_device: name, ..s };
    push_to_audio_layer(&mut layers.audio, &mut layers.toggles, &r);
    r
}

/// Chooses the microphone.
pub fn set_audio_input_device(layers: &mut Layers, s: Settings, name: Option<String>) -> (r:
    Settings)
    ensures
        r == (Settings { audio_input_device: name, ..s }),
        final(layers).input == old(layers).input,
        devices_follow(old(layers).audio, final(layers).audio, r),
        final(layers).toggles == switched(old(layers).toggles, r),
{
    let r = Settings { audio_input_device: name, ..s };
    push_to_audio_layer(&mut layers.audio, &mut layers.toggles, &r);
    r
}

/// Chooses the device whose sound is captured.
pub fn set_sysout_capture_device(layers: &mut Layers, s: Settings, name: Option<String>) -> (r:
    Settings)
    ensures
        r == (Settings { sysout_capture_device: name, ..s }),
        final(layers).input == old(layers).input,
        devices_follow(old(layers).audio, final(layers).audio, r),
        final(layers).toggles == switched(old(layers).toggles, r),
{
    let r = Settings { sysout_capture_device: name, ..s };
    push_to_audio_layer(&mut layers.audio, &mut layers.toggles, &r);
    r
}

/// One of the four switches for sound.
#[derive(Debug, Clone, Copy, PartialEq, Eq, Structural)]
pub enum Switch {
    SendSysout,
    PlaySysout,
    SendMic,
    PlayMic,
}

/// The switch that a stream and a direction name.
pub open spec fn switch_named(stream: Seq<char>, direction: Seq<char>) -> Option<Switch> {
    if stream == "sysout"@ && direction == "send"@ {
        Some(Switch::SendSysout)
    } else if stream == "sysout"@ && direction == "play"@ {
        Some(Switch::PlaySysout)
    } else if stream == "mic"@ && direction == "send"@ {
        Some(Switch::SendMic)
    } else if stream == "mic"@ && direction == "play"@ {
        Some(Switch::PlayMic)
    } else {
        None
    }
}

/// The settings with a switch thrown.
pub open spec fn with_switch(s: Settings, w: Switch, enabled: bool) -> Settings {
    match w {
        Switch::SendSysout => Settings { audio_send_sysout: enabled, ..s },
        Switch::PlaySysout => Settings { audio_play_sysout: enabled, ..s },
        Switch::SendMic => Settings { audio_send_mic: enabled, ..s },
        Switch::PlayMic => Settings { audio_play_mic: enabled, ..s },
    }
}

/// There is no such switch.
#[derive(Debug, Clone, Copy, PartialEq, Eq, Structural)]
pub struct UnknownToggle;

/// Throws a switch; gives the settings as they are to be written.
pub fn set_audio_toggle(
    layers: &mut Layers,
    s: Settings,
    stream: &str,
    direction: &str,
    enabled: bool,
) -> (r: Result<Settings, UnknownToggle>)
    ensures
        match r {
            Ok(new) => {
                &&& switch_named(stream@, direction@) is Some
                &&& new == with_switch(s, switch_named(stream@, direction@)->0, enabled)
                &&& final(layers).input == old(layers).input
                &&& devices_follow(old(layers).audio, final(layers).audio, new)
                &&& final(layers).toggles == switched(old(layers).toggles, new)
            },
            Err(_) => switch_named(stream@, direction@) is None && *final(layers) == *old(layers),
        },
{
    let sysout = same_text(stream, "sysout");
    let mic = same_text(stream, "mic");
    let send = same_text(direction, "send");
    let play = same_text(direction, "play");
    let r = if sysout && send {
        Settings { audio_send_sysout: enabled, ..s }
    } else if sysout && play {
        Settings { audio_play_sysout: enabled, ..s }
    } else if mic && send {
        Settings { audio_send_mic: enabled, ..s }
    } else if mic && play {
        Settings { audio_play_mic: enabled, ..s }
    } else {
        return Err(UnknownToggle);
    };
    push_to_audio_layer(&mut layers.audio, &mut layers.toggles, &r);
    Ok(r)
}

/// A switch that was thrown stays thrown when the daemon starts again with the
/// settings that were written.
pub proof fn switches_survive_a_restart(s: Settings, w: Switch, enabled: bool, fresh: AudioToggles)
    ensures
        ({
            let kept = with_switch(s, w, enabled).in_range();
            let t = switched(fresh, kept);
            match w {
                Switch::SendSysout => t.send_sysout == enabled,
                Switch::PlaySysout => t.play_sysout == enabled,
                Switch::SendMic => t.send_mic == enabled,
                Switch::PlayMic => t.play_mic == enabled,
            }
        }),
{
}

/// Settings in their range are used as they are, and others are moved to the
/// nearest that is: a rate between 60 and 1000, speeds between a quarter and four.
/// All else stays.
pub proof fn settings_are_used_as_they_are(s: Settings, r: Settings)
    requires
        call_ensures(load, (Some(s),), r),
    ensures
        60 <= s.mouse_rate_hz <= 1_000 ==> r.mouse_rate_hz == s.mouse_rate_hz,
        s.mouse_rate_hz < 60 ==> r.mouse_rate_hz == 60,
        s.mouse_rate_hz > 1_000 ==> r.mouse_rate_hz == 1_000,
        0x3e80_0000 <= s.mouse_sensitivity_bits <= 0x4080_0000 ==> r.mouse_sensitivity_bits
            == s.mouse_sensitivity_bits,
        0x3e80_0000 <= s.touchpad_scroll_speed_bits <= 0x4080_0000 ==> r.touchpad_scroll_speed_bits
            == s.touchpad_scroll_speed_bits,
        0x4080_0000 < s.mouse_sensitivity_bits < 0x7f80_0000 ==> r.mouse_sensitivity_bits
            == 0x4080_0000,
        s.mouse_sensitivity_bits < 0x3e80_0000 ==> r.mouse_sensitivity_bits == 0x3e80_0000,
        r.invert_scroll_x == s.invert_scroll_x && r.invert_scroll_y == s.invert_scroll_y,
        r.auto_focus_on_take_control == s.auto_focus_on_take_control,
        r.audio_output_device == s.audio_output_device && r.audio_input_device
            == s.audio_input_device && r.sysout_capture_device == s.sysout_capture_device,
        r.audio_send_sysout == s.audio_send_sysout && r.audio_play_sysout == s.audio_play_sysout,
        r.audio_send_mic == s.audio_send_mic && r.audio_play_mic == s.audio_play_mic,
{
}

/// Where nothing is set, speeds are one, the rate is 500, nothing is inverted, the
/// default devices are used and all sound is on.
pub proof fn without_settings_all_is_plain(r: Settings)
    requires
        call_ensures(load, (None::<Settings>,), r),
    ensures
        r.mouse_sensitivity_bits == 0x3f80_0000 && r.touchpad_scroll_speed_bits == 0x3f80_0000,
        r.mouse_rate_hz == 500,
        !r.invert_scroll_x && !r.invert_scroll_y && !r.auto_focus_on_take_control,
        r.audio_output_device is None && r.audio_input_device is None && r.sysout_capture_device is None,
        r.audio_send_sysout && r.audio_play_sysout && r.audio_send_mic && r.audio_play_mic,
{
}

/// Settings take effect: the input goes by the speeds, the rate and the directions
/// that were set, and the sound by the devices and the switches. What is given back
/// to be kept is what took effect.
pub proof fn settings_take_effect(
    layers: &mut Layers,
    s: Settings,
    r: Settings,
    shown: MouseRateStats,
)
    requires
        call_ensures(apply, (layers, s), r),
        call_ensures(mouse_rate_stats, (&final(layers).input,), shown),
        0x3e80_0000 <= s.mouse_sensitivity_bits <= 0x4080_0000,
        0x3e80_0000 <= s.touchpad_scroll_speed_bits <= 0x4080_0000,
        60 <= s.mouse_rate_hz <= 1_000,
    ensures
        r == s,
        ({
            let t = final(layers).input.tuning;
            &&& t.mouse_sens_bits == s.mouse_sensitivity_bits
            &&& t.scroll_speed_bits == s.touchpad_scroll_speed_bits
            &&& t.invert_scroll_x == s.invert_scroll_x && t.invert_scroll_y == s.invert_scroll_y
            &&& t.auto_focus_on_take == s.auto_focus_on_take_control
        }),
        shown.set_hz == s.mouse_rate_hz,
        final(layers).input.link == old(layers).input.link,
        text::optional(final(layers).audio.output.name) == text::optional(s.audio_output_device),
        text::optional(final(layers).audio.input.name) == text::optional(s.audio_input_device),
        text::optional(final(layers).audio.sysout_capture.name) == text::optional(
            s.sysout_capture_device,
        ),
        ({
            let t = final(layers).toggles;
            &&& t.send_sysout == s.audio_send_sysout && t.play_sysout == s.audio_play_sysout
            &&& t.send_mic == s.audio_send_mic && t.play_mic == s.audio_play_mic
        }),
{
    input::the_set_rate_is_shown(s.mouse_rate_hz);
}

/// A switch is thrown by the names of its stream and its direction: that one and
/// no other, in what is kept and in what takes effect. Other names throw none.
pub proof fn a_switch_is_thrown_by_its_name(
    layers: &mut Layers,
    s: Settings,
    stream: &str,
    direction: &str,
    on: bool,
    r: Result<Settings, UnknownToggle>,
)
    requires
        call_ensures(set_audio_toggle, (layers, s, stream, direction, on), r),
    ensures
        r is Ok <==> (stream@ == "sysout"@ || stream@ == "mic"@) && (direction@ == "send"@
            || direction@ == "play"@),
        r is Err ==> *final(layers) == *old(layers),
        r matches Ok(new) ==> {
            let t = final(layers).toggles;
            let (sysout, send) = (stream@ == "sysout"@, direction@ == "send"@);
            &&& new.audio_send_sysout == if sysout && send {
                on
            } else {
                s.audio_send_sysout
            }
            &&& new.audio_play_sysout == if sysout && !send {
                on
            } else {
                s.audio_play_sysout
            }
            &&& new.audio_send_mic == if !sysout && send {
                on
            } else {
                s.audio_send_mic
            }
            &&& new.audio_play_mic == if !sysout && !send {
                on
            } else {
                s.audio_play_mic
            }
            &&& new.mouse_rate_hz == s.mouse_rate_hz
            &&& t.send_sysout == new.audio_send_sysout && t.play_sysout == new.audio_play_sysout
            &&& t.send_mic == new.audio_send_mic && t.play_mic == new.audio_play_mic
        },
{
    reveal_strlit("sysout");
    reveal_strlit("mic");
    reveal_strlit("send");
    reveal_strlit("play");
    assert("sysout"@.len() == 6 && "mic"@.len() == 3);
    assert("send"@[0] == 's' && "play"@[0] == 'p');
}

/// A device that the user picks is used and kept, and nothing else changes.
pub proof fn a_picked_device_is_used(
    layers: (&mut Layers, &mut Layers, &mut Layers),
    s: Settings,
    name: Option<String>,
    r: (Settings, Settings, Settings),
)
    requires
        call_ensures(set_audio_output_device, (layers.0, s, name), r.0),
        call_ensures(set_audio_input_device, (layers.1, s, name), r.1),
        call_ensures(set_sysout_capture_device, (layers.2, s, name), r.2),
    ensures
        r.0.audio_output_device == name && r.0.audio_input_device == s.audio_input_device
            && r.0.sysout_capture_device == s.sysout_capture_device,
        r.1.audio_input_device == name && r.1.audio_output_device == s.audio_output_device
            && r.1.sysout_capture_device == s.sysout_capture_device,
        r.2.sysout_capture_device == name && r.2.audio_output_device == s.audio_output_device
            && r.2.audio_input_device == s.audio_input_device,
        text::optional(final(layers.0).audio.output.name) == text::optional(name),
        text::optional(final(layers.1).audio.input.name) == text::optional(name),
        text::optional(final(layers.2).audio.sysout_capture.name) == text::optional(name),
        final(layers.0).input == old(layers.0).input,
        final(layers.0).audio.outputs == old(layers.0).audio.outputs,
        final(layers.0).audio.inputs == old(layers.0).audio.inputs,
        r.0.mouse_rate_hz == s.mouse_rate_hz && r.0.audio_send_mic == s.audio_send_mic,
{
}

} // verus!
