//! Sound: what is captured on one machine and played on the other.
//!
//! A frame is 20 ms of two channels at 48 kHz, encoded.

use crate::audio::capture::CpalMic;
use crate::audio::playback::CpalPlayback;
use crate::input::Platform;
use crate::text::{self, copy_optional, same_text};
use vstd::prelude::*;
use vstd::string::*;

pub mod capture;
pub mod codec;
pub mod playback;
pub mod ring;
pub mod sink;
pub mod virtual_mic;

verus! {

/// Whether a frame goes to the speakers or to the virtual microphone.
#[derive(Debug, Clone, Copy, PartialEq, Eq, Structural)]
pub enum StreamKind {
    SysOut,
    Mic,
}

/// One encoded frame.
pub struct AudioFrame {
    pub stream: StreamKind,
    /// Counts the frames of a stream; after the largest number comes zero.
    pub seq: u32,
    pub opus: Vec<u8>,
}

pub const SAMPLE_RATE: u32 = 48_000;

pub const CHANNELS: u16 = 2;

/// Samples of one channel in a frame.
pub const FRAME_SAMPLES_PER_CHANNEL: usize = 960;

/// Samples of both channels in a frame.
pub const FRAME_SAMPLES_INTERLEAVED: usize = 1_920;

/// How long a list of devices is kept.
pub const DEVICE_CACHE_TTL_MS: u64 = 5_000;

/// A device as it is listed.
pub struct DeviceInfo {
    pub name: String,
    pub is_default: bool,
}

/// What a [`DeviceInfo`] stands for.
pub struct Device {
    pub name: Seq<char>,
    pub is_default: bool,
}

impl View for DeviceInfo {
    type V = Device;

    open spec fn view(&self) -> Device {
        Device { name: self.name@, is_default: self.is_default }
    }
}

/// What a list of devices stands for.
pub open spec fn devices(list: Seq<DeviceInfo>) -> Seq<Device> {
    list.map_values(|d: DeviceInfo| d@)
}

fn copy_devices(list: &Vec<DeviceInfo>) -> (r: Vec<DeviceInfo>)
    ensures
        devices(r@) == devices(list@),
{
    let mut r: Vec<DeviceInfo> = Vec::new();
    let mut i: usize = 0;
    while i < list.len()
        invariant
            i <= list@.len(),
            devices(r@) == devices(list@).subrange(0, i as int),
        decreases list@.len() - i,
    {
        let ghost before = r@;
        r.push(DeviceInfo { name: list[i].name.clone(), is_default: list[i].is_default });
        assert(devices(r@) =~= devices(before).push(r@.last()@));
        assert(devices(list@).subrange(0, i + 1) =~= devices(list@).subrange(0, i as int).push(
            list@[i as int]@,
        ));
        i = i + 1;
    }
    assert(devices(list@).subrange(0, list@.len() as int) =~= devices(list@));
    r
}

/// A list of devices, and when it was made.
pub struct DeviceCache {
    pub entry: Option<(u64, Vec<DeviceInfo>)>,
}

impl View for DeviceCache {
    type V = Option<(u64, Seq<Device>)>;

    open spec fn view(&self) -> Option<(u64, Seq<Device>)> {
        match self.entry {
            Some(e) => Some((e.0, devices(e.1@))),
            None => None,
        }
    }
}

/// The list that is still good.
pub open spec fn kept(cache: Option<(u64, Seq<Device>)>, now_ms: u64) -> Option<Seq<Device>> {
    match cache {
        Some(e) => if crate::arith::elapsed(now_ms, e.0) < DEVICE_CACHE_TTL_MS {
            Some(e.1)
        } else {
            None
        },
        None => None,
    }
}

/// Gives the list that was kept, or makes a new one and keeps it. `compute`
/// gives the new list and the time at which it was made.
fn cached_or_compute<F: FnOnce() -> (u64, Vec<DeviceInfo>)>(
    cache: &mut DeviceCache,
    now_ms: u64,
    compute: F,
) -> (r: Vec<DeviceInfo>)
    requires
        compute.requires(()),
    ensures
        match kept(old(cache)@, now_ms) {
            Some(list) => devices(r@) == list && final(cache)@ == old(cache)@,
            None => exists|made: (u64, Vec<DeviceInfo>)|
                #![trigger compute.ensures((), made)]
                compute.ensures((), made) && devices(r@) == devices(made.1@) && final(cache)@
                    == Some((made.0, devices(made.1@))),
        },
{
    match &cache.entry {
        Some(e) => {
            if now_ms.saturating_sub(e.0) < DEVICE_CACHE_TTL_MS {
                return copy_devices(&e.1);
            }
        },
        None => {},
    }
    let made = compute();
    let r = copy_devices(&made.1);
    cache.entry = Some(made);
    r
}

/// A device that the user has chosen, and how often a choice was made. Without
/// a name the default of the system is followed.
pub struct Selection {
    pub name: Option<String>,
    pub version: u64,
}

impl Selection {
    /// The choice of a name.
    pub open spec fn chosen(self, name: Option<Seq<char>>, after: Selection) -> bool {
        text::optional(after.name) == name && after.version == self.version.wrapping_add(1)
    }

    fn select(&mut self, name: Option<String>)
        ensures
            old(self).chosen(text::optional(name), *final(self)),
            final(self).name == name,
    {
        self.name = name;
        self.version = self.version.wrapping_add(1);
    }
}

/// The audio devices of this machine, as far as they are remembered.
pub struct AudioDevices {
    pub outputs: DeviceCache,
    pub inputs: DeviceCache,
    pub output: Selection,
    pub input: Selection,
    pub sysout_capture: Selection,
}

impl AudioDevices {
    pub fn new() -> (r: Self)
        ensures
            r.outputs@ is None,
            r.inputs@ is None,
            r.output == (Selection { name: None, version: 0 }),
            r.input == (Selection { name: None, version: 0 }),
            r.sysout_capture == (Selection { name: None, version: 0 }),
    {
        AudioDevices {
            outputs: DeviceCache { entry: None },
            inputs: DeviceCache { entry: None },
            output: Selection { name: None, version: 0 },
            input: Selection { name: None, version: 0 },
            sysout_capture: Selection { name: None, version: 0 },
        }
    }
}

/// Lists the output devices. `compute` asks the system, which takes long, and
/// so it is asked only when the last list is too old.
pub fn list_output_devices<F: FnOnce() -> (u64, Vec<DeviceInfo>)>(
    st: &mut AudioDevices,
    now_ms: u64,
    compute: F,
) -> (r: Vec<DeviceInfo>)
    requires
        compute.requires(()),
    ensures
        *final(st) == (AudioDevices { outputs: final(st).outputs, ..*old(st) }),
        match kept(old(st).outputs@, now_ms) {
            Some(list) => devices(r@) == list && final(st).outputs@ == old(st).outputs@,
            None => exists|made: (u64, Vec<DeviceInfo>)|
                #![trigger compute.ensures((), made)]
                compute.ensures((), made) && devices(r@) == devices(made.1@)
                    && final(st).outputs@ == Some((made.0, devices(made.1@))),
        },
{
    cached_or_compute(&mut st.outputs, now_ms, compute)
}

/// Lists the input devices, as [`list_output_devices`] lists the outputs.
pub fn list_input_devices<F: FnOnce() -> (u64, Vec<DeviceInfo>)>(
    st: &mut AudioDevices,
    now_ms: u64,
    compute: F,
) -> (r: Vec<DeviceInfo>)
    requires
        compute.requires(()),
    ensures
        *final(st) == (AudioDevices { inputs: final(st).inputs, ..*old(st) }),
        match kept(old(st).inputs@, now_ms) {
            Some(list) => devices(r@) == list && final(st).inputs@ == old(st).inputs@,
            None => exists|made: (u64, Vec<DeviceInfo>)|
                #![trigger compute.ensures((), made)]
                compute.ensures((), made) && devices(r@) == devices(made.1@)
                    && final(st).inputs@ == Some((made.0, devices(made.1@))),
        },
{
    cached_or_compute(&mut st.inputs, now_ms, compute)
}

/// Forgets both lists.
pub fn invalidate_device_cache(st: &mut AudioDevices)
    ensures
        *final(st) == (AudioDevices {
            outputs: DeviceCache { entry: None },
            inputs: DeviceCache { entry: None },
            ..*old(st)
        }),
{
    st.outputs.entry = None;
    st.inputs.entry = None;
}

/// A device without a name is listed under a question mark.
pub open spec fn listed_name(name: Option<Seq<char>>) -> Seq<char> {
    match name {
        Some(n) => n,
        None => seq!['?'],
    }
}

/// How the system's devices are listed; the ones that bear the name of the
/// default device are marked.
pub open spec fn listing(names: Seq<Option<String>>, default_name: Option<Seq<char>>) -> Seq<Device> {
    names.map_values(
        |n: Option<String>|
            Device {
                name: listed_name(text::optional(n)),
                is_default: listed_name(text::optional(n)) == match default_name {
                    Some(d) => d,
                    None => Seq::empty(),
                },
            },
    )
}

/// Lists devices by the names that the system gave.
pub fn list_devices(names: &[Option<String>], default_name: Option<&str>) -> (r: Vec<DeviceInfo>)
    ensures
        devices(r@) == listing(
            names@,
            match default_name {
                Some(d) => Some(d@),
                None => None,
            },
        ),
{
    let default_text = match default_name {
        Some(d) => String::from_str(d),
        None => String::new(),
    };
    let ghost default_view = match default_name {
        Some(d) => Some(d@),
        None => None,
    };
    let mut r: Vec<DeviceInfo> = Vec::new();
    let mut i: usize = 0;
    while i < names.len()
        invariant
            i <= names@.len(),
            default_text@ == (match default_view {
                Some(d) => d,
                None => Seq::empty(),
            }),
            devices(r@) == listing(names@, default_view).subrange(0, i as int),
        decreases names@.len() - i,
    {
        let name = match &names[i] {
            Some(n) => n.clone(),
            None => {
                let mut q = String::new();
                q.push('?');
                assert(q@ =~= seq!['?']);
                q
            },
        };
        let is_default = same_text(name.as_str(), default_text.as_str());
        let ghost before = r@;
        r.push(DeviceInfo { name, is_default });
        assert(devices(r@) =~= devices(before).push(r@.last()@));
        assert(listing(names@, default_view).subrange(0, i + 1) =~= listing(
            names@,
            default_view,
        ).subrange(0, i as int).push(listing(names@, default_view)[i as int]));
        i = i + 1;
    }
    assert(listing(names@, default_view).subrange(0, names@.len() as int) =~= listing(
        names@,
        default_view,
    ));
    r
}

/// Chooses the device that plays the peer's sound.
pub fn set_output_device(st: &mut AudioDevices, name: Option<String>)
    ensures
        old(st).output.chosen(text::optional(name), final(st).output),
        *final(st) == (AudioDevices { output: final(st).output, ..*old(st) }),
{
    st.output.select(name);
}

/// Chooses the microphone.
pub fn set_input_device(st: &mut AudioDevices, name: Option<String>)
    ensures
        old(st).input.chosen(text::optional(name), final(st).input),
        *final(st) == (AudioDevices { input: final(st).input, ..*old(st) }),
{
    st.input.select(name);
}

/// Chooses the device whose sound is captured, apart from the one that plays
/// the peer's.
pub fn set_sysout_capture_device(st: &mut AudioDevices, name: Option<String>)
    ensures
        old(st).sysout_capture.chosen(text::optional(name), final(st).sysout_capture),
        *final(st) == (AudioDevices { sysout_capture: final(st).sysout_capture, ..*old(st) }),
{
    st.sysout_capture.select(name);
}

pub fn selected_output_device(st: &AudioDevices) -> (r: Option<String>)
    ensures
        text::optional(r) == text::optional(st.output.name),
{
    copy_optional(&st.output.name)
}

pub fn selected_input_device(st: &AudioDevices) -> (r: Option<String>)
    ensures
        text::optional(r) == text::optional(st.input.name),
{
    copy_optional(&st.input.name)
}

pub fn selected_sysout_capture_device(st: &AudioDevices) -> (r: Option<String>)
    ensures
        text::optional(r) == text::optional(st.sysout_capture.name),
{
    copy_optional(&st.sysout_capture.name)
}

pub fn output_device_version(st: &AudioDevices) -> (r: u64)
    ensures
        r == st.output.version,
{
    st.output.version
}

pub fn input_device_version(st: &AudioDevices) -> (r: u64)
    ensures
        r == st.input.version,
{
    st.input.version
}

pub fn sysout_capture_device_version(st: &AudioDevices) -> (r: u64)
    ensures
        r == st.sysout_capture.version,
{
    st.sysout_capture.version
}

/// The first device that bears the chosen name, if there is one.
pub open spec fn resolved(
    choice: Option<Seq<char>>,
    names: Option<Seq<Option<String>>>,
    r: Option<usize>,
) -> bool {
    match r {
        Some(i) => {
            &&& choice is Some
            &&& names is Some
            &&& i < names->0.len()
            &&& text::optional(names->0[i as int]) == choice
            &&& forall|j: int| 0 <= j < i ==> text::optional(#[trigger] names->0[j]) != choice
        },
        None => choice is Some && names is Some ==> forall|j: int|
            0 <= j < names->0.len() ==> text::optional(#[trigger] names->0[j]) != choice,
    }
}

fn resolve(choice: &Option<String>, names: Option<&[Option<String>]>) -> (r: Option<usize>)
    ensures
        resolved(
            text::optional(*choice),
            match names {
                Some(n) => Some(n@),
                None => None,
            },
            r,
        ),
{
    let want = match choice {
        Some(w) => w,
        None => {
            return None;
        },
    };
    let listed = match names {
        Some(n) => n,
        None => {
            return None;
        },
    };
    let mut i: usize = 0;
    while i < listed.len()
        invariant
            i <= listed@.len(),
            *choice == Some(*want),
            names == Some(listed),
            forall|j: int| 0 <= j < i ==> text::optional(#[trigger] listed@[j]) != Some(want@),
        decreases listed@.len() - i,
    {
        match &listed[i] {
            Some(n) => {
                if same_text(n.as_str(), want.as_str()) {
                    return Some(i);
                }
            },
            None => {},
        }
        i = i + 1;
    }
    None
}

/// Finds the device that plays the peer's sound among the ones that the system
/// names, if it could name them. Without an answer the default is used.
pub fn resolve_output_device(st: &AudioDevices, names: Option<&[Option<String>]>) -> (r: Option<
    usize,
>)
    ensures
        resolved(
            text::optional(st.output.name),
            match names {
                Some(n) => Some(n@),
                None => None,
            },
            r,
        ),
{
    resolve(&st.output.name, names)
}

/// Finds the microphone, as [`resolve_output_device`] finds the output.
pub fn resolve_input_device(st: &AudioDevices, names: Option<&[Option<String>]>) -> (r: Option<
    usize,
>)
    ensures
        resolved(
            text::optional(st.input.name),
            match names {
                Some(n) => Some(n@),
                None => None,
            },
            r,
        ),
{
    resolve(&st.input.name, names)
}

/// Finds the device whose sound is captured.
pub fn resolve_sysout_capture_device(
    st: &AudioDevices,
    names: Option<&[Option<String>]>,
) -> (r: Option<usize>)
    ensures
        resolved(
            text::optional(st.sysout_capture.name),
            match names {
                Some(n) => Some(n@),
                None => None,
            },
            r,
        ),
{
    resolve(&st.sysout_capture.name, names)
}

/// The program or device that a kind of sound goes through.
#[derive(Debug, Clone, Copy, PartialEq, Eq, Structural)]
pub enum Backend {
    WasapiLoopback,
    PipewireMonitor,
    PipewireVirtualMic,
    VbCable,
}

/// There is no way to do it on this platform.
#[derive(Debug, Clone, Copy, PartialEq, Eq, Structural)]
pub struct Unsupported;

/// Tells what captures the sound that this machine plays.
pub fn make_sysout_capture(platform: Platform) -> (r: Result<Backend, Unsupported>)
    ensures
        r == match platform {
            Platform::Windows => Ok::<Backend, Unsupported>(Backend::WasapiLoopback),
            Platform::Linux => Ok(Backend::PipewireMonitor),
            Platform::Other => Err(Unsupported),
        },
{
    match platform {
        Platform::Windows => Ok(Backend::WasapiLoopback),
        Platform::Linux => Ok(Backend::PipewireMonitor),
        Platform::Other => Err(Unsupported),
    }
}

/// Captures the microphone, on every platform.
pub fn make_mic_capture() -> (r: CpalMic)
    ensures
        !r.started,
{
    CpalMic::new()
}

/// Plays the sound of the peer, on every platform: starts without a stream,
/// under the device that is selected.
pub fn make_playback(st: &AudioDevices, now_ms: u64) -> (r: CpalPlayback)
    ensures
        r == playback::fresh(st.output.version, now_ms),
{
    CpalPlayback::new(st.output.version, now_ms)
}

/// Tells what the peer's microphone is played into.
pub fn make_virtual_mic_playback(platform: Platform) -> (r: Result<Backend, Unsupported>)
    ensures
        r == match platform {
            Platform::Windows => Ok::<Backend, Unsupported>(Backend::VbCable),
            Platform::Linux => Ok(Backend::PipewireVirtualMic),
            Platform::Other => Err(Unsupported),
        },
{
    match platform {
        Platform::Windows => Ok(Backend::VbCable),
        Platform::Linux => Ok(Backend::PipewireVirtualMic),
        Platform::Other => Err(Unsupported),
    }
}

/// Every device is listed under its own name, in the order of the system, and
/// the default one is marked.
pub proof fn every_device_is_listed(
    names: &[Option<String>],
    default: &str,
    r: Vec<DeviceInfo>,
    i: int,
)
    requires
        call_ensures(list_devices, (names, Some(default)), r),
        0 <= i < names@.len(),
    ensures
        r@.len() == names@.len(),
        names@[i] matches Some(n) ==> r@[i].name@ == n@ && r@[i].is_default == (n@ == default@),
{
    let list = devices(r@);
    assert(list.len() == names@.len());
    assert(list[i] == r@[i]@);
}

/// The device that the user chooses is the one that is used: it is shown as
/// chosen, found under its name where it is there, and each choice is a new one
/// to who uses it. The other choices stay.
pub proof fn the_chosen_output_is_used(
    st: &mut AudioDevices,
    name: String,
    names: &[Option<String>],
    r: (Option<String>, Option<usize>, u64),
)
    requires
        call_ensures(set_output_device, (st, Some(name)), ()),
        call_ensures(selected_output_device, (&*final(st),), r.0),
        call_ensures(resolve_output_device, (&*final(st), Some(names)), r.1),
        call_ensures(output_device_version, (&*final(st),), r.2),
    ensures
        r.0 matches Some(n) && n@ == name@,
        r.1 matches Some(i) ==> i < names@.len() && (names@[i as int] matches Some(n) && n@ == name@),
        r.1 is None ==> forall|j: int|
            0 <= j < names@.len() ==> !((#[trigger] names@[j]) matches Some(n) && n@ == name@),
        r.2 != old(st).output.version,
        final(st).input == old(st).input,
        final(st).sysout_capture == old(st).sysout_capture,
{
}

/// The same of the microphone that the user chooses.
pub proof fn the_chosen_input_is_used(
    st: &mut AudioDevices,
    name: String,
    names: &[Option<String>],
    r: (Option<String>, Option<usize>, u64),
)
    requires
        call_ensures(set_input_device, (st, Some(name)), ()),
        call_ensures(selected_input_device, (&*final(st),), r.0),
        call_ensures(resolve_input_device, (&*final(st), Some(names)), r.1),
        call_ensures(input_device_version, (&*final(st),), r.2),
    ensures
        r.0 matches Some(n) && n@ == name@,
        r.1 matches Some(i) ==> i < names@.len() && (names@[i as int] matches Some(n) && n@ == name@),
        r.1 is None ==> forall|j: int|
            0 <= j < names@.len() ==> !((#[trigger] names@[j]) matches Some(n) && n@ == name@),
        r.2 != old(st).input.version,
        final(st).output == old(st).output,
        final(st).sysout_capture == old(st).sysout_capture,
{
}

/// The same of the device whose sound is captured.
pub proof fn the_chosen_capture_is_used(
    st: &mut AudioDevices,
    name: String,
    names: &[Option<String>],
    r: (Option<String>, Option<usize>, u64),
)
    requires
        call_ensures(set_sysout_capture_device, (st, Some(name)), ()),
        call_ensures(selected_sysout_capture_device, (&*final(st),), r.0),
        call_ensures(resolve_sysout_capture_device, (&*final(st), Some(names)), r.1),
        call_ensures(sysout_capture_device_version, (&*final(st),), r.2),
    ensures
        r.0 matches Some(n) && n@ == name@,
        r.1 matches Some(i) ==> i < names@.len() && (names@[i as int] matches Some(n) && n@ == name@),
        r.1 is None ==> forall|j: int|
            0 <= j < names@.len() ==> !((#[trigger] names@[j]) matches Some(n) && n@ == name@),
        r.2 != old(st).sysout_capture.version,
        final(st).output == old(st).output,
        final(st).input == old(st).input,
{
}

/// Without a choice the default of the system is used.
pub proof fn no_choice_is_the_default(
    st: &AudioDevices,
    names: Option<&[Option<String>]>,
    r: (Option<usize>, Option<usize>, Option<usize>),
)
    requires
        st.output.name is None && st.input.name is None && st.sysout_capture.name is None,
        call_ensures(resolve_output_device, (st, names), r.0),
        call_ensures(resolve_input_device, (st, names), r.1),
        call_ensures(resolve_sysout_capture_device, (st, names), r.2),
    ensures
        r.0 is None && r.1 is None && r.2 is None,
{
}

/// Each system has its own way to capture what it plays and to offer the peer's
/// microphone.
pub proof fn each_system_has_its_way(
    p: Platform,
    r: (Result<Backend, Unsupported>, Result<Backend, Unsupported>),
)
    requires
        call_ensures(make_sysout_capture, (p,), r.0),
        call_ensures(make_virtual_mic_playback, (p,), r.1),
    ensures
        p == Platform::Windows ==> r.0 == Ok::<Backend, Unsupported>(Backend::WasapiLoopback) && r.1
            == Ok::<Backend, Unsupported>(Backend::VbCable),
        p == Platform::Linux ==> r.0 == Ok::<Backend, Unsupported>(Backend::PipewireMonitor) && r.1
            == Ok::<Backend, Unsupported>(Backend::PipewireVirtualMic),
        p == Platform::Other ==> r.0 is Err && r.1 is Err,
{
}

/// A list of devices is good for five seconds, and no longer.
pub proof fn a_list_is_good_for_five_seconds(made_ms: u64, list: Seq<Device>, now_ms: u64)
    requires
        made_ms <= now_ms,
    ensures
        now_ms - made_ms < 5_000 ==> kept(Some((made_ms, list)), now_ms) == Some(list),
        now_ms - made_ms >= 5_000 ==> kept(Some((made_ms, list)), now_ms) is None,
        kept(None, now_ms) is None,
{
}

/// Forgotten lists are made anew, and the choices of the user stay.
pub proof fn forgotten_lists_are_made_anew(d: &mut AudioDevices, now_ms: u64)
    requires
        call_ensures(invalidate_device_cache, (d,), ()),
    ensures
        kept(final(d).outputs@, now_ms) is None,
        kept(final(d).inputs@, now_ms) is None,
        final(d).output == old(d).output,
        final(d).input == old(d).input,
        final(d).sysout_capture == old(d).sysout_capture,
{
}

} // verus!
