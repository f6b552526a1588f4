//! Recording devices, as the capture backend lists them.

use vstd::prelude::*;
use crate::capture::{argument_views, push_argument};
use crate::platform::{supports_native_system_audio_capture, HostPlatform};
use crate::text::{
    chars_of, contains, extend, extend_str, find, first_match, includes, last_match,
    line_views, lines, lines_of, lowercase_of, rfind, same_ignoring_ascii_case, slice,
    str_eq_ignore_ascii_case, to_string, trim, trimmed,
};

verus! {

/// A device that audio can be recorded from.
#[derive(Debug)]
pub struct RecordingDevice {
    pub name: String,
    /// The backend format that reads the device.
    pub format: String,
    /// How the backend addresses the device.
    pub input: String,
    /// Whether the device carries what the system plays.
    pub is_loopback: bool,
}

/// A device with its texts as sequences.
pub struct RecordingDeviceView {
    pub name: Seq<char>,
    pub format: Seq<char>,
    pub input: Seq<char>,
    pub is_loopback: bool,
}

impl View for RecordingDevice {
    type V = RecordingDeviceView;

    open spec fn view(&self) -> RecordingDeviceView {
        RecordingDeviceView {
            name: self.name@,
            format: self.format@,
            input: self.input@,
            is_loopback: self.is_loopback,
        }
    }
}

/// The views of a list of devices.
pub open spec fn device_views(devices: Seq<RecordingDevice>) -> Seq<RecordingDeviceView> {
    devices.map_values(|d: RecordingDevice| d@)
}

/// Whether a device name, given in lower case, holds one of the words by
/// which loopback devices are known.
pub open spec fn names_loopback(lower: Seq<char>) -> bool {
    ||| contains(lower, "blackhole"@)
    ||| contains(lower, "loopback"@)
    ||| contains(lower, "soundflower"@)
    ||| contains(lower, "vb-cable"@)
    ||| contains(lower, "stereo mix"@)
    ||| contains(lower, "monitor of"@)
}

/// Whether `lower`, a device name in lower case, names a loopback device.
pub fn has_loopback_marker(lower: &str) -> (r: bool)
    ensures
        r == names_loopback(lower@),
{
    let l = chars_of(lower);
    includes(&l, &chars_of("blackhole")) || includes(&l, &chars_of("loopback")) || includes(
        &l,
        &chars_of("soundflower"),
    ) || includes(&l, &chars_of("vb-cable")) || includes(&l, &chars_of("stereo mix")) || includes(
        &l,
        &chars_of("monitor of"),
    )
}

/// Whether `name` names a loopback device, whatever the case of its letters.
pub fn is_loopback_device_name(name: &str) -> (r: bool)
    ensures
        r == names_loopback(lowercase_of(name@)),
{
    let lower = name.to_lowercase();
    has_loopback_marker(lower.as_str())
}

/// Whether one of `found` has the name `name`, up to the case of ASCII
/// letters.
pub open spec fn knows_name(found: Seq<RecordingDeviceView>, name: Seq<char>) -> bool {
    exists|k: int| 0 <= k < found.len() && same_ignoring_ascii_case((#[trigger] found[k]).name, name)
}

/// The device that a line of an AVFoundation listing names. Such a line
/// ends in `] [index] name`: the index stands between the last `] [` and the
/// next `] `, the name after it. A line without both, or with an empty index
/// or name, names no device.
pub open spec fn macos_device_of(line: Seq<char>) -> Option<RecordingDeviceView> {
    match last_match(line, "] ["@) {
        None => None,
        Some(marker) => {
            let rest = line.skip(marker + "] ["@.len());
            match first_match(rest, "] "@) {
                None => None,
                Some(end) => {
                    let index = trimmed(rest.take(end));
                    let name = trimmed(rest.skip(end + "] "@.len()));
                    if index.len() == 0 || name.len() == 0 {
                        None
                    } else {
                        Some(
                            RecordingDeviceView {
                                name,
                                format: "avfoundation"@,
                                input: ":"@ + index,
                                is_loopback: names_loopback(lowercase_of(name)),
                            },
                        )
                    }
                },
            }
        },
    }
}

/// The devices of an AVFoundation listing, read line by line: `found`
/// followed by the devices that the lines name. Only lines of the audio
/// section count, which starts at its heading and ends at the heading of the
/// video section.
pub open spec fn macos_devices_in(
    lines: Seq<Seq<char>>,
    in_audio_section: bool,
    found: Seq<RecordingDeviceView>,
) -> Seq<RecordingDeviceView>
    decreases lines.len(),
{
    if lines.len() == 0 {
        found
    } else {
        let line = trimmed(lines[0]);
        let rest = lines.drop_first();
        if contains(line, "AVFoundation audio devices"@) {
            macos_devices_in(rest, true, found)
        } else if contains(line, "AVFoundation video devices"@) {
            macos_devices_in(rest, false, found)
        } else if !in_audio_section {
            macos_devices_in(rest, false, found)
        } else {
            match macos_device_of(line) {
                Some(device) => macos_devices_in(rest, true, found.push(device)),
                None => macos_devices_in(rest, true, found),
            }
        }
    }
}

/// The audio devices that an AVFoundation listing names, in its order.
pub open spec fn macos_recording_devices(output: Seq<char>) -> Seq<RecordingDeviceView> {
    macos_devices_in(lines_of(output), false, Seq::empty())
}

/// The name that a line of a DirectShow listing gives: what stands between
/// its first two double quotes, trimmed. A line without two quotes, or with
/// nothing but whitespace between them, gives none.
pub open spec fn windows_name_of(line: Seq<char>) -> Option<Seq<char>> {
    match first_match(line, seq!['"']) {
        None => None,
        Some(first) => {
            let remainder = line.skip(first + 1);
            match first_match(remainder, seq!['"']) {
                None => None,
                Some(second) => {
                    let name = trimmed(remainder.take(second));
                    if name.len() == 0 {
                        None
                    } else {
                        Some(name)
                    }
                },
            }
        },
    }
}

/// The device of that name in a DirectShow listing.
pub open spec fn windows_device(name: Seq<char>) -> RecordingDeviceView {
    RecordingDeviceView {
        name,
        format: "dshow"@,
        input: "audio="@ + name,
        is_loopback: names_loopback(lowercase_of(name)),
    }
}

/// The devices of a DirectShow listing, read line by line: `found` followed
/// by the devices that the lines name. Only lines of the audio section count,
/// lines that give an alternative name do not, and a name that was found
/// before, up to the case of ASCII letters, is not taken again.
pub open spec fn windows_devices_in(
    lines: Seq<Seq<char>>,
    in_audio_section: bool,
    found: Seq<RecordingDeviceView>,
) -> Seq<RecordingDeviceView>
    decreases lines.len(),
{
    if lines.len() == 0 {
        found
    } else {
        let line = trimmed(lines[0]);
        let rest = lines.drop_first();
        if contains(line, "DirectShow audio devices"@) {
            windows_devices_in(rest, true, found)
        } else if contains(line, "DirectShow video devices"@) {
            windows_devices_in(rest, false, found)
        } else if !in_audio_section || contains(line, "Alternative name"@) {
            windows_devices_in(rest, in_audio_section, found)
        } else {
            match windows_name_of(line) {
                Some(name) => if knows_name(found, name) {
                    windows_devices_in(rest, true, found)
                } else {
                    windows_devices_in(rest, true, found.push(windows_device(name)))
                },
                None => windows_devices_in(rest, true, found),
            }
        }
    }
}

/// The audio devices that a DirectShow listing names, in its order.
pub open spec fn windows_recording_devices(output: Seq<char>) -> Seq<RecordingDeviceView> {
    windows_devices_in(lines_of(output), false, Seq::empty())
}

fn macos_device(line: &Vec<char>) -> (r: Option<RecordingDevice>)
    ensures
        match r {
            Some(d) => macos_device_of(line@) == Some(d@),
            None => macos_device_of(line@) is None,
        },
{
    let open = chars_of("] [");
    let close = chars_of("] ");
    let marker = match rfind(line, &open) {
        Some(m) => m,
        None => {
            return None;
        },
    };
    let total: usize = line.len();
    let rest = slice(line, marker + open.len(), total);
    assert(rest@ == line@.skip(marker + "] ["@.len()));
    let end = match find(&rest, &close) {
        Some(e) => e,
        None => {
            return None;
        },
    };
    let rest_len: usize = rest.len();
    let index = trim(&slice(&rest, 0, end));
    let name = trim(&slice(&rest, end + close.len(), rest_len));
    assert(rest@.subrange(0, end as int) == rest@.take(end as int));
    assert(rest@.subrange(end + close.len(), rest_len as int) == rest@.skip(end + "] "@.len()));
    if index.len() == 0 || name.len() == 0 {
        return None;
    }
    let name_text = to_string(&name);
    let mut input = chars_of(":");
    extend(&mut input, &index);
    let is_loopback = is_loopback_device_name(name_text.as_str());
    Some(
        RecordingDevice {
            name: name_text,
            format: "avfoundation".to_owned(),
            input: to_string(&input),
            is_loopback,
        },
    )
}

/// Reads the audio devices out of an AVFoundation device listing.
pub fn parse_macos_recording_devices(joined_output: &str) -> (devices: Vec<RecordingDevice>)
    ensures
        device_views(devices@) == macos_recording_devices(joined_output@),
{
    let text = chars_of(joined_output);
    let all = lines(&text);
    let audio = chars_of("AVFoundation audio devices");
    let video = chars_of("AVFoundation video devices");
    let mut devices: Vec<RecordingDevice> = Vec::new();
    let mut in_audio_section = false;
    let mut i: usize = 0;
    let ghost all_lines = line_views(all@);
    assert(all_lines.skip(0) == all_lines);
    assert(device_views(devices@) == Seq::<RecordingDeviceView>::empty());
    while i < all.len()
        invariant
            i <= all.len(),
            all_lines == line_views(all@),
            all_lines == lines_of(joined_output@),
            audio@ == "AVFoundation audio devices"@,
            video@ == "AVFoundation video devices"@,
            macos_recording_devices(joined_output@) == macos_devices_in(
                all_lines.skip(i as int),
                in_audio_section,
                device_views(devices@),
            ),
        decreases all.len() - i,
    {
        let line = trim(&all[i]);
        proof {
            let remaining = all_lines.skip(i as int);
            assert(remaining[0] == all[i as int]@);
            assert(remaining.drop_first() == all_lines.skip(i + 1));
        }
        if includes(&line, &audio) {
            in_audio_section = true;
        } else if includes(&line, &video) {
            in_audio_section = false;
        } else if in_audio_section {
            let ghost before = device_views(devices@);
            match macos_device(&line) {
                Some(device) => {
                    let ghost added = device@;
                    devices.push(device);
                    assert(device_views(devices@) == before.push(added));
                },
                None => {},
            }
        }
        i += 1;
    }
    devices
}

fn windows_name(line: &Vec<char>) -> (r: Option<Vec<char>>)
    ensures
        match r {
            Some(name) => windows_name_of(line@) == Some(name@),
            None => windows_name_of(line@) is None,
        },
{
    let mut quote: Vec<char> = Vec::new();
    quote.push('"');
    assert(quote@ == seq!['"']);
    let first = match find(line, &quote) {
        Some(f) => f,
        None => {
            return None;
        },
    };
    let total: usize = line.len();
    let remainder = slice(line, first + 1, total);
    assert(remainder@ == line@.skip(first + 1));
    let second = match find(&remainder, &quote) {
        Some(s) => s,
        None => {
            return None;
        },
    };
    let name = trim(&slice(&remainder, 0, second));
    assert(remainder@.subrange(0, second as int) == remainder@.take(second as int));
    if name.len() == 0 {
        None
    } else {
        Some(name)
    }
}

fn is_known(devices: &Vec<RecordingDevice>, name: &str) -> (r: bool)
    ensures
        r == knows_name(device_views(devices@), name@),
{
    let mut k: usize = 0;
    while k < devices.len()
        invariant
            k <= devices.len(),
            forall|j: int|
                0 <= j < k ==> !same_ignoring_ascii_case(
                    (#[trigger] device_views(devices@)[j]).name,
                    name@,
                ),
        decreases devices.len() - k,
    {
        if str_eq_ignore_ascii_case(devices[k].name.as_str(), name) {
            assert(device_views(devices@)[k as int].name == devices[k as int].name@);
            return true;
        }
        k += 1;
    }
    false
}

/// Reads the audio devices out of a DirectShow device listing.
pub fn parse_windows_recording_devices(joined_output: &str) -> (devices: Vec<RecordingDevice>)
    ensures
        device_views(devices@) == windows_recording_devices(joined_output@),
{
    let text = chars_of(joined_output);
    let all = lines(&text);
    let audio = chars_of("DirectShow audio devices");
    let video = chars_of("DirectShow video devices");
    let alternative = chars_of("Alternative name");
    let mut devices: Vec<RecordingDevice> = Vec::new();
    let mut in_audio_section = false;
    let mut i: usize = 0;
    let ghost all_lines = line_views(all@);
    assert(all_lines.skip(0) == all_lines);
    assert(device_views(devices@) == Seq::<RecordingDeviceView>::empty());
    while i < all.len()
        invariant
            i <= all.len(),
            all_lines == line_views(all@),
            all_lines == lines_of(joined_output@),
            audio@ == "DirectShow audio devices"@,
            video@ == "DirectShow video devices"@,
            alternative@ == "Alternative name"@,
            windows_recording_devices(joined_output@) == windows_devices_in(
                all_lines.skip(i as int),
                in_audio_section,
                device_views(devices@),
            ),
        decreases all.len() - i,
    {
        let line = trim(&all[i]);
        proof {
            let remaining = all_lines.skip(i as int);
            assert(remaining[0] == all[i as int]@);
            assert(remaining.drop_first() == all_lines.skip(i + 1));
        }
        if includes(&line, &audio) {
            in_audio_section = true;
        } else if includes(&line, &video) {
            in_audio_section = false;
        } else if in_audio_section && !includes(&line, &alternative) {
            let ghost before = device_views(devices@);
            match windows_name(&line) {
                Some(name) => {
                    let name_text = to_string(&name);
                    if !is_known(&devices, name_text.as_str()) {
                        let mut input = chars_of("audio=");
                        extend(&mut input, &name);
                        let is_loopback = is_loopback_device_name(name_text.as_str());
                        let device = RecordingDevice {
                            name: name_text,
                            format: "dshow".to_owned(),
                            input: to_string(&input),
                            is_loopback,
                        };
                        assert(device@ == windows_device(name@));
                        devices.push(device);
                        assert(device_views(devices@) == before.push(windows_device(name@)));
                    }
                },
                None => {},
            }
        }
        i += 1;
    }
    devices
}

/// The device that stands for the native capture of system audio.
pub open spec fn native_system_device_view() -> RecordingDeviceView {
    RecordingDeviceView {
        name: "System Audio (macOS Native)"@,
        format: "screencapturekit"@,
        input: "system"@,
        is_loopback: true,
    }
}

/// The device that is offered on macOS when the listing names none.
pub open spec fn default_microphone_view() -> RecordingDeviceView {
    RecordingDeviceView {
        name: "Default Microphone"@,
        format: "avfoundation"@,
        input: ":0"@,
        is_loopback: false,
    }
}

/// The device that stands for the native capture of system audio.
pub fn native_system_device() -> (device: RecordingDevice)
    ensures
        device@ == native_system_device_view(),
{
    RecordingDevice {
        name: "System Audio (macOS Native)".to_owned(),
        format: "screencapturekit".to_owned(),
        input: "system".to_owned(),
        is_loopback: true,
    }
}

/// The device that is offered on macOS when the listing names none.
pub fn default_microphone() -> (device: RecordingDevice)
    ensures
        device@ == default_microphone_view(),
{
    RecordingDevice {
        name: "Default Microphone".to_owned(),
        format: "avfoundation".to_owned(),
        input: ":0".to_owned(),
        is_loopback: false,
    }
}

/// The devices that a listing names on the host; none where the host has no
/// listing that is read.
pub open spec fn parsed_devices(platform: HostPlatform, output: Seq<char>) -> Seq<
    RecordingDeviceView,
> {
    match platform {
        HostPlatform::MacOs { .. } => macos_recording_devices(output),
        HostPlatform::Windows => windows_recording_devices(output),
        HostPlatform::Other => Seq::empty(),
    }
}

/// The devices that are offered for recording: those of the listing, the
/// native capture of system audio before them where the host has it, and on
/// macOS the default microphone where there would be none at all.
pub open spec fn offered_devices(platform: HostPlatform, output: Seq<char>) -> Seq<
    RecordingDeviceView,
> {
    let parsed = parsed_devices(platform, output);
    if platform.captures_system_audio() {
        seq![native_system_device_view()] + parsed
    } else if parsed.len() == 0 && platform.is_macos() {
        seq![default_microphone_view()]
    } else {
        parsed
    }
}

/// The devices to offer, given the host and what the backend printed when
/// asked for its devices.
pub fn recording_devices(platform: HostPlatform, joined_output: &str) -> (devices: Vec<
    RecordingDevice,
>)
    ensures
        device_views(devices@) == offered_devices(platform, joined_output@),
{
    let mut devices = match platform {
        HostPlatform::MacOs { .. } => parse_macos_recording_devices(joined_output),
        HostPlatform::Windows => parse_windows_recording_devices(joined_output),
        HostPlatform::Other => {
            let none: Vec<RecordingDevice> = Vec::new();
            assert(device_views(none@) =~= Seq::<RecordingDeviceView>::empty());
            none
        },
    };
    let ghost parsed = device_views(devices@);
    if supports_native_system_audio_capture(platform) {
        devices.insert(0, native_system_device());
        assert(device_views(devices@) =~= seq![native_system_device_view()] + parsed);
    } else if devices.len() == 0 {
        match platform {
            HostPlatform::MacOs { .. } => {
                devices.push(default_microphone());
                assert(device_views(devices@) =~= seq![default_microphone_view()]);
            },
            _ => {},
        }
    }
    devices
}

/// The command line that asks the backend for its devices on the host.
pub open spec fn listing_arguments(platform: HostPlatform) -> Seq<Seq<char>> {
    match platform {
        HostPlatform::MacOs { .. } => seq![
            "-f"@,
            "avfoundation"@,
            "-list_devices"@,
            "true"@,
            "-i"@,
            ""@,
        ],
        HostPlatform::Windows => seq![
            "-list_devices"@,
            "true"@,
            "-f"@,
            "dshow"@,
            "-i"@,
            "dummy"@,
        ],
        HostPlatform::Other => seq!["-sources"@, "pulse"@],
    }
}

/// The arguments that ask the backend for its devices on the host.
pub fn build_listing_arguments(platform: HostPlatform) -> (arguments: Vec<String>)
    ensures
        argument_views(arguments@) == listing_arguments(platform),
{
    let mut arguments: Vec<String> = Vec::new();
    assert(argument_views(arguments@) =~= Seq::<Seq<char>>::empty());
    match platform {
        HostPlatform::MacOs { .. } => {
            push_argument(&mut arguments, "-f");
            push_argument(&mut arguments, "avfoundation");
            push_argument(&mut arguments, "-list_devices");
            push_argument(&mut arguments, "true");
            push_argument(&mut arguments, "-i");
            push_argument(&mut arguments, "");
        },
        HostPlatform::Windows => {
            push_argument(&mut arguments, "-list_devices");
            push_argument(&mut arguments, "true");
            push_argument(&mut arguments, "-f");
            push_argument(&mut arguments, "dshow");
            push_argument(&mut arguments, "-i");
            push_argument(&mut arguments, "dummy");
        },
        HostPlatform::Other => {
            push_argument(&mut arguments, "-sources");
            push_argument(&mut arguments, "pulse");
        },
    }
    assert(argument_views(arguments@) =~= listing_arguments(platform));
    arguments
}

/// What the backend printed, diagnostics first.
pub fn join_outputs(stderr_text: &str, stdout_text: &str) -> (joined: String)
    ensures
        joined@ == stderr_text@ + "\n"@ + stdout_text@,
{
    let mut out = chars_of(stderr_text);
    extend_str(&mut out, "\n");
    extend_str(&mut out, stdout_text);
    to_string(&out)
}

/// Whether a trimmed line of a device listing is shown as a hint: a heading
/// of an audio section, an alternative name, or a line that names a device
/// the way the host's listing does.
pub open spec fn is_hint(platform: HostPlatform, line: Seq<char>) -> bool {
    ||| contains(line, "AVFoundation audio devices"@)
    ||| contains(line, "AVFoundation input device"@)
    ||| contains(line, "DirectShow audio devices"@)
    ||| contains(line, "Alternative name"@)
    ||| (platform.is_macos() && contains(line, "AVFoundation indev"@) && contains(line, "] ["@))
    ||| (platform == HostPlatform::Windows && contains(line, "]  \""@))
}

/// The hints among `lines`, trimmed, after those found before.
pub open spec fn hints_in(platform: HostPlatform, lines: Seq<Seq<char>>, found: Seq<Seq<char>>) -> Seq<
    Seq<char>,
>
    decreases lines.len(),
{
    if lines.len() == 0 {
        found
    } else {
        let line = trimmed(lines[0]);
        if line.len() > 0 && is_hint(platform, line) {
            hints_in(platform, lines.drop_first(), found.push(line))
        } else {
            hints_in(platform, lines.drop_first(), found)
        }
    }
}

/// The note that a listing holds no hints.
pub open spec fn no_hints_text() -> Seq<char> {
    "No parsed devices found. Run `ffmpeg` device list manually for this platform."@
}

/// The pointer to the native capture of system audio.
pub open spec fn native_hint_text() -> Seq<char> {
    "Native system source available: select \"System Audio (macOS Native)\" for ScreenCaptureKit-based capture."@
}

/// The hints that are shown for a device listing: its hint lines, or a note
/// that there are none, and before them a pointer to the native capture of
/// system audio where the host has it.
pub open spec fn device_hints(platform: HostPlatform, output: Seq<char>) -> Seq<Seq<char>> {
    let found = hints_in(platform, lines_of(output), Seq::empty());
    let shown = if found.len() == 0 {
        seq![no_hints_text()]
    } else {
        found
    };
    if platform.captures_system_audio() {
        seq![native_hint_text()] + shown
    } else {
        shown
    }
}

fn line_is_hint(platform: HostPlatform, line: &Vec<char>) -> (r: bool)
    ensures
        r == is_hint(platform, line@),
{
    let is_macos = match platform {
        HostPlatform::MacOs { .. } => true,
        _ => false,
    };
    let is_windows = match platform {
        HostPlatform::Windows => true,
        _ => false,
    };
    includes(line, &chars_of("AVFoundation audio devices")) || includes(
        line,
        &chars_of("AVFoundation input device"),
    ) || includes(line, &chars_of("DirectShow audio devices")) || includes(
        line,
        &chars_of("Alternative name"),
    ) || (is_macos && includes(line, &chars_of("AVFoundation indev")) && includes(
        line,
        &chars_of("] ["),
    )) || (is_windows && includes(line, &chars_of("]  \"")))
}

/// The hints to show for what the backend printed when asked for its
/// devices.
pub fn audio_device_hints(platform: HostPlatform, joined_output: &str) -> (hints: Vec<String>)
    ensures
        argument_views(hints@) == device_hints(platform, joined_output@),
{
    let text = chars_of(joined_output);
    let all = lines(&text);
    let mut hints: Vec<String> = Vec::new();
    let ghost all_lines = line_views(all@);
    assert(all_lines.skip(0) == all_lines);
    assert(argument_views(hints@) =~= Seq::<Seq<char>>::empty());
    let mut i: usize = 0;
    while i < all.len()
        invariant
            i <= all.len(),
            all_lines == line_views(all@),
            all_lines == lines_of(joined_output@),
            hints_in(platform, lines_of(joined_output@), Seq::empty()) == hints_in(
                platform,
                all_lines.skip(i as int),
                argument_views(hints@),
            ),
        decreases all.len() - i,
    {
        let line = trim(&all[i]);
        proof {
            let remaining = all_lines.skip(i as int);
            assert(remaining[0] == all[i as int]@);
            assert(remaining.drop_first() == all_lines.skip(i + 1));
        }
        if line.len() > 0 && line_is_hint(platform, &line) {
            let shown = to_string(&line);
            push_argument(&mut hints, shown.as_str());
        }
        i += 1;
    }
    if hints.len() == 0 {
        push_argument(
            &mut hints,
            "No parsed devices found. Run `ffmpeg` device list manually for this platform.",
        );
        assert(argument_views(hints@) =~= seq![no_hints_text()]);
    }
    if supports_native_system_audio_capture(platform) {
        let ghost shown = argument_views(hints@);
        hints.insert(
            0,
            "Native system source available: select \"System Audio (macOS Native)\" for ScreenCaptureKit-based capture.".to_owned(),
        );
        assert(argument_views(hints@) =~= seq![native_hint_text()] + shown);
    }
    hints
}

} // verus!
