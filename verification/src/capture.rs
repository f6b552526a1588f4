//! Planning a capture: which backend records the chosen sources, into which
//! file, and with which command line.

use vstd::prelude::*;
use crate::decimal::{decimal_digits, push_decimal};
use crate::platform::{supports_native_system_audio_capture, HostPlatform};
use crate::text::{
    chars_of, extend_str, same_ignoring_ascii_case, str_eq_ignore_ascii_case, to_string,
};

verus! {

/// One input of a recording: a backend format and what the format reads.
#[derive(Debug)]
pub struct RecordingSource {
    pub label: String,
    pub format: String,
    pub input: String,
}

/// A recording source with its texts as sequences.
pub struct RecordingSourceView {
    pub label: Seq<char>,
    pub format: Seq<char>,
    pub input: Seq<char>,
}

impl View for RecordingSource {
    type V = RecordingSourceView;

    open spec fn view(&self) -> RecordingSourceView {
        RecordingSourceView { label: self.label@, format: self.format@, input: self.input@ }
    }
}

/// The views of a list of sources.
pub open spec fn source_views(sources: Seq<RecordingSource>) -> Seq<RecordingSourceView> {
    sources.map_values(|s: RecordingSource| s@)
}

/// The views of a list of arguments.
pub open spec fn argument_views(arguments: Seq<String>) -> Seq<Seq<char>> {
    arguments.map_values(|a: String| a@)
}

/// The process that records.
#[derive(Clone, Copy, Debug, PartialEq, Eq, Structural)]
pub enum CaptureBackend {
    /// The helper that captures what the system plays.
    NativeSystemAudio,
    /// The general capture backend, which mixes any number of sources.
    Ffmpeg,
}

/// Why a recording cannot be started with the chosen sources.
#[derive(Clone, Copy, Debug, PartialEq, Eq, Structural)]
pub enum StartError {
    NoSources,
    NativeNeedsMacOs,
    NativeNeedsNewerMacOs,
    NativeMustBeOnlySource,
    FfmpegMissing,
}

/// Whether the source asks for the native capture of system audio.
pub open spec fn is_native_source(source: RecordingSourceView) -> bool {
    same_ignoring_ascii_case(source.format, "screencapturekit"@)
}

/// Whether one of the sources asks for the native capture of system audio.
pub open spec fn any_native_source(sources: Seq<RecordingSourceView>) -> bool {
    exists|i: int| 0 <= i < sources.len() && is_native_source(#[trigger] sources[i])
}

/// The backend that records `sources`, or why none does. There must be a
/// source; native capture needs a host that offers it and must be the only
/// source; anything else needs the general backend to be installed.
pub open spec fn backend_for(
    sources: Seq<RecordingSourceView>,
    platform: HostPlatform,
    ffmpeg_available: bool,
) -> Result<CaptureBackend, StartError> {
    if sources.len() == 0 {
        Err(StartError::NoSources)
    } else if any_native_source(sources) {
        if !platform.is_macos() {
            Err(StartError::NativeNeedsMacOs)
        } else if !platform.captures_system_audio() {
            Err(StartError::NativeNeedsNewerMacOs)
        } else if sources.len() > 1 {
            Err(StartError::NativeMustBeOnlySource)
        } else {
            Ok(CaptureBackend::NativeSystemAudio)
        }
    } else if !ffmpeg_available {
        Err(StartError::FfmpegMissing)
    } else {
        Ok(CaptureBackend::Ffmpeg)
    }
}

/// Whether one of the sources asks for the native capture of system audio.
pub fn has_native_system_source(sources: &Vec<RecordingSource>) -> (r: bool)
    ensures
        r == any_native_source(source_views(sources@)),
{
    let mut i: usize = 0;
    while i < sources.len()
        invariant
            i <= sources.len(),
            forall|k: int| 0 <= k < i ==> !is_native_source(#[trigger] source_views(sources@)[k]),
        decreases sources.len() - i,
    {
        if str_eq_ignore_ascii_case(sources[i].format.as_str(), "screencapturekit") {
            assert(is_native_source(source_views(sources@)[i as int]));
            return true;
        }
        i += 1;
    }
    false
}

/// Chooses the backend for `sources` on this host.
pub fn choose_backend(
    sources: &Vec<RecordingSource>,
    platform: HostPlatform,
    ffmpeg_available: bool,
) -> (r: Result<CaptureBackend, StartError>)
    ensures
        r == backend_for(source_views(sources@), platform, ffmpeg_available),
{
    if sources.len() == 0 {
        return Err(StartError::NoSources);
    }
    if has_native_system_source(sources) {
        let is_macos = match platform {
            HostPlatform::MacOs { .. } => true,
            _ => false,
        };
        if !is_macos {
            Err(StartError::NativeNeedsMacOs)
        } else if !supports_native_system_audio_capture(platform) {
            Err(StartError::NativeNeedsNewerMacOs)
        } else if sources.len() > 1 {
            Err(StartError::NativeMustBeOnlySource)
        } else {
            Ok(CaptureBackend::NativeSystemAudio)
        }
    } else if !ffmpeg_available {
        Err(StartError::FfmpegMissing)
    } else {
        Ok(CaptureBackend::Ffmpeg)
    }
}

impl StartError {
    /// The error in words.
    pub open spec fn text(self) -> Seq<char> {
        match self {
            StartError::NoSources => "At least one audio source is required"@,
            StartError::NativeNeedsMacOs => "Native system-audio source is currently available only on macOS"@,
            StartError::NativeNeedsNewerMacOs => "Native system-audio capture requires macOS 13 or newer. Use microphone/loopback sources on this version."@,
            StartError::NativeMustBeOnlySource => "System Audio (macOS Native) currently records as a dedicated source. Remove other sources and retry."@,
            StartError::FfmpegMissing => "ffmpeg not found in PATH. Install ffmpeg to enable recording."@,
        }
    }

    /// The error in words.
    pub fn message(self) -> (s: &'static str)
        ensures
            s@ == self.text(),
    {
        match self {
            StartError::NoSources => "At least one audio source is required",
            StartError::NativeNeedsMacOs => "Native system-audio source is currently available only on macOS",
            StartError::NativeNeedsNewerMacOs => "Native system-audio capture requires macOS 13 or newer. Use microphone/loopback sources on this version.",
            StartError::NativeMustBeOnlySource => "System Audio (macOS Native) currently records as a dedicated source. Remove other sources and retry.",
            StartError::FfmpegMissing => "ffmpeg not found in PATH. Install ffmpeg to enable recording.",
        }
    }
}

/// The name of the file that a capture writes: the entry's first recording
/// is its original, a later one a segment named after the time it starts at.
pub open spec fn recording_name(has_prior_audio: bool, now: u64) -> Seq<char> {
    if has_prior_audio {
        "segment-"@ + decimal_digits(now as nat) + ".wav"@
    } else {
        "original.wav"@
    }
}

/// Names the file that a capture starting at the time `now` writes.
pub fn recording_file_name(has_prior_audio: bool, now: u64) -> (name: String)
    ensures
        name@ == recording_name(has_prior_audio, now),
{
    if has_prior_audio {
        let mut out = chars_of("segment-");
        push_decimal(&mut out, now);
        extend_str(&mut out, ".wav");
        to_string(&out)
    } else {
        "original.wav".to_owned()
    }
}

/// The references to the first `n` inputs of the mixing graph: `[0:a][1:a]`
/// and so on.
pub open spec fn input_references(n: nat) -> Seq<char>
    decreases n,
{
    if n == 0 {
        Seq::empty()
    } else {
        input_references((n - 1) as nat) + "["@ + decimal_digits((n - 1) as nat) + ":a]"@
    }
}

/// The level probe that ends every graph, so that the level can be read
/// whatever the number of sources.
pub open spec fn level_probe() -> Seq<char> {
    "astats=metadata=1:reset=1,ametadata=print:key=lavfi.astats.Overall.RMS_level[mout]"@
}

/// The processing graph for `n` sources. More than one are mixed before the
/// level probe; a single one passes straight into it.
pub open spec fn filter_graph(n: nat) -> Seq<char> {
    if n > 1 {
        input_references(n) + "amix=inputs="@ + decimal_digits(n)
            + ":duration=longest:dropout_transition=2[mix];[mix]"@ + level_probe()
    } else {
        "[0:a]"@ + level_probe()
    }
}

/// Builds the processing graph for `n` sources.
pub fn build_filter_graph(n: usize) -> (graph: String)
    ensures
        graph@ == filter_graph(n as nat),
{
    let mut out: Vec<char> = Vec::new();
    if n > 1 {
        let mut i: usize = 0;
        while i < n
            invariant
                i <= n,
                out@ == input_references(i as nat),
            decreases n - i,
        {
            extend_str(&mut out, "[");
            push_decimal(&mut out, i as u64);
            extend_str(&mut out, ":a]");
            i += 1;
        }
        extend_str(&mut out, "amix=inputs=");
        push_decimal(&mut out, n as u64);
        extend_str(&mut out, ":duration=longest:dropout_transition=2[mix];[mix]");
    } else {
        extend_str(&mut out, "[0:a]");
    }
    extend_str(
        &mut out,
        "astats=metadata=1:reset=1,ametadata=print:key=lavfi.astats.Overall.RMS_level[mout]",
    );
    to_string(&out)
}

/// The arguments that name the sources, each with its format before it.
pub open spec fn source_arguments(sources: Seq<RecordingSourceView>) -> Seq<Seq<char>>
    decreases sources.len(),
{
    if sources.len() == 0 {
        Seq::empty()
    } else {
        source_arguments(sources.drop_last()) + seq![
            "-f"@,
            sources.last().format,
            "-i"@,
            sources.last().input,
        ]
    }
}

/// The command line of the general backend: progress on the diagnostic
/// stream, the sources, the processing graph with its level probe, and one
/// channel of 16 kHz audio written to `output`.
pub open spec fn ffmpeg_arguments(sources: Seq<RecordingSourceView>, output: Seq<char>) -> Seq<
    Seq<char>,
> {
    seq!["-y"@, "-nostats"@, "-progress"@, "pipe:2"@] + source_arguments(sources) + seq![
        "-filter_complex"@,
        filter_graph(sources.len()),
        "-map"@,
        "[mout]"@,
        "-ac"@,
        "1"@,
        "-ar"@,
        "16000"@,
        output,
    ]
}

/// The command line of the native helper.
pub open spec fn native_arguments(output: Seq<char>) -> Seq<Seq<char>> {
    seq!["--output"@, output]
}

/// The command line of `backend`.
pub open spec fn capture_arguments(
    backend: CaptureBackend,
    sources: Seq<RecordingSourceView>,
    output: Seq<char>,
) -> Seq<Seq<char>> {
    match backend {
        CaptureBackend::NativeSystemAudio => native_arguments(output),
        CaptureBackend::Ffmpeg => ffmpeg_arguments(sources, output),
    }
}

/// Appends `argument` to `arguments`.
pub fn push_argument(arguments: &mut Vec<String>, argument: &str)
    ensures
        argument_views(final(arguments)@) == argument_views(old(arguments)@).push(argument@),
{
    let owned = argument.to_owned();
    arguments.push(owned);
    assert(argument_views(arguments@) =~= argument_views(old(arguments)@).push(argument@));
}

/// The arguments with which `backend` is started to record `sources` into
/// the file at `output_path`.
pub fn build_capture_arguments(
    backend: CaptureBackend,
    sources: &Vec<RecordingSource>,
    output_path: &str,
) -> (arguments: Vec<String>)
    ensures
        argument_views(arguments@) == capture_arguments(
            backend,
            source_views(sources@),
            output_path@,
        ),
{
    let mut arguments: Vec<String> = Vec::new();
    assert(argument_views(arguments@) =~= Seq::<Seq<char>>::empty());
    match backend {
        CaptureBackend::NativeSystemAudio => {
            push_argument(&mut arguments, "--output");
            push_argument(&mut arguments, output_path);
            assert(argument_views(arguments@) =~= native_arguments(output_path@));
        },
        CaptureBackend::Ffmpeg => {
            push_argument(&mut arguments, "-y");
            push_argument(&mut arguments, "-nostats");
            push_argument(&mut arguments, "-progress");
            push_argument(&mut arguments, "pipe:2");
            let ghost head = seq!["-y"@, "-nostats"@, "-progress"@, "pipe:2"@];
            let ghost all = source_views(sources@);
            assert(argument_views(arguments@) =~= head);
            assert(all.take(0) =~= Seq::<RecordingSourceView>::empty());
            let mut i: usize = 0;
            while i < sources.len()
                invariant
                    i <= sources.len(),
                    all == source_views(sources@),
                    argument_views(arguments@) == head + source_arguments(all.take(i as int)),
                decreases sources.len() - i,
            {
                let ghost before = argument_views(arguments@);
                push_argument(&mut arguments, "-f");
                push_argument(&mut arguments, sources[i].format.as_str());
                push_argument(&mut arguments, "-i");
                push_argument(&mut arguments, sources[i].input.as_str());
                proof {
                    let next = all.take(i + 1);
                    assert(next.drop_last() =~= all.take(i as int));
                    assert(next.last() == all[i as int]);
                    assert(argument_views(arguments@) =~= before + seq![
                        "-f"@,
                        all[i as int].format,
                        "-i"@,
                        all[i as int].input,
                    ]);
                    assert(argument_views(arguments@) =~= head + source_arguments(next));
                }
                i += 1;
            }
            assert(all.take(i as int) =~= all);
            let ghost middle = argument_views(arguments@);
            let graph = build_filter_graph(sources.len());
            push_argument(&mut arguments, "-filter_complex");
            push_argument(&mut arguments, graph.as_str());
            push_argument(&mut arguments, "-map");
            push_argument(&mut arguments, "[mout]");
            push_argument(&mut arguments, "-ac");
            push_argument(&mut arguments, "1");
            push_argument(&mut arguments, "-ar");
            push_argument(&mut arguments, "16000");
            push_argument(&mut arguments, output_path);
            assert(argument_views(arguments@) =~= middle + seq![
                "-filter_complex"@,
                filter_graph(sources.len() as nat),
                "-map"@,
                "[mout]"@,
                "-ac"@,
                "1"@,
                "-ar"@,
                "16000"@,
                output_path@,
            ]);
        },
    }
    arguments
}

/// What is reported when the recorder has exited before the recording was
/// registered: the status it exited with and, for the native helper, the last
/// error it reported.
pub open spec fn start_failure_text(
    backend: CaptureBackend,
    status: Seq<char>,
    last_error: Option<Seq<char>>,
) -> Seq<char> {
    match backend {
        CaptureBackend::NativeSystemAudio => "Native system recording failed to start (status "@
            + status
            + "). Grant \"Screen & System Audio Recording\" permission to this app/terminal in macOS Privacy settings and retry. Details: "@
            + match last_error {
            Some(details) => details,
            None => "no additional details"@,
        },
        CaptureBackend::Ffmpeg => "Recording failed to start (ffmpeg exited with status "@ + status
            + "). Check recording source format/input values and macOS microphone permissions."@,
    }
}

/// Words the failure of a recorder that exited right after its start.
pub fn start_failure_message(
    backend: CaptureBackend,
    status: &str,
    last_error: Option<&str>,
) -> (message: String)
    ensures
        message@ == start_failure_text(
            backend,
            status@,
            match last_error {
                Some(details) => Some(details@),
                None => None,
            },
        ),
{
    let mut out: Vec<char> = Vec::new();
    match backend {
        CaptureBackend::NativeSystemAudio => {
            extend_str(&mut out, "Native system recording failed to start (status ");
            extend_str(&mut out, status);
            extend_str(
                &mut out,
                "). Grant \"Screen & System Audio Recording\" permission to this app/terminal in macOS Privacy settings and retry. Details: ",
            );
            match last_error {
                Some(details) => extend_str(&mut out, details),
                None => extend_str(&mut out, "no additional details"),
            }
        },
        CaptureBackend::Ffmpeg => {
            extend_str(&mut out, "Recording failed to start (ffmpeg exited with status ");
            extend_str(&mut out, status);
            extend_str(
                &mut out,
                "). Check recording source format/input values and macOS microphone permissions.",
            );
        },
    }
    to_string(&out)
}

} // verus!
