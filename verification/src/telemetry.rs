//! Telemetry of a running capture backend.
//!
//! The backend reports on its diagnostic stream, one `key=value` item per
//! line. `parse_telemetry_line` turns a line into a `TelemetryEvent`, and
//! `RecordingTelemetry` folds the events into the byte counter and the last
//! error of a session. Level samples are handed on as text: turning them into
//! a number is left to the caller.

use vstd::prelude::*;
use crate::text::{
    chars_of, eq_ignore_ascii_case, find, first_match, matches_at, same_ignoring_ascii_case,
    slice, starts_with, to_string, trim, trimmed,
};
use crate::decimal::{parse_u64, parsed_u64};

verus! {

/// Size of the header that precedes the samples of a recording.
pub const PCM_HEADER_BYTES: u64 = 44;

/// Bytes of audio per second: 16 kHz, one channel, 16 bits per sample.
pub const PCM_BYTES_PER_SECOND: u64 = 32_000;

/// Microseconds in a second.
pub const MICROS_PER_SECOND: u64 = 1_000_000;

/// The key of an error of the native recorder.
pub open spec fn error_marker() -> Seq<char> {
    "sck_error="@
}

/// The key of the count of bytes written.
pub open spec fn total_size_marker() -> Seq<char> {
    "total_size="@
}

/// The key of the time encoded so far.
pub open spec fn progress_marker() -> Seq<char> {
    "out_time_us="@
}

/// The key of a level sample of the native recorder.
pub open spec fn level_marker() -> Seq<char> {
    "level="@
}

/// The key of an RMS level, wherever it stands in a line.
pub open spec fn rms_marker() -> Seq<char> {
    "lavfi.astats.Overall.RMS_level="@
}

/// The RMS level of silence as it is written.
pub open spec fn silence_text() -> Seq<char> {
    "-inf"@
}

/// What one line of the diagnostic stream reports.
#[derive(Debug)]
pub enum TelemetryEvent {
    /// The native recorder reported an error, given verbatim.
    RecorderError(String),
    /// The backend's own count of bytes written so far.
    TotalSize(u64),
    /// Microseconds of audio encoded so far.
    Progress(u64),
    /// A level sample of the native recorder, as written.
    Level(String),
    /// An RMS level of minus infinity: silence.
    RmsSilence,
    /// An RMS level in decibels, as written.
    RmsDecibels(String),
    /// The line reports nothing that is tracked.
    Ignored,
}

/// An event with its texts as sequences.
pub enum TelemetryEventView {
    RecorderError(Seq<char>),
    TotalSize(u64),
    Progress(u64),
    Level(Seq<char>),
    RmsSilence,
    RmsDecibels(Seq<char>),
    Ignored,
}

impl View for TelemetryEvent {
    type V = TelemetryEventView;

    open spec fn view(&self) -> TelemetryEventView {
        match self {
            TelemetryEvent::RecorderError(s) => TelemetryEventView::RecorderError(s@),
            TelemetryEvent::TotalSize(n) => TelemetryEventView::TotalSize(*n),
            TelemetryEvent::Progress(n) => TelemetryEventView::Progress(*n),
            TelemetryEvent::Level(s) => TelemetryEventView::Level(s@),
            TelemetryEvent::RmsSilence => TelemetryEventView::RmsSilence,
            TelemetryEvent::RmsDecibels(s) => TelemetryEventView::RmsDecibels(s@),
            TelemetryEvent::Ignored => TelemetryEventView::Ignored,
        }
    }
}

/// The value of a `key=value` line whose key is `marker`: what follows the
/// marker, trimmed.
pub open spec fn value_after(line: Seq<char>, marker: Seq<char>) -> Seq<char> {
    trimmed(line.skip(marker.len() as int))
}

/// The event that a line reports. The markers are tried in a fixed order and
/// the first that applies decides; a counter that is no number is ignored.
pub open spec fn event_of_line(line: Seq<char>) -> TelemetryEventView {
    if matches_at(line, error_marker(), 0) {
        TelemetryEventView::RecorderError(value_after(line, error_marker()))
    } else if matches_at(line, total_size_marker(), 0) {
        match parsed_u64(value_after(line, total_size_marker())) {
            Some(n) => TelemetryEventView::TotalSize(n),
            None => TelemetryEventView::Ignored,
        }
    } else if matches_at(line, progress_marker(), 0) {
        match parsed_u64(value_after(line, progress_marker())) {
            Some(n) => TelemetryEventView::Progress(n),
            None => TelemetryEventView::Ignored,
        }
    } else if matches_at(line, level_marker(), 0) {
        TelemetryEventView::Level(value_after(line, level_marker()))
    } else {
        match first_match(line, rms_marker()) {
            Some(pos) => {
                let value = trimmed(line.skip(pos + rms_marker().len()));
                if same_ignoring_ascii_case(value, silence_text()) {
                    TelemetryEventView::RmsSilence
                } else {
                    TelemetryEventView::RmsDecibels(value)
                }
            },
            None => TelemetryEventView::Ignored,
        }
    }
}

/// The estimated size of a recording after `out_time_us` microseconds:
/// the header plus the samples. The product saturates at `u64::MAX`.
pub open spec fn estimated_pcm_bytes(out_time_us: u64) -> int {
    let product = out_time_us * PCM_BYTES_PER_SECOND;
    let capped = if product > u64::MAX {
        u64::MAX as int
    } else {
        product
    };
    PCM_HEADER_BYTES + capped / (MICROS_PER_SECOND as int)
}

/// Estimates the size of a recording after `out_time_us` microseconds.
pub fn estimated_pcm_bytes_from_us(out_time_us: u64) -> (bytes: u64)
    ensures
        bytes == estimated_pcm_bytes(out_time_us),
{
    let product: u64 = match out_time_us.checked_mul(PCM_BYTES_PER_SECOND) {
        Some(p) => p,
        None => u64::MAX,
    };
    PCM_HEADER_BYTES + product / MICROS_PER_SECOND
}

fn value_of(line: &Vec<char>, marker: &Vec<char>) -> (out: Vec<char>)
    requires
        matches_at(line@, marker@, 0),
    ensures
        out@ == value_after(line@, marker@),
{
    let rest = slice(line, marker.len(), line.len());
    assert(rest@ == line@.skip(marker@.len() as int));
    trim(&rest)
}

/// Reads one line of the backend's diagnostic stream.
pub fn parse_telemetry_line(line: &str) -> (event: TelemetryEvent)
    ensures
        event@ == event_of_line(line@),
{
    let l = chars_of(line);
    let error = chars_of("sck_error=");
    if starts_with(&l, &error) {
        let value = value_of(&l, &error);
        return TelemetryEvent::RecorderError(to_string(&value));
    }
    let total = chars_of("total_size=");
    if starts_with(&l, &total) {
        let value = value_of(&l, &total);
        return match parse_u64(&value) {
            Some(n) => TelemetryEvent::TotalSize(n),
            None => TelemetryEvent::Ignored,
        };
    }
    let progress = chars_of("out_time_us=");
    if starts_with(&l, &progress) {
        let value = value_of(&l, &progress);
        return match parse_u64(&value) {
            Some(n) => TelemetryEvent::Progress(n),
            None => TelemetryEvent::Ignored,
        };
    }
    let level = chars_of("level=");
    if starts_with(&l, &level) {
        let value = value_of(&l, &level);
        return TelemetryEvent::Level(to_string(&value));
    }
    let rms = chars_of("lavfi.astats.Overall.RMS_level=");
    match find(&l, &rms) {
        Some(pos) => {
            let end: usize = l.len();
            let rest = slice(&l, pos + rms.len(), end);
            assert(rest@ == l@.skip(pos + rms@.len()));
            let value = trim(&rest);
            let silence = chars_of("-inf");
            if eq_ignore_ascii_case(&value, &silence) {
                TelemetryEvent::RmsSilence
            } else {
                TelemetryEvent::RmsDecibels(to_string(&value))
            }
        },
        None => TelemetryEvent::Ignored,
    }
}

/// What is known of a running recording: the bytes written so far and the
/// last error that the recorder reported.
#[derive(Debug)]
pub struct RecordingTelemetry {
    pub bytes_written: u64,
    pub last_error: Option<String>,
}

/// The telemetry with its texts as sequences.
pub struct TelemetryView {
    pub bytes_written: u64,
    pub last_error: Option<Seq<char>>,
}

impl View for RecordingTelemetry {
    type V = TelemetryView;

    open spec fn view(&self) -> TelemetryView {
        TelemetryView {
            bytes_written: self.bytes_written,
            last_error: match self.last_error {
                Some(e) => Some(e@),
                None => None,
            },
        }
    }
}

/// The larger of a byte count and a report.
pub open spec fn larger(a: u64, b: int) -> u64 {
    if b > a {
        b as u64
    } else {
        a
    }
}

impl TelemetryView {
    /// The telemetry after `event`: a counter replaces the byte count only if
    /// it is larger, an error replaces the last error, and level samples leave
    /// both as they are.
    pub open spec fn after(self, event: TelemetryEventView) -> TelemetryView {
        match event {
            TelemetryEventView::RecorderError(e) => TelemetryView {
                bytes_written: self.bytes_written,
                last_error: Some(e),
            },
            TelemetryEventView::TotalSize(n) => TelemetryView {
                bytes_written: larger(self.bytes_written, n as int),
                last_error: self.last_error,
            },
            TelemetryEventView::Progress(us) => TelemetryView {
                bytes_written: larger(self.bytes_written, estimated_pcm_bytes(us)),
                last_error: self.last_error,
            },
            _ => self,
        }
    }

    /// The telemetry after each of `events` in turn.
    pub open spec fn after_all(self, events: Seq<TelemetryEventView>) -> TelemetryView
        decreases events.len(),
    {
        if events.len() == 0 {
            self
        } else {
            self.after_all(events.drop_last()).after(events.last())
        }
    }

    /// The telemetry after a size of `file_bytes` was seen on disk.
    pub open spec fn metered(self, file_bytes: u64) -> TelemetryView {
        TelemetryView {
            bytes_written: larger(self.bytes_written, file_bytes as int),
            last_error: self.last_error,
        }
    }
}

impl RecordingTelemetry {
    /// Telemetry of a recording that has reported nothing yet.
    pub fn new() -> (t: RecordingTelemetry)
        ensures
            t@ == (TelemetryView { bytes_written: 0, last_error: None }),
    {
        RecordingTelemetry { bytes_written: 0, last_error: None }
    }

    /// Takes `event` into account.
    pub fn apply(&mut self, event: &TelemetryEvent)
        ensures
            final(self)@ == old(self)@.after(event@),
    {
        match event {
            TelemetryEvent::RecorderError(e) => {
                self.last_error = Some(e.clone());
            },
            TelemetryEvent::TotalSize(n) => {
                if *n > self.bytes_written {
                    self.bytes_written = *n;
                }
            },
            TelemetryEvent::Progress(us) => {
                let estimated = estimated_pcm_bytes_from_us(*us);
                if estimated > self.bytes_written {
                    self.bytes_written = estimated;
                }
            },
            _ => {},
        }
    }

    /// Reads `line` and takes what it reports into account.
    pub fn observe_line(&mut self, line: &str) -> (event: TelemetryEvent)
        ensures
            event@ == event_of_line(line@),
            final(self)@ == old(self)@.after(event_of_line(line@)),
    {
        let event = parse_telemetry_line(line);
        self.apply(&event);
        event
    }

    /// The byte count to show for a recording whose file holds `file_bytes`
    /// bytes: the larger of that and the count so far, which it becomes.
    pub fn meter(&mut self, file_bytes: u64) -> (bytes: u64)
        ensures
            final(self)@ == old(self)@.metered(file_bytes),
            bytes == final(self).bytes_written,
    {
        if file_bytes > self.bytes_written {
            self.bytes_written = file_bytes;
        }
        self.bytes_written
    }
}

/// No event lowers the byte count.
pub proof fn lemma_bytes_never_regress(t: TelemetryView, event: TelemetryEventView)
    ensures
        t.after(event).bytes_written >= t.bytes_written,
{
}

/// The byte count never regresses over a session, in whatever order counters
/// and progress estimates arrive: after any run of events it is at least what
/// it was after any earlier part of the run.
pub proof fn lemma_bytes_monotonic(t: TelemetryView, events: Seq<TelemetryEventView>, n: int)
    requires
        0 <= n <= events.len(),
    ensures
        t.after_all(events).bytes_written >= t.after_all(events.take(n)).bytes_written,
    decreases events.len(),
{
    if n == events.len() {
        assert(events.take(n) == events);
    } else {
        let before = events.drop_last();
        lemma_bytes_monotonic(t, before, n);
        assert(before.take(n) == events.take(n));
        lemma_bytes_never_regress(t.after_all(before), events.last());
    }
}

/// The bytes that an event reports as written: a counter itself, the
/// estimate for a progress mark, nothing for anything else.
pub open spec fn reported_bytes(event: TelemetryEventView) -> int {
    match event {
        TelemetryEventView::TotalSize(n) => n as int,
        TelemetryEventView::Progress(us) => estimated_pcm_bytes(us),
        _ => 0,
    }
}

/// The byte count is the largest report so far: after any run of events it
/// is at least what each of them reported, and it is the count from before
/// the run or what one of them reported.
pub proof fn lemma_bytes_are_largest_report(t: TelemetryView, events: Seq<TelemetryEventView>)
    ensures
        forall|i: int|
            0 <= i < events.len() ==> t.after_all(events).bytes_written >= reported_bytes(
                #[trigger] events[i],
            ),
        t.after_all(events).bytes_written == t.bytes_written || exists|i: int|
            0 <= i < events.len() && t.after_all(events).bytes_written == reported_bytes(
                #[trigger] events[i],
            ),
    decreases events.len(),
{
    if events.len() > 0 {
        let before = events.drop_last();
        lemma_bytes_are_largest_report(t, before);
        let mid = t.after_all(before);
        let end = t.after_all(events);
        assert(end == mid.after(events.last()));
        assert forall|i: int| 0 <= i < events.len() implies end.bytes_written >= reported_bytes(
            #[trigger] events[i],
        ) by {
            if i < before.len() {
                assert(before[i] == events[i]);
            }
        }
        if end.bytes_written != t.bytes_written {
            if end.bytes_written == mid.bytes_written {
                let i = choose|i: int|
                    0 <= i < before.len() && mid.bytes_written == reported_bytes(
                        #[trigger] before[i],
                    );
                assert(before[i] == events[i]);
            } else {
                assert(end.bytes_written == reported_bytes(events[events.len() - 1]));
            }
        }
    }
}

/// Reading the file size never lowers the byte count either.
pub proof fn lemma_meter_never_regresses(t: TelemetryView, file_bytes: u64)
    ensures
        t.metered(file_bytes).bytes_written >= t.bytes_written,
        t.metered(file_bytes).bytes_written >= file_bytes,
{
}

} // verus!
