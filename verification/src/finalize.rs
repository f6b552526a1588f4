//! What becomes of the audio files when a recording stops.
//!
//! A recording on an entry that has audio already writes a segment of its
//! own. When it stops, segment and prior audio are reconciled so that the
//! entry has one audio file again.

use vstd::prelude::*;
use crate::capture::{argument_views, push_argument};
use crate::decimal::{decimal_digits, push_decimal};
use crate::text::{chars_of, extend_str, to_string};

verus! {

/// A recording of this size or less holds no audible data.
pub const MINIMAL_RECORDING_BYTES: u64 = 64;

/// One step on the files of a recording, for the caller to carry out.
#[derive(Debug)]
pub enum FileStep {
    /// Write `first` followed by `second` to `output`. Failure ends the stop.
    Concatenate { first: String, second: String, output: String },
    /// Remove the file if that is possible; failure is passed over.
    Remove { path: String },
    /// Move `from` to `to`, replacing it. Failure ends the stop.
    Rename { from: String, to: String },
}

/// A step with its paths as sequences.
pub enum FileStepView {
    Concatenate { first: Seq<char>, second: Seq<char>, output: Seq<char> },
    Remove { path: Seq<char> },
    Rename { from: Seq<char>, to: Seq<char> },
}

impl View for FileStep {
    type V = FileStepView;

    open spec fn view(&self) -> FileStepView {
        match self {
            FileStep::Concatenate { first, second, output } => FileStepView::Concatenate {
                first: first@,
                second: second@,
                output: output@,
            },
            FileStep::Remove { path } => FileStepView::Remove { path: path@ },
            FileStep::Rename { from, to } => FileStepView::Rename { from: from@, to: to@ },
        }
    }
}

/// How a stopped recording is finalized: the steps to carry out in order,
/// and the file that is the entry's audio after them.
#[derive(Debug)]
pub struct FinalizePlan {
    pub steps: Vec<FileStep>,
    pub final_path: String,
}

/// A plan with its paths as sequences.
pub struct FinalizePlanView {
    pub steps: Seq<FileStepView>,
    pub final_path: Seq<char>,
}

impl View for FinalizePlan {
    type V = FinalizePlanView;

    open spec fn view(&self) -> FinalizePlanView {
        FinalizePlanView {
            steps: self.steps@.map_values(|s: FileStep| s@),
            final_path: self.final_path@,
        }
    }
}

/// The steps that merge a segment into the prior audio: both are written to
/// `merged`, prior first, which then takes the place of the prior audio, and
/// the segment is removed.
pub open spec fn merge_steps(prior: Seq<char>, segment: Seq<char>, merged: Seq<char>) -> Seq<
    FileStepView,
> {
    seq![
        FileStepView::Concatenate { first: prior, second: segment, output: merged },
        FileStepView::Remove { path: prior },
        FileStepView::Rename { from: merged, to: prior },
        FileStepView::Remove { path: segment },
    ]
}

/// The plan for a stopped recording, if it left any audio.
///
/// `prior` is the audio that the entry had when the recording started,
/// `segment` the file that the recording wrote, and the two flags say which
/// of them are on disk now. With both on disk they are merged. With only one
/// of them on disk, that one is the entry's audio as it is. With neither,
/// there is no recording.
pub open spec fn finalization(
    prior: Option<Seq<char>>,
    segment: Seq<char>,
    segment_exists: bool,
    prior_exists: bool,
    merged: Seq<char>,
) -> Option<FinalizePlanView> {
    match prior {
        Some(p) => if segment_exists && prior_exists {
            Some(FinalizePlanView { steps: merge_steps(p, segment, merged), final_path: p })
        } else if segment_exists {
            Some(FinalizePlanView { steps: Seq::empty(), final_path: segment })
        } else if prior_exists {
            Some(FinalizePlanView { steps: Seq::empty(), final_path: p })
        } else {
            None
        },
        None => if segment_exists {
            Some(FinalizePlanView { steps: Seq::empty(), final_path: segment })
        } else {
            None
        },
    }
}

/// Plans the finalization of a stopped recording. `merged_path` is where the
/// merged audio is written before it replaces the prior audio.
pub fn plan_finalization(
    existing_path: Option<&str>,
    output_path: &str,
    segment_exists: bool,
    prior_exists: bool,
    merged_path: &str,
) -> (plan: Option<FinalizePlan>)
    ensures
        match plan {
            Some(p) => Some(p@),
            None => None,
        } == finalization(
            match existing_path {
                Some(p) => Some(p@),
                None => None,
            },
            output_path@,
            segment_exists,
            prior_exists,
            merged_path@,
        ),
{
    match existing_path {
        Some(prior) => {
            if segment_exists && prior_exists {
                let mut steps: Vec<FileStep> = Vec::new();
                steps.push(
                    FileStep::Concatenate {
                        first: prior.to_owned(),
                        second: output_path.to_owned(),
                        output: merged_path.to_owned(),
                    },
                );
                steps.push(FileStep::Remove { path: prior.to_owned() });
                steps.push(FileStep::Rename { from: merged_path.to_owned(), to: prior.to_owned() });
                steps.push(FileStep::Remove { path: output_path.to_owned() });
                let plan = FinalizePlan { steps, final_path: prior.to_owned() };
                assert(plan@.steps =~= merge_steps(prior@, output_path@, merged_path@));
                Some(plan)
            } else if segment_exists {
                let plan = FinalizePlan { steps: Vec::new(), final_path: output_path.to_owned() };
                assert(plan@.steps =~= Seq::<FileStepView>::empty());
                Some(plan)
            } else if prior_exists {
                let plan = FinalizePlan { steps: Vec::new(), final_path: prior.to_owned() };
                assert(plan@.steps =~= Seq::<FileStepView>::empty());
                Some(plan)
            } else {
                None
            }
        },
        None => {
            if segment_exists {
                let plan = FinalizePlan { steps: Vec::new(), final_path: output_path.to_owned() };
                assert(plan@.steps =~= Seq::<FileStepView>::empty());
                Some(plan)
            } else {
                None
            }
        },
    }
}

/// Stopping a recording that has prior audio and a fresh segment merges the
/// two, prior first, into one file that takes the place of the prior audio,
/// and removes the segment.
pub proof fn lemma_segment_is_merged_after_prior(
    prior: Seq<char>,
    segment: Seq<char>,
    merged: Seq<char>,
)
    ensures
        finalization(Some(prior), segment, true, true, merged) matches Some(plan) && {
            &&& plan.final_path == prior
            &&& plan.steps.len() == 4
            &&& plan.steps[0] == (FileStepView::Concatenate {
                first: prior,
                second: segment,
                output: merged,
            })
            &&& plan.steps[2] == (FileStepView::Rename { from: merged, to: prior })
            &&& plan.steps[3] == (FileStepView::Remove { path: segment })
        },
{
}

/// Stopping a recording whose segment never came to be, on an entry that has
/// prior audio, succeeds and leaves the prior audio untouched.
pub proof fn lemma_prior_audio_survives_missing_segment(
    prior: Seq<char>,
    segment: Seq<char>,
    merged: Seq<char>,
)
    ensures
        finalization(Some(prior), segment, false, true, merged) matches Some(plan) && {
            &&& plan.final_path == prior
            &&& plan.steps.len() == 0
        },
{
}

/// Whether a finalized recording of `file_size` bytes holds audible data.
pub fn has_audible_data(file_size: u64) -> (r: bool)
    ensures
        r == (file_size > MINIMAL_RECORDING_BYTES),
{
    file_size > MINIMAL_RECORDING_BYTES
}

/// The name of the file that merged audio is written to before it replaces
/// the prior audio, named after the time of the merge.
pub open spec fn merged_name(now: u64) -> Seq<char> {
    "merged-"@ + decimal_digits(now as nat) + ".wav"@
}

/// Names the file that audio merged at the time `now` is written to.
pub fn merged_file_name(now: u64) -> (name: String)
    ensures
        name@ == merged_name(now),
{
    let mut out = chars_of("merged-");
    push_decimal(&mut out, now);
    extend_str(&mut out, ".wav");
    to_string(&out)
}

/// The command line that writes `first` followed by `second` to `output` as
/// one channel of 16 kHz audio.
pub open spec fn concat_arguments(first: Seq<char>, second: Seq<char>, output: Seq<char>) -> Seq<
    Seq<char>,
> {
    seq![
        "-y"@,
        "-i"@,
        first,
        "-i"@,
        second,
        "-filter_complex"@,
        "[0:a][1:a]concat=n=2:v=0:a=1[a]"@,
        "-map"@,
        "[a]"@,
        "-ac"@,
        "1"@,
        "-ar"@,
        "16000"@,
        output,
    ]
}

/// The arguments that merge two recordings into one.
pub fn build_concat_arguments(first: &str, second: &str, output: &str) -> (arguments: Vec<String>)
    ensures
        argument_views(arguments@) == concat_arguments(first@, second@, output@),
{
    let mut arguments: Vec<String> = Vec::new();
    assert(argument_views(arguments@) =~= Seq::<Seq<char>>::empty());
    push_argument(&mut arguments, "-y");
    push_argument(&mut arguments, "-i");
    push_argument(&mut arguments, first);
    push_argument(&mut arguments, "-i");
    push_argument(&mut arguments, second);
    push_argument(&mut arguments, "-filter_complex");
    push_argument(&mut arguments, "[0:a][1:a]concat=n=2:v=0:a=1[a]");
    push_argument(&mut arguments, "-map");
    push_argument(&mut arguments, "[a]");
    push_argument(&mut arguments, "-ac");
    push_argument(&mut arguments, "1");
    push_argument(&mut arguments, "-ar");
    push_argument(&mut arguments, "16000");
    push_argument(&mut arguments, output);
    assert(argument_views(arguments@) =~= concat_arguments(first@, second@, output@));
    arguments
}

/// The command line that asks the probe for the duration of a recording.
pub open spec fn probe_arguments(path: Seq<char>) -> Seq<Seq<char>> {
    seq![
        "-v"@,
        "error"@,
        "-show_entries"@,
        "format=duration"@,
        "-of"@,
        "default=noprint_wrappers=1:nokey=1"@,
        path,
    ]
}

/// The arguments that ask for the duration of a recording.
pub fn build_probe_arguments(recording_path: &str) -> (arguments: Vec<String>)
    ensures
        argument_views(arguments@) == probe_arguments(recording_path@),
{
    let mut arguments: Vec<String> = Vec::new();
    assert(argument_views(arguments@) =~= Seq::<Seq<char>>::empty());
    push_argument(&mut arguments, "-v");
    push_argument(&mut arguments, "error");
    push_argument(&mut arguments, "-show_entries");
    push_argument(&mut arguments, "format=duration");
    push_argument(&mut arguments, "-of");
    push_argument(&mut arguments, "default=noprint_wrappers=1:nokey=1");
    push_argument(&mut arguments, recording_path);
    assert(argument_views(arguments@) =~= probe_arguments(recording_path@));
    arguments
}

/// Why a recording could not be stopped with a result.
#[derive(Clone, Copy, Debug, PartialEq, Eq, Structural)]
pub enum StopError {
    SessionNotFound,
    /// Neither a segment nor prior audio is on disk.
    NotCreated,
    /// The finalized file is too small to hold audible data.
    NoAudibleData,
}

/// The error in words. That no file was created is reported with the last
/// error of the recorder where it reported one.
pub open spec fn stop_error_text(error: StopError, last_error: Option<Seq<char>>) -> Seq<char> {
    match error {
        StopError::SessionNotFound => "Recording session not found"@,
        StopError::NotCreated => match last_error {
            Some(details) => "Recording file was not created. Native recorder error: "@ + details,
            None => "Recording file was not created. Ensure system/audio permissions are granted and that audio is actively playing during capture."@,
        },
        StopError::NoAudibleData => "Recording captured no audible data. Check source routing/permissions and try again while audio is playing."@,
    }
}

/// Words an error of stopping.
pub fn stop_error_message(error: StopError, last_error: Option<&str>) -> (message: String)
    ensures
        message@ == stop_error_text(
            error,
            match last_error {
                Some(details) => Some(details@),
                None => None,
            },
        ),
{
    match error {
        StopError::SessionNotFound => "Recording session not found".to_owned(),
        StopError::NotCreated => match last_error {
            Some(details) => {
                let mut out = chars_of("Recording file was not created. Native recorder error: ");
                extend_str(&mut out, details);
                to_string(&out)
            },
            None => "Recording file was not created. Ensure system/audio permissions are granted and that audio is actively playing during capture.".to_owned(),
        },
        StopError::NoAudibleData => "Recording captured no audible data. Check source routing/permissions and try again while audio is playing.".to_owned(),
    }
}

} // verus!
