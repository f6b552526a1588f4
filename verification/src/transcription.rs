//! What is read out of, and handed to, the speech-to-text engine.

use vstd::prelude::*;
use crate::capture::{argument_views, push_argument};
use crate::decimal::{decimal_digits, push_decimal};
use crate::text::{
    chars_of, ends_with, extend_str, find, first_match, line_views, lines, lines_of,
    lowercase_of, matches_at, same_ignoring_ascii_case, slice, str_eq,
    str_eq_ignore_ascii_case, to_string, trim, trimmed,
};

verus! {

/// The words before a detected language in the diagnostics, in lower case.
pub open spec fn detection_marker() -> Seq<char> {
    "auto-detected language:"@
}

/// The shortest language code that is taken for one.
pub const MIN_LANGUAGE_LEN: usize = 2;

/// The longest language code that is taken for one.
pub const MAX_LANGUAGE_LEN: usize = 8;

/// Whether `c` can stand in a language code: an ASCII letter or a hyphen.
pub open spec fn language_char(c: char) -> bool {
    ('a' <= c <= 'z') || ('A' <= c <= 'Z') || c == '-'
}

/// Number of characters at the start of `s` that can stand in a language
/// code.
pub open spec fn language_len(s: Seq<char>) -> int
    decreases s.len(),
{
    if s.len() > 0 && language_char(s[0]) {
        1 + language_len(s.drop_first())
    } else {
        0
    }
}

/// The language that a line of the engine's diagnostics reports, the line
/// given in lower case: the letters and hyphens that follow the marker and
/// any whitespace after it, if they are two to eight.
pub open spec fn language_in_lowered(lower: Seq<char>) -> Option<Seq<char>> {
    match first_match(lower, detection_marker()) {
        None => None,
        Some(pos) => {
            let suffix = trimmed(lower.skip(pos + detection_marker().len()));
            let n = language_len(suffix);
            if MIN_LANGUAGE_LEN <= n <= MAX_LANGUAGE_LEN {
                Some(suffix.take(n))
            } else {
                None
            }
        },
    }
}

/// The language that the first of `lines` to report one reports.
pub open spec fn detected_language_in(lines: Seq<Seq<char>>) -> Option<Seq<char>>
    decreases lines.len(),
{
    if lines.len() == 0 {
        None
    } else {
        match language_in_lowered(lowercase_of(lines[0])) {
            Some(language) => Some(language),
            None => detected_language_in(lines.drop_first()),
        }
    }
}

proof fn lemma_language_len_is(s: Seq<char>, n: int)
    requires
        0 <= n <= s.len(),
        forall|k: int| 0 <= k < n ==> language_char(s[k]),
        n < s.len() ==> !language_char(s[n]),
    ensures
        language_len(s) == n,
    decreases n,
{
    if n > 0 {
        let t = s.drop_first();
        assert forall|k: int| 0 <= k < n - 1 implies language_char(t[k]) by {
            assert(t[k] == s[k + 1]);
        }
        if n - 1 < t.len() {
            assert(t[n - 1] == s[n]);
        }
        lemma_language_len_is(t, n - 1);
    }
}

/// The language that `lower`, a line of the engine's diagnostics in lower
/// case, reports.
pub fn detected_language_in_line(lower: &str) -> (language: Option<String>)
    ensures
        match language {
            Some(l) => language_in_lowered(lower@) == Some(l@),
            None => language_in_lowered(lower@) is None,
        },
{
    let line = chars_of(lower);
    let marker = chars_of("auto-detected language:");
    let pos = match find(&line, &marker) {
        Some(p) => p,
        None => {
            return None;
        },
    };
    let total: usize = line.len();
    let suffix = trim(&slice(&line, pos + marker.len(), total));
    assert(line@.subrange(pos + marker.len(), total as int) == line@.skip(
        pos + detection_marker().len(),
    ));
    let mut n: usize = 0;
    while n < suffix.len() && (('a' <= suffix[n] && suffix[n] <= 'z') || ('A' <= suffix[n]
        && suffix[n] <= 'Z') || suffix[n] == '-')
        invariant
            n <= suffix.len(),
            forall|k: int| 0 <= k < n ==> language_char(suffix@[k]),
        decreases suffix.len() - n,
    {
        n += 1;
    }
    proof {
        lemma_language_len_is(suffix@, n as int);
    }
    if MIN_LANGUAGE_LEN <= n && n <= MAX_LANGUAGE_LEN {
        let language = slice(&suffix, 0, n);
        assert(language@ == suffix@.take(n as int));
        Some(to_string(&language))
    } else {
        None
    }
}

/// The language that the engine reports to have detected, read out of its
/// diagnostics: that of the first line that reports one.
pub fn parse_whisper_detected_language(stderr_text: &str) -> (language: Option<String>)
    ensures
        match language {
            Some(l) => detected_language_in(lines_of(stderr_text@)) == Some(l@),
            None => detected_language_in(lines_of(stderr_text@)) is None,
        },
{
    let text = chars_of(stderr_text);
    let all = lines(&text);
    let ghost all_lines = line_views(all@);
    let mut i: usize = 0;
    assert(all_lines.skip(0) == all_lines);
    while i < all.len()
        invariant
            i <= all.len(),
            all_lines == line_views(all@),
            all_lines == lines_of(stderr_text@),
            detected_language_in(lines_of(stderr_text@)) == detected_language_in(
                all_lines.skip(i as int),
            ),
        decreases all.len() - i,
    {
        let line = to_string(&all[i]);
        let lower = line.as_str().to_lowercase();
        proof {
            let remaining = all_lines.skip(i as int);
            assert(remaining[0] == all[i as int]@);
            assert(remaining.drop_first() == all_lines.skip(i + 1));
        }
        match detected_language_in_line(lower.as_str()) {
            Some(language) => {
                return Some(language);
            },
            None => {},
        }
        i += 1;
    }
    None
}

/// The language that the engine is asked for: the given one, trimmed, or
/// `auto` where none is given or it is blank.
pub open spec fn requested_language_of(language: Option<Seq<char>>) -> Seq<char> {
    match language {
        Some(l) => if trimmed(l).len() > 0 {
            trimmed(l)
        } else {
            "auto"@
        },
        None => "auto"@,
    }
}

/// The language to ask the engine for.
pub fn requested_language(language: Option<&str>) -> (requested: String)
    ensures
        requested@ == requested_language_of(
            match language {
                Some(l) => Some(l@),
                None => None,
            },
        ),
{
    match language {
        Some(l) => {
            let t = trim(&chars_of(l));
            if t.len() > 0 {
                to_string(&t)
            } else {
                "auto".to_owned()
            }
        },
        None => "auto".to_owned(),
    }
}

/// The language that is stored with a transcript: the given one or `auto`;
/// in place of `auto`, in whatever case, the language that the engine
/// reports to have detected, if it reports one.
pub open spec fn stored_language_of(language: Option<Seq<char>>, stderr_text: Seq<char>) -> Seq<
    char,
> {
    let given = match language {
        Some(l) => l,
        None => "auto"@,
    };
    if same_ignoring_ascii_case(given, "auto"@) {
        match detected_language_in(lines_of(stderr_text)) {
            Some(detected) => detected,
            None => given,
        }
    } else {
        given
    }
}

/// The language to store with a transcript.
pub fn stored_language(language: Option<&str>, stderr_text: &str) -> (stored: String)
    ensures
        stored@ == stored_language_of(
            match language {
                Some(l) => Some(l@),
                None => None,
            },
            stderr_text@,
        ),
{
    let given: &str = match language {
        Some(l) => l,
        None => "auto",
    };
    if str_eq_ignore_ascii_case(given, "auto") {
        match parse_whisper_detected_language(stderr_text) {
            Some(detected) => detected,
            None => given.to_owned(),
        }
    } else {
        given.to_owned()
    }
}

/// The speech-to-text programs that can be used.
#[derive(Clone, Copy, Debug, PartialEq, Eq, Structural)]
pub enum WhisperEngine {
    /// `whisper-cli`, which reads a model file.
    Cli,
    /// `whisper`, which brings its own models.
    Python,
}

impl WhisperEngine {
    /// The name of the program.
    pub open spec fn program_name(self) -> Seq<char> {
        match self {
            WhisperEngine::Cli => "whisper-cli"@,
            WhisperEngine::Python => "whisper"@,
        }
    }

    /// The name of the program.
    pub fn program(self) -> (s: &'static str)
        ensures
            s@ == self.program_name(),
    {
        match self {
            WhisperEngine::Cli => "whisper-cli",
            WhisperEngine::Python => "whisper",
        }
    }
}

/// The engine to use, given which of the programs were found: `whisper-cli`
/// before `whisper`.
pub fn choose_engine(cli_found: bool, python_found: bool) -> (engine: Option<WhisperEngine>)
    ensures
        engine == if cli_found {
            Some(WhisperEngine::Cli)
        } else if python_found {
            Some(WhisperEngine::Python)
        } else {
            None
        },
{
    if cli_found {
        Some(WhisperEngine::Cli)
    } else if python_found {
        Some(WhisperEngine::Python)
    } else {
        None
    }
}

/// Why an entry could not be transcribed.
#[derive(Clone, Copy, Debug, PartialEq, Eq, Structural)]
pub enum TranscribeError {
    RecordingMissing,
    NoEngine,
    NoModel,
    EnglishOnlyModel,
    NoTranscriptFile,
    EmptyTranscript,
}

impl TranscribeError {
    /// The error in words.
    pub open spec fn text(self) -> Seq<char> {
        match self {
            TranscribeError::RecordingMissing => "Recording path does not exist on disk"@,
            TranscribeError::NoEngine => "No Whisper executable found (`whisper-cli` or `whisper`) in PATH"@,
            TranscribeError::NoModel => "No valid whisper model found. Set WHISPER_MODEL_PATH or place ggml-base.bin / ggml-tiny.bin (or *.en variants) in ./models/ (install via `bash scripts/macos/install-whisper-model.sh`)."@,
            TranscribeError::EnglishOnlyModel => "Current Whisper model is English-only and cannot auto-detect/transcribe other languages. Install a multilingual model (ggml-tiny.bin or ggml-base.bin)."@,
            TranscribeError::NoTranscriptFile => "Whisper did not produce a transcript file"@,
            TranscribeError::EmptyTranscript => "Transcription returned empty text. Check that speech was audible in the recording and that the selected input devices are correct."@,
        }
    }

    /// The error in words.
    pub fn message(self) -> (s: &'static str)
        ensures
            s@ == self.text(),
    {
        match self {
            TranscribeError::RecordingMissing => "Recording path does not exist on disk",
            TranscribeError::NoEngine => "No Whisper executable found (`whisper-cli` or `whisper`) in PATH",
            TranscribeError::NoModel => "No valid whisper model found. Set WHISPER_MODEL_PATH or place ggml-base.bin / ggml-tiny.bin (or *.en variants) in ./models/ (install via `bash scripts/macos/install-whisper-model.sh`).",
            TranscribeError::EnglishOnlyModel => "Current Whisper model is English-only and cannot auto-detect/transcribe other languages. Install a multilingual model (ggml-tiny.bin or ggml-base.bin).",
            TranscribeError::NoTranscriptFile => "Whisper did not produce a transcript file",
            TranscribeError::EmptyTranscript => "Transcription returned empty text. Check that speech was audible in the recording and that the selected input devices are correct.",
        }
    }
}

/// Whether a model file of that name knows English only.
pub open spec fn english_only_name(file_name: Option<Seq<char>>) -> bool {
    match file_name {
        Some(name) => ".en.bin"@.len() <= name.len() && matches_at(
            name,
            ".en.bin"@,
            name.len() - ".en.bin"@.len(),
        ),
        None => false,
    }
}

/// Whether a model file of that name knows English only.
pub fn is_english_only_model(file_name: Option<&str>) -> (r: bool)
    ensures
        r == english_only_name(
            match file_name {
                Some(n) => Some(n@),
                None => None,
            },
        ),
{
    match file_name {
        Some(name) => ends_with(&chars_of(name), &chars_of(".en.bin")),
        None => false,
    }
}

/// Refuses to detect the language with a model that knows English only.
pub fn check_model_language(requested: &str, english_only: bool) -> (r: Result<
    (),
    TranscribeError,
>)
    ensures
        r is Err <==> requested@ == "auto"@ && english_only,
        r matches Err(e) ==> e == TranscribeError::EnglishOnlyModel,
{
    if english_only && str_eq(requested, "auto") {
        Err(TranscribeError::EnglishOnlyModel)
    } else {
        Ok(())
    }
}

/// Whether a transcript holds anything but whitespace.
pub fn has_text(transcript: &str) -> (r: bool)
    ensures
        r == (trimmed(transcript@).len() > 0),
{
    trim(&chars_of(transcript)).len() > 0
}

/// The base name of the file that `whisper-cli` writes a transcript to,
/// named after the time of the transcription.
pub open spec fn transcript_base_name(now: u64) -> Seq<char> {
    "tmp_"@ + decimal_digits(now as nat)
}

/// Names the file that a transcription at the time `now` writes.
pub fn transcript_temp_name(now: u64) -> (name: String)
    ensures
        name@ == transcript_base_name(now),
{
    let mut out = chars_of("tmp_");
    push_decimal(&mut out, now);
    to_string(&out)
}

/// The command line of the engine. `whisper-cli` runs without the GPU, reads
/// the model at `model_path` and writes plain text to `output_base`;
/// `whisper` writes plain text into `transcript_dir`.
pub open spec fn whisper_arguments(
    engine: WhisperEngine,
    model_path: Seq<char>,
    recording_path: Seq<char>,
    output_base: Seq<char>,
    transcript_dir: Seq<char>,
    language: Option<Seq<char>>,
) -> Seq<Seq<char>> {
    match engine {
        WhisperEngine::Cli => seq![
            "-ng"@,
            "-m"@,
            model_path,
            "-f"@,
            recording_path,
            "-otxt"@,
            "-of"@,
            output_base,
            "--language"@,
            requested_language_of(language),
        ],
        WhisperEngine::Python => seq![
            recording_path,
            "--output_format"@,
            "txt"@,
            "--output_dir"@,
            transcript_dir,
            "--language"@,
            requested_language_of(language),
        ],
    }
}

/// The arguments that run the engine on a recording.
pub fn build_whisper_arguments(
    engine: WhisperEngine,
    model_path: &str,
    recording_path: &str,
    output_base: &str,
    transcript_dir: &str,
    language: Option<&str>,
) -> (arguments: Vec<String>)
    ensures
        argument_views(arguments@) == whisper_arguments(
            engine,
            model_path@,
            recording_path@,
            output_base@,
            transcript_dir@,
            match language {
                Some(l) => Some(l@),
                None => None,
            },
        ),
{
    let requested = requested_language(language);
    let mut arguments: Vec<String> = Vec::new();
    assert(argument_views(arguments@) =~= Seq::<Seq<char>>::empty());
    match engine {
        WhisperEngine::Cli => {
            push_argument(&mut arguments, "-ng");
            push_argument(&mut arguments, "-m");
            push_argument(&mut arguments, model_path);
            push_argument(&mut arguments, "-f");
            push_argument(&mut arguments, recording_path);
            push_argument(&mut arguments, "-otxt");
            push_argument(&mut arguments, "-of");
            push_argument(&mut arguments, output_base);
            push_argument(&mut arguments, "--language");
            push_argument(&mut arguments, requested.as_str());
            assert(argument_views(arguments@) =~= seq![
                "-ng"@,
                "-m"@,
                model_path@,
                "-f"@,
                recording_path@,
                "-otxt"@,
                "-of"@,
                output_base@,
                "--language"@,
                requested@,
            ]);
        },
        WhisperEngine::Python => {
            push_argument(&mut arguments, recording_path);
            push_argument(&mut arguments, "--output_format");
            push_argument(&mut arguments, "txt");
            push_argument(&mut arguments, "--output_dir");
            push_argument(&mut arguments, transcript_dir);
            push_argument(&mut arguments, "--language");
            push_argument(&mut arguments, requested.as_str());
            assert(argument_views(arguments@) =~= seq![
                recording_path@,
                "--output_format"@,
                "txt"@,
                "--output_dir"@,
                transcript_dir@,
                "--language"@,
                requested@,
            ]);
        },
    }
    arguments
}

/// A model file smaller than this is no model.
pub const MIN_MODEL_BYTES: u64 = 10 * 1024 * 1024;

/// A place where a model file is looked for, with what was found there.
#[derive(Debug)]
pub struct ModelCandidate {
    pub path: String,
    pub exists: bool,
    /// The size of the file, if it exists.
    pub size: u64,
}

/// What a candidate is good for.
#[derive(Clone, Copy, Debug, PartialEq, Eq, Structural)]
pub enum ModelVerdict {
    Missing,
    /// There is a file, but it is too small to be a model.
    Invalid,
    Valid,
}

/// What a candidate is good for, given whether there is a file and how large it is.
pub open spec fn verdict_of(exists: bool, size: u64) -> ModelVerdict {
    if !exists {
        ModelVerdict::Missing
    } else if size < MIN_MODEL_BYTES {
        ModelVerdict::Invalid
    } else {
        ModelVerdict::Valid
    }
}

/// Judges a candidate.
pub fn judge_model(exists: bool, size: u64) -> (verdict: ModelVerdict)
    ensures
        verdict == verdict_of(exists, size),
{
    if !exists {
        ModelVerdict::Missing
    } else if size < MIN_MODEL_BYTES {
        ModelVerdict::Invalid
    } else {
        ModelVerdict::Valid
    }
}

/// The outcome of looking for a model among candidates.
#[derive(Clone, Copy, Debug, PartialEq, Eq, Structural)]
pub enum ModelChoice {
    /// The candidate at this index is the model.
    Use(usize),
    /// The candidate at this index is no model, which ends the search.
    Invalid(usize),
    NoneFound,
}

/// Whether the candidate at `i` is the first of which there is a file.
pub open spec fn first_present(candidates: Seq<ModelCandidate>, i: int) -> bool {
    &&& 0 <= i < candidates.len()
    &&& candidates[i].exists
    &&& forall|j: int| 0 <= j < i ==> !(#[trigger] candidates[j]).exists
}

/// Looks for the model among `candidates`, which are tried in their order.
/// The first of which there is a file decides: it is the model, or, being
/// too small, it ends the search.
pub fn choose_model(candidates: &Vec<ModelCandidate>) -> (choice: ModelChoice)
    ensures
        match choice {
            ModelChoice::Use(i) => first_present(candidates@, i as int) && candidates@[i as int].size
                >= MIN_MODEL_BYTES,
            ModelChoice::Invalid(i) => first_present(candidates@, i as int)
                && candidates@[i as int].size < MIN_MODEL_BYTES,
            ModelChoice::NoneFound => forall|j: int|
                0 <= j < candidates@.len() ==> !(#[trigger] candidates@[j]).exists,
        },
{
    let mut i: usize = 0;
    while i < candidates.len()
        invariant
            i <= candidates.len(),
            forall|j: int| 0 <= j < i ==> !(#[trigger] candidates@[j]).exists,
        decreases candidates.len() - i,
    {
        match judge_model(candidates[i].exists, candidates[i].size) {
            ModelVerdict::Missing => {},
            ModelVerdict::Invalid => {
                return ModelChoice::Invalid(i);
            },
            ModelVerdict::Valid => {
                return ModelChoice::Use(i);
            },
        }
        i += 1;
    }
    ModelChoice::NoneFound
}

/// The names under which a model file is looked for in a directory, the
/// models that know many languages first.
pub open spec fn model_names() -> Seq<Seq<char>> {
    seq!["ggml-base.bin"@, "ggml-tiny.bin"@, "ggml-base.en.bin"@, "ggml-tiny.en.bin"@]
}

/// The names under which a model file is looked for, in their order.
pub fn model_file_names() -> (names: Vec<String>)
    ensures
        argument_views(names@) == model_names(),
{
    let mut names: Vec<String> = Vec::new();
    assert(argument_views(names@) =~= Seq::<Seq<char>>::empty());
    push_argument(&mut names, "ggml-base.bin");
    push_argument(&mut names, "ggml-tiny.bin");
    push_argument(&mut names, "ggml-base.en.bin");
    push_argument(&mut names, "ggml-tiny.en.bin");
    assert(argument_views(names@) =~= model_names());
    names
}

/// What is reported of a model file that is too small.
pub open spec fn invalid_model_text(path: Seq<char>, size: u64) -> Seq<char> {
    "Whisper model at "@ + path + " looks invalid ("@ + decimal_digits(size as nat)
        + " bytes). Install a real model with `bash scripts/macos/install-whisper-model.sh`."@
}

/// Words the finding of a model file that is too small.
pub fn invalid_model_message(path: &str, size: u64) -> (message: String)
    ensures
        message@ == invalid_model_text(path@, size),
{
    let mut out = chars_of("Whisper model at ");
    extend_str(&mut out, path);
    extend_str(&mut out, " looks invalid (");
    push_decimal(&mut out, size);
    extend_str(
        &mut out,
        " bytes). Install a real model with `bash scripts/macos/install-whisper-model.sh`.",
    );
    to_string(&out)
}

} // verus!
