//! The kinds of document that are derived from a transcript.

use vstd::prelude::*;
use crate::text::{chars_of, joined, extend_str, str_eq, to_string, trim, trimmed};

verus! {

/// The closed set of artifact kinds. A prompt template exists for each, so a
/// prompt role is the same thing as an artifact kind.
#[derive(Clone, Copy, Debug, PartialEq, Eq, Hash, Structural)]
pub enum ArtifactType {
    Summary,
    Analysis,
    CritiqueRecruitment,
    CritiqueSales,
    CritiqueCs,
}

impl ArtifactType {
    /// The name under which the kind is stored and requested.
    pub open spec fn name(self) -> Seq<char> {
        match self {
            ArtifactType::Summary => "summary"@,
            ArtifactType::Analysis => "analysis"@,
            ArtifactType::CritiqueRecruitment => "critique_recruitment"@,
            ArtifactType::CritiqueSales => "critique_sales"@,
            ArtifactType::CritiqueCs => "critique_cs"@,
        }
    }

    /// The kind that `name` names, if any.
    pub open spec fn named(name: Seq<char>) -> Option<ArtifactType> {
        if name == "summary"@ {
            Some(ArtifactType::Summary)
        } else if name == "analysis"@ {
            Some(ArtifactType::Analysis)
        } else if name == "critique_recruitment"@ {
            Some(ArtifactType::CritiqueRecruitment)
        } else if name == "critique_sales"@ {
            Some(ArtifactType::CritiqueSales)
        } else if name == "critique_cs"@ {
            Some(ArtifactType::CritiqueCs)
        } else {
            None
        }
    }

    /// The name of the kind.
    pub fn as_str(self) -> (s: &'static str)
        ensures
            s@ == self.name(),
    {
        match self {
            ArtifactType::Summary => "summary",
            ArtifactType::Analysis => "analysis",
            ArtifactType::CritiqueRecruitment => "critique_recruitment",
            ArtifactType::CritiqueSales => "critique_sales",
            ArtifactType::CritiqueCs => "critique_cs",
        }
    }

    /// Reads the name of a kind.
    pub fn parse(name: &str) -> (r: Option<ArtifactType>)
        ensures
            r == ArtifactType::named(name@),
    {
        if str_eq(name, "summary") {
            Some(ArtifactType::Summary)
        } else if str_eq(name, "analysis") {
            Some(ArtifactType::Analysis)
        } else if str_eq(name, "critique_recruitment") {
            Some(ArtifactType::CritiqueRecruitment)
        } else if str_eq(name, "critique_sales") {
            Some(ArtifactType::CritiqueSales)
        } else if str_eq(name, "critique_cs") {
            Some(ArtifactType::CritiqueCs)
        } else {
            None
        }
    }

    /// The prompt that is used for the kind when no template is stored.
    pub open spec fn fallback_prompt_text(self) -> Seq<char> {
        match self {
            ArtifactType::Summary => "Create a concise markdown summary of this call."@,
            ArtifactType::Analysis => "Analyze this call in markdown with strengths, risks, and improvements."@,
            ArtifactType::CritiqueRecruitment => "Critique this call as Recruitment Head in markdown."@,
            ArtifactType::CritiqueSales => "Critique this call as Sales Head in markdown."@,
            ArtifactType::CritiqueCs => "Critique this call as Customer Success Lead in markdown."@,
        }
    }

    /// The prompt for the kind when no template is stored.
    pub fn fallback_prompt(self) -> (s: &'static str)
        ensures
            s@ == self.fallback_prompt_text(),
    {
        match self {
            ArtifactType::Summary => "Create a concise markdown summary of this call.",
            ArtifactType::Analysis => "Analyze this call in markdown with strengths, risks, and improvements.",
            ArtifactType::CritiqueRecruitment => "Critique this call as Recruitment Head in markdown.",
            ArtifactType::CritiqueSales => "Critique this call as Sales Head in markdown.",
            ArtifactType::CritiqueCs => "Critique this call as Customer Success Lead in markdown.",
        }
    }
}

/// Every kind is found again under its own name.
pub proof fn lemma_name_round_trip(kind: ArtifactType)
    ensures
        ArtifactType::named(kind.name()) == Some(kind),
{
    reveal_strlit("summary");
    reveal_strlit("analysis");
    reveal_strlit("critique_recruitment");
    reveal_strlit("critique_sales");
    reveal_strlit("critique_cs");
    assert("summary"@.len() == 7);
    assert("analysis"@.len() == 8);
    assert("critique_recruitment"@.len() == 20);
    assert("critique_sales"@.len() == 14);
    assert("critique_cs"@.len() == 11);
}

/// What is reported of a name that names no kind.
pub open spec fn invalid_type_message(name: Seq<char>) -> Seq<char> {
    "Invalid artifact type: "@ + name
}

/// Accepts the names of the artifact kinds and nothing else.
pub fn validate_artifact_type(artifact_type: &str) -> (r: Result<(), String>)
    ensures
        r is Ok <==> ArtifactType::named(artifact_type@) is Some,
        r matches Err(message) ==> message@ == invalid_type_message(artifact_type@),
{
    match ArtifactType::parse(artifact_type) {
        Some(_) => Ok(()),
        None => Err(joined("Invalid artifact type: ", artifact_type)),
    }
}

/// Accepts the roles for which a prompt template exists: the artifact kinds.
pub fn validate_prompt_role(role: &str) -> (r: Result<(), String>)
    ensures
        r is Ok <==> ArtifactType::named(role@) is Some,
        r matches Err(message) ==> message@ == invalid_type_message(role@),
{
    validate_artifact_type(role)
}

impl ArtifactType {
    /// The prompt template that a new installation has for the kind.
    pub open spec fn default_template_text(self) -> Seq<char> {
        match self {
            ArtifactType::Summary => "Create a concise markdown summary of this call. Include goals, what happened, and next actions."@,
            ArtifactType::Analysis => "Analyze this call in markdown. Cover communication quality, risks, strengths, and concrete improvements."@,
            ArtifactType::CritiqueRecruitment => "You are a Recruitment Head. Critique the interview quality, question depth, candidate signal quality, and hiring recommendation clarity."@,
            ArtifactType::CritiqueSales => "You are a Sales Head. Critique discovery quality, objection handling, value articulation, and deal progression discipline."@,
            ArtifactType::CritiqueCs => "You are a Customer Success Lead. Critique retention risk detection, expectation management, adoption coaching, and next-step ownership."@,
        }
    }

    /// The prompt template that a new installation has for the kind.
    pub fn default_template(self) -> (s: &'static str)
        ensures
            s@ == self.default_template_text(),
    {
        match self {
            ArtifactType::Summary => "Create a concise markdown summary of this call. Include goals, what happened, and next actions.",
            ArtifactType::Analysis => "Analyze this call in markdown. Cover communication quality, risks, strengths, and concrete improvements.",
            ArtifactType::CritiqueRecruitment => "You are a Recruitment Head. Critique the interview quality, question depth, candidate signal quality, and hiring recommendation clarity.",
            ArtifactType::CritiqueSales => "You are a Sales Head. Critique discovery quality, objection handling, value articulation, and deal progression discipline.",
            ArtifactType::CritiqueCs => "You are a Customer Success Lead. Critique retention risk detection, expectation management, adoption coaching, and next-step ownership.",
        }
    }

    /// All kinds, in the order in which their templates are seeded.
    pub fn all() -> (kinds: Vec<ArtifactType>)
        ensures
            kinds@ == seq![
                ArtifactType::Summary,
                ArtifactType::Analysis,
                ArtifactType::CritiqueRecruitment,
                ArtifactType::CritiqueSales,
                ArtifactType::CritiqueCs,
            ],
    {
        let mut kinds: Vec<ArtifactType> = Vec::new();
        kinds.push(ArtifactType::Summary);
        kinds.push(ArtifactType::Analysis);
        kinds.push(ArtifactType::CritiqueRecruitment);
        kinds.push(ArtifactType::CritiqueSales);
        kinds.push(ArtifactType::CritiqueCs);
        assert(kinds@ =~= seq![
            ArtifactType::Summary,
            ArtifactType::Analysis,
            ArtifactType::CritiqueRecruitment,
            ArtifactType::CritiqueSales,
            ArtifactType::CritiqueCs,
        ]);
        kinds
    }
}

/// The prompt that the text-generation engine gets: the template, then the
/// transcript with its language, then the demand for markdown.
pub open spec fn generation_prompt(
    template: Seq<char>,
    language: Seq<char>,
    transcript: Seq<char>,
) -> Seq<char> {
    template + "\n\nTranscript (language="@ + language + "):\n"@ + transcript
        + "\n\nReturn markdown only."@
}

/// Builds the prompt for the text-generation engine.
pub fn build_generation_prompt(template: &str, language: &str, transcript: &str) -> (prompt: String)
    ensures
        prompt@ == generation_prompt(template@, language@, transcript@),
{
    let mut out = chars_of(template);
    extend_str(&mut out, "\n\nTranscript (language=");
    extend_str(&mut out, language);
    extend_str(&mut out, "):\n");
    extend_str(&mut out, transcript);
    extend_str(&mut out, "\n\nReturn markdown only.");
    to_string(&out)
}

/// What is reported when an artifact is asked for on an entry that has no
/// transcript: by generation, or by an edit.
pub open spec fn no_transcript_text(is_manual_edit: bool) -> Seq<char> {
    if is_manual_edit {
        "No transcript exists for this entry yet"@
    } else {
        "No transcript found. Run transcription first."@
    }
}

/// The words for an artifact that is asked for without a transcript.
pub fn no_transcript_message(is_manual_edit: bool) -> (s: &'static str)
    ensures
        s@ == no_transcript_text(is_manual_edit),
{
    if is_manual_edit {
        "No transcript exists for this entry yet"
    } else {
        "No transcript found. Run transcription first."
    }
}

/// The prompt for a role: the stored template where there is one, else the
/// fallback of the kind that the role names, else a general request.
pub open spec fn prompt_text(stored: Option<Seq<char>>, role: Seq<char>) -> Seq<char> {
    match stored {
        Some(template) => template,
        None => match ArtifactType::named(role) {
            Some(kind) => kind.fallback_prompt_text(),
            None => "Analyze this call."@,
        },
    }
}

/// The prompt for `role`, given the template that is stored for it, if any.
pub fn prompt_for_role(stored: Option<String>, role: &str) -> (prompt: String)
    ensures
        prompt@ == prompt_text(
            match stored {
                Some(t) => Some(t@),
                None => None,
            },
            role@,
        ),
{
    match stored {
        Some(template) => template,
        None => match ArtifactType::parse(role) {
            Some(kind) => kind.fallback_prompt().to_owned(),
            None => "Analyze this call.".to_owned(),
        },
    }
}

/// The key under which the name of the text-generation model is stored.
pub fn model_name_key() -> (s: &'static str)
    ensures
        s@ == "model_name"@,
{
    "model_name"
}

/// The model that is used where none is stored.
pub fn default_model_name() -> (s: &'static str)
    ensures
        s@ == "qwen3:8b"@,
{
    "qwen3:8b"
}

/// The name of the model to use: the stored one, or the default.
pub fn model_name(stored: Option<String>) -> (name: String)
    ensures
        name@ == match stored {
            Some(n) => n@,
            None => "qwen3:8b"@,
        },
{
    match stored {
        Some(n) => n,
        None => default_model_name().to_owned(),
    }
}

/// A name as it is stored: without leading and trailing whitespace.
pub fn stored_name(name: &str) -> (stored: String)
    ensures
        stored@ == trimmed(name@),
{
    to_string(&trim(&chars_of(name)))
}

} // verus!
