//! The markdown document that an entry is exported as.

use vstd::prelude::*;
use crate::decimal::{decimal_digits, push_decimal, push_signed_decimal, signed_decimal};
use crate::text::{chars_of, extend_str, to_string};

verus! {

/// What of an entry goes into its export.
#[derive(Debug)]
pub struct ExportDocument {
    pub title: String,
    pub entry_id: String,
    pub created_at: String,
    pub updated_at: String,
    /// Version of the latest transcript, where there is one.
    pub transcript_version: Option<i64>,
    pub transcript: Option<String>,
    pub summary: Option<String>,
    pub analysis: Option<String>,
    pub critique_recruitment: Option<String>,
    pub critique_sales: Option<String>,
    pub critique_cs: Option<String>,
}

/// The view of a text that may be missing.
pub open spec fn text_of(text: Option<String>) -> Option<Seq<char>> {
    match text {
        Some(t) => Some(t@),
        None => None,
    }
}

/// The text of a section, or a note that there is none.
pub open spec fn body_of(text: Option<Seq<char>>) -> Seq<char> {
    match text {
        Some(t) => t,
        None => "(none)"@,
    }
}

/// The head of the document: title, identifier, times, and the transcript
/// version where there is one.
pub open spec fn export_head(
    title: Seq<char>,
    entry_id: Seq<char>,
    created_at: Seq<char>,
    updated_at: Seq<char>,
    transcript_version: Option<i64>,
) -> Seq<char> {
    "# "@ + title + "\n\n"@ + "- Entry ID: `"@ + entry_id + "`\n"@ + "- Created: "@ + created_at
        + "\n"@ + "- Updated: "@ + updated_at + "\n"@ + match transcript_version {
        Some(v) => "- Transcript Version: "@ + signed_decimal(v as int) + "\n"@,
        None => Seq::empty(),
    } + "\n"@
}

impl ExportDocument {
    /// The document in markdown: the head, then the transcript and each
    /// artifact under a heading of its own.
    pub open spec fn markdown(self) -> Seq<char> {
        export_head(
            self.title@,
            self.entry_id@,
            self.created_at@,
            self.updated_at@,
            self.transcript_version,
        ) + "## Transcript\n\n"@ + body_of(text_of(self.transcript)) + "\n\n"@ + "## Summary\n\n"@
            + body_of(text_of(self.summary)) + "\n\n"@ + "## Analysis\n\n"@ + body_of(
            text_of(self.analysis),
        ) + "\n\n"@ + "## Critique (Recruitment Head)\n\n"@ + body_of(
            text_of(self.critique_recruitment),
        ) + "\n\n"@ + "## Critique (Sales Head)\n\n"@ + body_of(text_of(self.critique_sales))
            + "\n\n"@ + "## Critique (Customer Success Lead)\n\n"@ + body_of(
            text_of(self.critique_cs),
        ) + "\n"@
    }

    /// Writes the document out as markdown.
    pub fn render(&self) -> (markdown: String)
        ensures
            markdown@ == self.markdown(),
    {
        let mut out = chars_of("# ");
        extend_str(&mut out, self.title.as_str());
        extend_str(&mut out, "\n\n");
        extend_str(&mut out, "- Entry ID: `");
        extend_str(&mut out, self.entry_id.as_str());
        extend_str(&mut out, "`\n");
        extend_str(&mut out, "- Created: ");
        extend_str(&mut out, self.created_at.as_str());
        extend_str(&mut out, "\n");
        extend_str(&mut out, "- Updated: ");
        extend_str(&mut out, self.updated_at.as_str());
        extend_str(&mut out, "\n");
        match self.transcript_version {
            Some(v) => {
                extend_str(&mut out, "- Transcript Version: ");
                push_signed_decimal(&mut out, v);
                extend_str(&mut out, "\n");
            },
            None => {
                assert(out@ + Seq::<char>::empty() == out@);
            },
        }
        extend_str(&mut out, "\n");
        assert(out@ == export_head(
            self.title@,
            self.entry_id@,
            self.created_at@,
            self.updated_at@,
            self.transcript_version,
        ));
        extend_str(&mut out, "## Transcript\n\n");
        push_body(&mut out, &self.transcript);
        extend_str(&mut out, "\n\n");
        extend_str(&mut out, "## Summary\n\n");
        push_body(&mut out, &self.summary);
        extend_str(&mut out, "\n\n");
        extend_str(&mut out, "## Analysis\n\n");
        push_body(&mut out, &self.analysis);
        extend_str(&mut out, "\n\n");
        extend_str(&mut out, "## Critique (Recruitment Head)\n\n");
        push_body(&mut out, &self.critique_recruitment);
        extend_str(&mut out, "\n\n");
        extend_str(&mut out, "## Critique (Sales Head)\n\n");
        push_body(&mut out, &self.critique_sales);
        extend_str(&mut out, "\n\n");
        extend_str(&mut out, "## Critique (Customer Success Lead)\n\n");
        push_body(&mut out, &self.critique_cs);
        extend_str(&mut out, "\n");
        to_string(&out)
    }
}

fn push_body(out: &mut Vec<char>, text: &Option<String>)
    ensures
        final(out)@ == old(out)@ + body_of(text_of(*text)),
{
    match text {
        Some(t) => extend_str(out, t.as_str()),
        None => extend_str(out, "(none)"),
    }
}

/// The name of the archive that an export is written to, named after the
/// time of the export.
pub open spec fn export_name(now: u64) -> Seq<char> {
    "export-"@ + decimal_digits(now as nat) + ".zip"@
}

/// Names the archive of an export at the time `now`.
pub fn export_file_name(now: u64) -> (name: String)
    ensures
        name@ == export_name(now),
{
    let mut out = chars_of("export-");
    push_decimal(&mut out, now);
    extend_str(&mut out, ".zip");
    to_string(&out)
}

/// The name of the markdown document inside the archive.
pub fn document_name() -> (s: &'static str)
    ensures
        s@ == "entry.md"@,
{
    "entry.md"
}

/// The name of the audio inside the archive: `original` with the extension
/// of the recording, or `wav` where it has none.
pub open spec fn audio_name(extension: Option<Seq<char>>) -> Seq<char> {
    "audio/original."@ + match extension {
        Some(e) => e,
        None => "wav"@,
    }
}

/// Names the audio inside the archive.
pub fn export_audio_name(extension: Option<&str>) -> (name: String)
    ensures
        name@ == audio_name(
            match extension {
                Some(e) => Some(e@),
                None => None,
            },
        ),
{
    let mut out = chars_of("audio/original.");
    match extension {
        Some(e) => extend_str(&mut out, e),
        None => extend_str(&mut out, "wav"),
    }
    to_string(&out)
}

} // verus!
