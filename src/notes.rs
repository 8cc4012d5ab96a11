use vstd::prelude::*;

verus! {

/// The file name of a stored transcript: `<stamp>_raw.md`.
pub open spec fn note_file_of(stamp: Seq<char>) -> Seq<char> {
    stamp + "_raw.md"@
}

/// A stored transcript: a front-matter block recording when it was made,
/// then the transcript text.
pub open spec fn note_body_of(created: Seq<char>, transcription: Seq<char>) -> Seq<char> {
    "---\ncreated: "@ + created + "\ntype: transcription\ntags:\n  - recording\n  - raw\n---\n"@
        + transcription
}

pub fn note_file_name(stamp: &str) -> (r: String)
    ensures
        r@ == note_file_of(stamp@),
{
    let mut s = String::from_str(stamp);
    s.append("_raw.md");
    s
}

pub fn note_body(created: &str, transcription: &str) -> (r: String)
    ensures
        r@ == note_body_of(created@, transcription@),
{
    let mut s = String::from_str("---\ncreated: ");
    s.append(created);
    s.append("\ntype: transcription\ntags:\n  - recording\n  - raw\n---\n");
    s.append(transcription);
    s
}

} // verus!
