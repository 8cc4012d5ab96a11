use vstd::prelude::*;

verus! {

/// What `str::trim` makes of a string.
pub uninterp spec fn trimmed(s: Seq<char>) -> Seq<char>;

/// Relies on `str::trim`: leading and trailing whitespace removed, the
/// result a function of the characters alone; an empty string stays empty.
#[verifier::external_body]
fn trim_text(s: &str) -> (r: String)
    ensures
        r@ == trimmed(s@),
        s@.len() == 0 ==> r@.len() == 0,
{
    s.trim().to_string()
}

/// One segment as the inference engine reports it. Each lookup may fail:
/// `text` is `None` when the segment's text could not be read, and a
/// timestamp is `None` when it could not be read. Timestamps are in
/// centiseconds.
pub struct EngineSegment {
    pub text: Option<String>,
    pub t0: Option<i64>,
    pub t1: Option<i64>,
}

/// A kept segment: trimmed, non-empty text and its span in centiseconds
/// (seconds are the centiseconds divided by 100).
pub struct TranscriptSegment {
    pub text: String,
    pub start_centis: i64,
    pub end_centis: i64,
}

impl View for TranscriptSegment {
    type V = (Seq<char>, i64, i64);

    open spec fn view(&self) -> (Seq<char>, i64, i64) {
        (self.text@, self.start_centis, self.end_centis)
    }
}

pub open spec fn stamp_or_zero(t: Option<i64>) -> i64 {
    match t {
        Some(v) => v,
        None => 0,
    }
}

/// The segments kept from the engine's report, in engine order: those whose
/// text could be read and is not empty once trimmed.
pub open spec fn kept_segments(raw: Seq<EngineSegment>) -> Seq<(Seq<char>, i64, i64)>
    decreases raw.len(),
{
    if raw.len() == 0 {
        Seq::empty()
    } else {
        let e = raw.last();
        let before = kept_segments(raw.drop_last());
        match e.text {
            Some(t) => if trimmed(t@).len() == 0 {
                before
            } else {
                before.push((trimmed(t@), stamp_or_zero(e.t0), stamp_or_zero(e.t1)))
            },
            None => before,
        }
    }
}

/// Whether entry `j` of the engine's report has readable text that trims
/// to `text`.
pub open spec fn reported_at(raw: Seq<EngineSegment>, j: int, text: Seq<char>) -> bool {
    0 <= j < raw.len() && (raw[j].text matches Some(t) && trimmed(t@) == text)
}

/// Every kept segment has non-empty text, the trimmed text of some entry of
/// the engine's report; there are never more kept segments than entries.
pub proof fn lemma_kept_segments_nonempty(raw: Seq<EngineSegment>)
    ensures
        kept_segments(raw).len() <= raw.len(),
        forall|k: int|
            0 <= k < kept_segments(raw).len() ==> (#[trigger] kept_segments(raw)[k]).0.len() > 0
                && exists|j: int| reported_at(raw, j, kept_segments(raw)[k].0),
    decreases raw.len(),
{
    if raw.len() > 0 {
        let init = raw.drop_last();
        lemma_kept_segments_nonempty(init);
        let before = kept_segments(init);
        assert forall|k: int| 0 <= k < kept_segments(raw).len() implies (#[trigger] kept_segments(
            raw,
        )[k]).0.len() > 0 && exists|j: int| reported_at(raw, j, kept_segments(raw)[k].0) by {
            if k < before.len() {
                assert(kept_segments(raw)[k] == before[k]);
                let j = choose|j: int| reported_at(init, j, before[k].0);
                assert(raw[j] == init[j]);
                assert(reported_at(raw, j, kept_segments(raw)[k].0));
            } else {
                assert(reported_at(raw, raw.len() - 1, kept_segments(raw)[k].0));
            }
        }
    }
}

/// The segment texts joined by a blank line.
pub open spec fn joined(texts: Seq<Seq<char>>) -> Seq<char>
    decreases texts.len(),
{
    if texts.len() == 0 {
        Seq::empty()
    } else if texts.len() == 1 {
        texts[0]
    } else {
        joined(texts.drop_last()) + seq!['\n', '\n'] + texts.last()
    }
}

pub open spec fn texts_of(segs: Seq<TranscriptSegment>) -> Seq<Seq<char>> {
    segs.map_values(|s: TranscriptSegment| s.text@)
}

/// Builds the segment for an already trimmed text; a blank text gives
/// `None`, an unreadable timestamp counts as zero.
pub fn keep_segment(trimmed_text: String, t0: Option<i64>, t1: Option<i64>) -> (r: Option<
    TranscriptSegment,
>)
    ensures
        trimmed_text@.len() == 0 <==> r is None,
        r matches Some(seg) ==> seg@ == (trimmed_text@, stamp_or_zero(t0), stamp_or_zero(t1)),
{
    if trimmed_text.as_str().is_empty() {
        return None;
    }
    let start_centis = match t0 {
        Some(v) => v,
        None => 0,
    };
    let end_centis = match t1 {
        Some(v) => v,
        None => 0,
    };
    Some(TranscriptSegment { text: trimmed_text, start_centis, end_centis })
}

/// Turns the engine's report into transcript segments: texts trimmed,
/// segments with unreadable or blank text dropped, engine order kept, a
/// timestamp that could not be read taken as zero.
pub fn collect_segments(raw: &Vec<EngineSegment>) -> (r: Vec<TranscriptSegment>)
    ensures
        r@.map_values(|s: TranscriptSegment| s@) == kept_segments(raw@),
{
    let mut out: Vec<TranscriptSegment> = Vec::new();
    let mut i: usize = 0;
    while i < raw.len()
        invariant
            i <= raw.len(),
            out@.map_values(|s: TranscriptSegment| s@) == kept_segments(raw@.subrange(0, i as int)),
        decreases raw.len() - i,
    {
        let e = &raw[i];
        let ghost prefix = raw@.subrange(0, i as int);
        let ghost next = raw@.subrange(0, i as int + 1);
        assert(next.drop_last() =~= prefix);
        assert(next.last() == raw@[i as int]);
        let ghost old_out = out@;
        match &e.text {
            Some(t) => {
                let text = trim_text(t.as_str());
                match keep_segment(text, e.t0, e.t1) {
                    Some(seg) => {
                        out.push(seg);
                        assert(out@.map_values(|s: TranscriptSegment| s@) =~= old_out.map_values(
                            |s: TranscriptSegment| s@,
                        ).push((trimmed(t@), stamp_or_zero(e.t0), stamp_or_zero(e.t1))));
                    },
                    None => {},
                }
            },
            None => {},
        }
        i = i + 1;
    }
    assert(raw@.subrange(0, raw.len() as int) =~= raw@);
    out
}

/// Joins the segments' texts with a blank line between each two.
pub fn join_segments(segs: &Vec<TranscriptSegment>) -> (r: String)
    ensures
        r@ == joined(texts_of(segs@)),
{
    let mut out = String::new();
    let mut i: usize = 0;
    while i < segs.len()
        invariant
            i <= segs.len(),
            out@ == joined(texts_of(segs@.subrange(0, i as int))),
        decreases segs.len() - i,
    {
        let ghost prev = texts_of(segs@.subrange(0, i as int));
        let ghost next = texts_of(segs@.subrange(0, i as int + 1));
        assert(next.drop_last() =~= prev);
        assert(next.last() == segs@[i as int].text@);
        if i > 0 {
            out.append("\n\n");
            proof {
                reveal_strlit("\n\n");
            }
            assert("\n\n"@ =~= seq!['\n', '\n']);
        }
        out.append(segs[i].text.as_str());
        i = i + 1;
    }
    assert(segs@.subrange(0, segs.len() as int) =~= segs@);
    out
}

/// The transcript text of an engine report: kept segments joined by a
/// blank line.
pub fn transcript_text(raw: &Vec<EngineSegment>) -> (r: String)
    ensures
        r@ == joined(kept_segments(raw@).map_values(|s: (Seq<char>, i64, i64)| s.0)),
{
    let segs = collect_segments(raw);
    let r = join_segments(&segs);
    assert(texts_of(segs@) =~= kept_segments(raw@).map_values(|s: (Seq<char>, i64, i64)| s.0)) by {
        assert(segs@.map_values(|s: TranscriptSegment| s@) == kept_segments(raw@));
        assert forall|k: int| 0 <= k < segs@.len() implies #[trigger] texts_of(segs@)[k]
            == kept_segments(raw@)[k].0 by {
            assert(segs@.map_values(|s: TranscriptSegment| s@)[k] == segs@[k]@);
        }
    }
    r
}

} // verus!
