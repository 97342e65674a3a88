use vstd::prelude::*;
use vstd::string::*;
use crate::timestamp::{TimestampStyle, timestamp_text, decimal, push_timestamp, push_decimal};

verus! {

/// One recognised span of speech, with its times in milliseconds.
#[derive(Clone, Debug)]
pub struct Segment {
    pub start_ms: u64,
    pub end_ms: u64,
    pub text: String,
}

/// The segments of a recognition run, in order, with the time it took.
///
/// When word-level timing was asked for, `word_segments` holds one segment
/// per word, and those are what the renderings show.
#[derive(Clone, Debug)]
pub struct Transcript {
    pub segments: Vec<Segment>,
    pub word_segments: Option<Vec<Segment>>,
    pub processing_ms: u64,
}

/// Times that never run backwards: each segment starts no later than it
/// ends, and no earlier than the one before it ends.
pub open spec fn well_ordered(segs: Seq<Segment>) -> bool {
    &&& forall|i: int| 0 <= i < segs.len() ==> segs[i].start_ms <= segs[i].end_ms
    &&& forall|i: int| 0 < i < segs.len() ==> segs[i - 1].end_ms <= segs[i].start_ms
}

/// The segments that a rendering shows: the word-level ones when present.
pub open spec fn cues(t: Transcript) -> Seq<Segment> {
    match t.word_segments {
        Some(w) => w@,
        None => t.segments@,
    }
}

/// The blocks one after another.
pub open spec fn concat(blocks: Seq<Seq<char>>) -> Seq<char>
    decreases blocks.len(),
{
    if blocks.len() == 0 {
        Seq::empty()
    } else {
        concat(blocks.drop_last()) + blocks.last()
    }
}

pub open spec fn text_line(seg: Segment) -> Seq<char> {
    seg.text@ + seq!['\n']
}

pub open spec fn time_range(seg: Segment, style: TimestampStyle) -> Seq<char> {
    timestamp_text(seg.start_ms as nat, style) + " --> "@ + timestamp_text(seg.end_ms as nat, style)
}

/// `start --> end`, the text, and a blank line.
pub open spec fn vtt_cue(seg: Segment) -> Seq<char> {
    time_range(seg, TimestampStyle::Vtt) + seq!['\n'] + seg.text@ + seq!['\n', '\n']
}

/// The index, `start --> end`, the text, and a blank line.
pub open spec fn srt_block(index: nat, seg: Segment) -> Seq<char> {
    decimal(index) + seq!['\n'] + time_range(seg, TimestampStyle::Srt) + seq!['\n'] + seg.text@
        + seq!['\n', '\n']
}

pub open spec fn text_blocks(segs: Seq<Segment>) -> Seq<Seq<char>> {
    Seq::new(segs.len(), |i: int| text_line(segs[i]))
}

pub open spec fn vtt_blocks(segs: Seq<Segment>) -> Seq<Seq<char>> {
    Seq::new(segs.len(), |i: int| vtt_cue(segs[i]))
}

/// SubRip blocks are numbered from 1.
pub open spec fn srt_blocks(segs: Seq<Segment>) -> Seq<Seq<char>> {
    Seq::new(segs.len(), |i: int| srt_block((i + 1) as nat, segs[i]))
}

pub open spec fn vtt_header() -> Seq<char> {
    "WEBVTT\n\n"@
}

pub open spec fn render_text(segs: Seq<Segment>) -> Seq<char> {
    concat(text_blocks(segs))
}

pub open spec fn render_vtt(segs: Seq<Segment>) -> Seq<char> {
    vtt_header() + concat(vtt_blocks(segs))
}

pub open spec fn render_srt(segs: Seq<Segment>) -> Seq<char> {
    concat(srt_blocks(segs))
}

proof fn lemma_concat_step(blocks: Seq<Seq<char>>, i: int)
    requires
        0 <= i < blocks.len(),
    ensures
        concat(blocks.take(i + 1)) == concat(blocks.take(i)) + blocks[i],
{
    assert(blocks.take(i + 1).drop_last() =~= blocks.take(i));
}

/// Each rendering is made of exactly one block per shown segment (one per
/// word under word-level timing), block `i` rendering segment `i`: a line of
/// text, a cue after the WebVTT header, or a SubRip block numbered `i + 1`.
pub proof fn lemma_one_block_per_segment(t: Transcript)
    ensures
        text_blocks(cues(t)).len() == cues(t).len(),
        vtt_blocks(cues(t)).len() == cues(t).len(),
        srt_blocks(cues(t)).len() == cues(t).len(),
        render_text(cues(t)) == concat(text_blocks(cues(t))),
        render_vtt(cues(t)) == vtt_header() + concat(vtt_blocks(cues(t))),
        render_srt(cues(t)) == concat(srt_blocks(cues(t))),
        forall|i: int|
            0 <= i < cues(t).len() ==> {
                &&& #[trigger] text_blocks(cues(t))[i] == text_line(cues(t)[i])
                &&& vtt_blocks(cues(t))[i] == vtt_cue(cues(t)[i])
                &&& srt_blocks(cues(t))[i] == srt_block((i + 1) as nat, cues(t)[i])
            },
{
}

/// Rendering depends on the shown segments alone: rendering the same
/// segments twice gives the same three strings.
pub proof fn lemma_render_deterministic(a: Transcript, b: Transcript)
    requires
        cues(a) == cues(b),
    ensures
        render_text(cues(a)) == render_text(cues(b)),
        render_vtt(cues(a)) == render_vtt(cues(b)),
        render_srt(cues(a)) == render_srt(cues(b)),
{
}

fn push_time_range(s: &mut String, seg: &Segment, style: TimestampStyle)
    ensures
        final(s)@ == old(s)@ + time_range(*seg, style),
{
    push_timestamp(s, seg.start_ms, style);
    s.append(" --> ");
    push_timestamp(s, seg.end_ms, style);
    assert(s@ =~= old(s)@ + time_range(*seg, style));
}

/// Checks that the times of `segs` never run backwards.
pub fn is_well_ordered(segs: &Vec<Segment>) -> (r: bool)
    ensures
        r == well_ordered(segs@),
{
    let mut i: usize = 0;
    while i < segs.len()
        invariant
            0 <= i <= segs@.len(),
            forall|j: int| 0 <= j < i ==> segs@[j].start_ms <= segs@[j].end_ms,
            forall|j: int| 0 < j < i ==> segs@[j - 1].end_ms <= segs@[j].start_ms,
        decreases segs@.len() - i,
    {
        if segs[i].start_ms > segs[i].end_ms {
            return false;
        }
        if i > 0 && segs[i - 1].end_ms > segs[i].start_ms {
            return false;
        }
        i = i + 1;
    }
    true
}

impl Segment {
    /// A segment from times in centiseconds, the unit the recognition engine
    /// reports; `None` when a time is negative or too large for milliseconds
    /// in a `u64`.
    pub fn from_centiseconds(start: i64, end: i64, text: String) -> (r: Option<Segment>)
        ensures
            (0 <= start && 0 <= end && start * 10 <= u64::MAX && end * 10 <= u64::MAX) <==> r is Some,
            r matches Some(seg) ==> seg.start_ms == start * 10 && seg.end_ms == end * 10 && seg.text
                == text,
    {
        if start < 0 || end < 0 {
            return None;
        }
        let start = start as u64;
        let end = end as u64;
        if start > u64::MAX / 10 || end > u64::MAX / 10 {
            return None;
        }
        Some(Segment { start_ms: start * 10, end_ms: end * 10, text })
    }
}

impl Transcript {
    /// The segments that the renderings show.
    pub fn cues(&self) -> (r: &Vec<Segment>)
        ensures
            r@ == cues(*self),
    {
        match &self.word_segments {
            Some(w) => w,
            None => &self.segments,
        }
    }

    /// Each segment's text followed by a line break.
    pub fn as_text(&self) -> (r: String)
        ensures
            r@ == render_text(cues(*self)),
    {
        let segs = self.cues();
        let ghost blocks = text_blocks(segs@);
        let mut out = String::new();
        let mut i: usize = 0;
        assert(blocks.take(0) =~= Seq::<Seq<char>>::empty());
        while i < segs.len()
            invariant
                0 <= i <= segs@.len(),
                blocks == text_blocks(segs@),
                out@ == concat(blocks.take(i as int)),
            decreases segs@.len() - i,
        {
            let ghost before = out@;
            out.append(segs[i].text.as_str());
            out.append("\n");
            proof {
                reveal_strlit("\n");
                lemma_concat_step(blocks, i as int);
                assert(out@ =~= before + text_line(segs@[i as int]));
            }
            i = i + 1;
        }
        assert(blocks.take(segs@.len() as int) =~= blocks);
        out
    }

    /// A WebVTT document: the header, then one cue per segment.
    pub fn as_vtt(&self) -> (r: String)
        ensures
            r@ == render_vtt(cues(*self)),
    {
        let segs = self.cues();
        let ghost blocks = vtt_blocks(segs@);
        let mut out = String::new();
        out.append("WEBVTT\n\n");
        let mut i: usize = 0;
        assert(blocks.take(0) =~= Seq::<Seq<char>>::empty());
        assert(out@ =~= vtt_header() + concat(blocks.take(0)));
        while i < segs.len()
            invariant
                0 <= i <= segs@.len(),
                blocks == vtt_blocks(segs@),
                out@ == vtt_header() + concat(blocks.take(i as int)),
            decreases segs@.len() - i,
        {
            let ghost before = out@;
            push_time_range(&mut out, &segs[i], TimestampStyle::Vtt);
            out.append("\n");
            out.append(segs[i].text.as_str());
            out.append("\n\n");
            proof {
                reveal_strlit("\n");
                reveal_strlit("\n\n");
                lemma_concat_step(blocks, i as int);
                assert(out@ =~= before + vtt_cue(segs@[i as int]));
            }
            i = i + 1;
        }
        assert(blocks.take(segs@.len() as int) =~= blocks);
        out
    }

    /// A SubRip document: one numbered block per segment, from 1.
    pub fn as_srt(&self) -> (r: String)
        ensures
            r@ == render_srt(cues(*self)),
    {
        let segs = self.cues();
        let ghost blocks = srt_blocks(segs@);
        let mut out = String::new();
        let mut i: usize = 0;
        assert(blocks.take(0) =~= Seq::<Seq<char>>::empty());
        while i < segs.len()
            invariant
                0 <= i <= segs@.len(),
                blocks == srt_blocks(segs@),
                out@ == concat(blocks.take(i as int)),
            decreases segs@.len() - i,
        {
            let ghost before = out@;
            push_decimal(&mut out, (i + 1) as u64);
            out.append("\n");
            push_time_range(&mut out, &segs[i], TimestampStyle::Srt);
            out.append("\n");
            out.append(segs[i].text.as_str());
            out.append("\n\n");
            proof {
                reveal_strlit("\n");
                reveal_strlit("\n\n");
                lemma_concat_step(blocks, i as int);
                assert(out@ =~= before + srt_block((i + 1) as nat, segs@[i as int]));
            }
            i = i + 1;
        }
        assert(blocks.take(segs@.len() as int) =~= blocks);
        out
    }
}

} // verus!
