//! Labels drawn over the text.

use crate::geometry::{Bias, DisplayPoint, DisplayRow};
use crate::style::{Float32, HighlightStyle, LabelStyles, LABEL_TAIL_FADE_BITS};
use std::ops::Range;
use vstd::prelude::*;

verus! {

/// The bias with which a match becomes an offset into the buffer.
pub const MATCH_BIAS: Bias = Bias::Right;

/// The bias with which the point of a label is displayed.
pub const LABEL_BIAS: Bias = Bias::Left;

/// Where a label leads and how it is drawn.
#[derive(Clone, Copy, Debug, PartialEq, Eq, Structural)]
pub struct OverlayState {
    pub style: HighlightStyle,
    /// An offset into the buffer.
    pub offset: usize,
}

impl OverlayState {
    /// The label at `depth` of the match at `offset`.
    pub fn at_depth(depth: usize, styles: &LabelStyles, offset: usize) -> (overlay: Self)
        ensures
            overlay == (OverlayState { style: styles.spec_at_depth(depth as int), offset }),
            overlay.offset == offset,
            depth <= 1 ==> overlay.style == styles.first,
            depth == 2 ==> overlay.style == styles.second,
            depth >= 3 ==> overlay.style == styles.third,
    {
        OverlayState { style: styles.at_depth(depth), offset }
    }
}

/// A styled stretch of bytes, the mathematical form of a highlight.
pub struct Span {
    pub start: int,
    pub end: int,
    pub style: HighlightStyle,
}

/// The mathematical form of an overlay.
pub struct OverlayView {
    pub text: Seq<char>,
    pub highlights: Seq<Span>,
    pub point: DisplayPoint,
}

/// The highlights as spans.
pub open spec fn spans(highlights: Seq<(Range<usize>, HighlightStyle)>) -> Seq<Span> {
    highlights.map_values(
        |h: (Range<usize>, HighlightStyle)|
            Span { start: h.0.start as int, end: h.0.end as int, style: h.1 },
    )
}

/// Text drawn over the editor's own, at a point.
#[derive(Clone, Debug, PartialEq, Eq)]
pub struct Overlay {
    pub text: String,
    /// Styles of byte ranges of `text`.
    pub highlights: Vec<(Range<usize>, HighlightStyle)>,
    pub point: DisplayPoint,
}

impl View for Overlay {
    type V = OverlayView;

    open spec fn view(&self) -> OverlayView {
        OverlayView {
            text: self.text@,
            highlights: spans(self.highlights@),
            point: self.point,
        }
    }
}

impl DeepView for Overlay {
    type V = OverlayView;

    open spec fn deep_view(&self) -> OverlayView {
        self@
    }
}

impl Default for Overlay {
    fn default() -> (overlay: Self)
        ensures
            overlay.text@ == Seq::<char>::empty(),
            overlay.highlights@ == Seq::<(Range<usize>, HighlightStyle)>::empty(),
            overlay.point == DisplayPoint::spec_zero(),
            overlay.point.row.0 == 0,
            overlay.point.column == 0,
    {
        Overlay { text: String::new(), highlights: Vec::new(), point: DisplayPoint::zero() }
    }
}

/// A text with the styles it is to be drawn in.
#[derive(Clone, Debug, PartialEq, Eq)]
pub struct StyledText {
    pub text: String,
    pub highlights: Vec<(Range<usize>, HighlightStyle)>,
}

impl Overlay {
    /// The point of the overlay and the text to draw there, or `None` where
    /// the overlay's row is not among the visible rows.
    pub fn render(&self, visible_display_row_range: Range<DisplayRow>) -> (rendered: Option<
        (DisplayPoint, StyledText),
    >)
        ensures
            rendered is Some <==> visible_display_row_range.start.0 <= self.point.row.0
                < visible_display_row_range.end.0,
            rendered matches Some((point, styled)) ==> {
                &&& point == self.point
                &&& styled.text@ == self.text@
                &&& styled.highlights@ == self.highlights@
            },
    {
        let row = self.point.row();
        if row.0 < visible_display_row_range.start.0 || visible_display_row_range.end.0 <= row.0 {
            return None;
        }
        let mut highlights: Vec<(Range<usize>, HighlightStyle)> = Vec::new();
        let mut i: usize = 0;
        while i < self.highlights.len()
            invariant
                i <= self.highlights@.len(),
                highlights@ == self.highlights@.take(i as int),
            decreases self.highlights@.len() - i,
        {
            let (range, style) = &self.highlights[i];
            highlights.push((Range { start: range.start, end: range.end }, *style));
            i += 1;
            assert(highlights@ =~= self.highlights@.take(i as int));
        }
        assert(self.highlights@.take(i as int) =~= self.highlights@);
        Some((self.point, StyledText { text: self.text.clone(), highlights }))
    }
}

/// `style`, faded as the later characters of a label are.
pub open spec fn spec_faded(style: HighlightStyle) -> HighlightStyle {
    HighlightStyle { fade_out: Some(Float32 { bits: LABEL_TAIL_FADE_BITS }), ..style }
}

/// The highlights of a label: its first byte in the label's style, and any
/// further bytes faded.
pub open spec fn label_spans(text: Seq<char>, style: HighlightStyle) -> Seq<Span> {
    let len = vstd::utf8::encode_utf8(text).len() as int;
    let head = Span { start: 0, end: 1, style };
    if len > 1 {
        seq![head, Span { start: 1, end: len, style: spec_faded(style) }]
    } else {
        seq![head]
    }
}

/// Whether highlights mark the first byte of a label in `style`, and its
/// further bytes, if there are any, in `style` but faded.
pub open spec fn marks_label(
    highlights: Seq<(Range<usize>, HighlightStyle)>,
    text: Seq<char>,
    style: HighlightStyle,
) -> bool {
    let len = vstd::utf8::encode_utf8(text).len();
    &&& highlights.len() == if len > 1 {
        2int
    } else {
        1int
    }
    &&& highlights[0].0.start == 0 && highlights[0].0.end == 1 && highlights[0].1 == style
    &&& len > 1 ==> {
        &&& highlights[1].0.start == 1
        &&& highlights[1].0.end == len
        &&& highlights[1].1.color == style.color
        &&& highlights[1].1.background_color == style.background_color
        &&& highlights[1].1.fade_out matches Some(fade) && fade.bits == 0x3e99_999a
    }
}

fn label_highlights(text: &String, style: HighlightStyle) -> (highlights: Vec<
    (Range<usize>, HighlightStyle),
>)
    ensures
        spans(highlights@) == label_spans(text@, style),
        marks_label(highlights@, text@, style),
{
    let len: usize = text.as_str().as_bytes().len();
    let mut highlights: Vec<(Range<usize>, HighlightStyle)> = Vec::new();
    highlights.push((Range { start: 0, end: 1 }, style));
    if len > 1 {
        let faded = HighlightStyle {
            fade_out: Some(Float32 { bits: LABEL_TAIL_FADE_BITS }),
            ..style
        };
        highlights.push((Range { start: 1, end: len }, faded));
    }
    assert(spans(highlights@) =~= label_spans(text@, style));
    highlights
}

/// A label together with the place the display has for it.
#[derive(Clone, Debug, PartialEq, Eq)]
pub struct Candidate {
    /// What is left to type to get there.
    pub seq: String,
    pub overlay: OverlayState,
    /// Whether the place lies in folded text.
    pub folded: bool,
    /// The displayed point of the place.
    pub point: DisplayPoint,
}

/// The mathematical form of a candidate.
pub struct CandidateView {
    pub seq: Seq<char>,
    pub overlay: OverlayState,
    pub folded: bool,
    pub point: DisplayPoint,
}

impl View for Candidate {
    type V = CandidateView;

    open spec fn view(&self) -> CandidateView {
        CandidateView {
            seq: self.seq@,
            overlay: self.overlay,
            folded: self.folded,
            point: self.point,
        }
    }
}

impl DeepView for Candidate {
    type V = CandidateView;

    open spec fn deep_view(&self) -> CandidateView {
        self@
    }
}

impl CandidateView {
    /// The overlay of a candidate; a folded one has none.
    pub open spec fn to_overlay(self) -> Option<OverlayView> {
        if self.folded {
            None
        } else {
            Some(
                OverlayView {
                    text: self.seq,
                    highlights: label_spans(self.seq, self.overlay.style),
                    point: self.point,
                },
            )
        }
    }
}

/// The overlays of the candidates that are not folded, in order.
pub open spec fn spec_overlays(candidates: Seq<CandidateView>) -> Seq<OverlayView> {
    candidates.filter_map(|c: CandidateView| c.to_overlay())
}

/// Whether the overlays are, in order, the labels of the candidates that are
/// not folded, each over its own match.
pub open spec fn drawn_over(overlays: Seq<Overlay>, candidates: Seq<Candidate>) -> bool {
    let shown = candidates.filter(|c: Candidate| !c.folded);
    &&& overlays.len() == shown.len()
    &&& forall|k: int|
        #![trigger overlays[k]]
        0 <= k < overlays.len() ==> {
            &&& overlays[k].text@ == shown[k].seq@
            &&& overlays[k].point == shown[k].point
            &&& marks_label(overlays[k].highlights@, shown[k].seq@, shown[k].overlay.style)
        }
}

/// One more candidate adds its overlay at the end, if it has one.
proof fn lemma_overlays_push(candidates: Seq<CandidateView>, c: CandidateView)
    ensures
        spec_overlays(candidates.push(c)) == match c.to_overlay() {
            Some(overlay) => spec_overlays(candidates).push(overlay),
            None => spec_overlays(candidates),
        },
{
    let f = |c: CandidateView| c.to_overlay();
    reveal(Seq::filter_map);
    assert(candidates.push(c).drop_last() =~= candidates);
    if let Some(overlay) = c.to_overlay() {
        assert(candidates.filter_map(f) + seq![overlay] =~= candidates.filter_map(f).push(overlay));
    }
}

/// One more candidate that is not folded needs one more label.
proof fn lemma_drawn_push(
    drawn: Seq<Overlay>,
    candidates: Seq<Candidate>,
    result: Seq<Overlay>,
    c: Candidate,
)
    requires
        drawn_over(drawn, candidates),
        c.folded ==> result == drawn,
        !c.folded ==> {
            &&& result.len() == drawn.len() + 1
            &&& result.drop_last() =~= drawn
            &&& result.last().text@ == c.seq@
            &&& result.last().point == c.point
            &&& marks_label(result.last().highlights@, c.seq@, c.overlay.style)
        },
    ensures
        drawn_over(result, candidates.push(c)),
{
    reveal(Seq::filter);
    let unfolded = |c: Candidate| !c.folded;
    assert(candidates.push(c).drop_last() =~= candidates);
    if !c.folded {
        assert(candidates.push(c).filter(unfolded) =~= candidates.filter(unfolded).push(c));
        assert forall|k: int| #![trigger result[k]] 0 <= k < result.len() implies ({
            let shown = candidates.push(c).filter(unfolded);
            &&& result[k].text@ == shown[k].seq@
            &&& result[k].point == shown[k].point
            &&& marks_label(result[k].highlights@, shown[k].seq@, shown[k].overlay.style)
        }) by {
            if k < drawn.len() {
                assert(result.drop_last()[k] == drawn[k]);
            }
        }
    }
}

/// The overlays of the candidates that are not folded, in order.
pub fn overlays(candidates: &Vec<Candidate>) -> (result: Vec<Overlay>)
    ensures
        result.deep_view() == spec_overlays(candidates.deep_view()),
        drawn_over(result@, candidates@),
        result@.len() == candidates@.filter(|c: Candidate| !c.folded).len(),
        forall|k: int|
            #![trigger result@[k]]
            0 <= k < result@.len() ==> {
                let c = candidates@.filter(|c: Candidate| !c.folded)[k];
                &&& result@[k].text@ == c.seq@
                &&& result@[k].point == c.point
                &&& result@[k].highlights@[0].1 == c.overlay.style
            },
{
    let mut result: Vec<Overlay> = Vec::new();
    let mut i: usize = 0;
    assert(candidates.deep_view().take(0) =~= Seq::empty());
    assert(result.deep_view() =~= spec_overlays(candidates.deep_view().take(0)));
    assert(candidates@.take(0) =~= Seq::empty());
    assert(drawn_over(result@, candidates@.take(0))) by {
        reveal(Seq::filter);
    }
    while i < candidates.len()
        invariant
            i <= candidates@.len(),
            result.deep_view() == spec_overlays(candidates.deep_view().take(i as int)),
            drawn_over(result@, candidates@.take(i as int)),
        decreases candidates@.len() - i,
    {
        let candidate = &candidates[i];
        let ghost before = result.deep_view();
        let ghost drawn = result@;
        if !candidate.folded {
            let overlay = Overlay {
                text: candidate.seq.clone(),
                highlights: label_highlights(&candidate.seq, candidate.overlay.style),
                point: candidate.point,
            };
            result.push(overlay);
            assert(result.deep_view() =~= before.push(overlay@));
        }
        proof {
            let seen = candidates.deep_view().take(i as int);
            lemma_overlays_push(seen, candidate@);
            assert(candidates.deep_view().take(i + 1) =~= seen.push(candidate@));
            lemma_drawn_push(drawn, candidates@.take(i as int), result@, *candidate);
            assert(candidates@.take(i + 1) =~= candidates@.take(i as int).push(*candidate));
        }
        i += 1;
    }
    assert(candidates.deep_view().take(i as int) =~= candidates.deep_view());
    assert(candidates@.take(i as int) =~= candidates@);
    result
}

/// A candidate has an overlay exactly if it is not folded. The overlay reads
/// what is left to type, lies at the displayed point of the match, starts in
/// the label's style, and from its second byte on has the label's colours
/// faded.
pub proof fn label_lies_over_its_match(c: CandidateView)
    ensures
        c.to_overlay() is Some <==> !c.folded,
        c.to_overlay() matches Some(o) ==> {
            &&& o.text == c.seq
            &&& o.point.row == c.point.row
            &&& o.point.column == c.point.column
            &&& o.highlights.len() >= 1
            &&& o.highlights[0].start == 0
            &&& o.highlights[0].end == 1
            &&& o.highlights[0].style == c.overlay.style
            &&& o.highlights.len() == 1 <==> vstd::utf8::encode_utf8(c.seq).len() <= 1
            &&& o.highlights.len() > 1 ==> {
                &&& o.highlights.len() == 2
                &&& o.highlights[1].start == 1
                &&& o.highlights[1].end == vstd::utf8::encode_utf8(c.seq).len()
                &&& o.highlights[1].style.color == c.overlay.style.color
                &&& o.highlights[1].style.background_color == c.overlay.style.background_color
                &&& o.highlights[1].style.fade_out == Some(Float32 { bits: 0x3e99_999a })
            }
        },
{
}

/// Two labels lie at one point, or read the same, only where their matches or
/// keys are the same.
pub proof fn distinct_matches_have_distinct_labels(a: CandidateView, b: CandidateView)
    requires
        !a.folded,
        !b.folded,
    ensures
        a.to_overlay()->0.point == b.to_overlay()->0.point <==> a.point == b.point,
        a.to_overlay()->0.text == b.to_overlay()->0.text <==> a.seq == b.seq,
        a.to_overlay()->0.highlights[0].style == b.to_overlay()->0.highlights[0].style
            <==> a.overlay.style == b.overlay.style,
{
}

/// Labels drawn over candidates: the label at each place is that of the
/// candidate at the same place among those not folded, with its keys, at its
/// point and in its style, and each candidate that is not folded has one.
pub proof fn drawn_labels_lie_over_their_matches(
    overlays: Seq<Overlay>,
    candidates: Seq<Candidate>,
)
    requires
        drawn_over(overlays, candidates),
    ensures
        overlays.len() == candidates.filter(|c: Candidate| !c.folded).len(),
        forall|k: int|
            #![trigger overlays[k]]
            0 <= k < overlays.len() ==> {
                let c = candidates.filter(|c: Candidate| !c.folded)[k];
                let len = vstd::utf8::encode_utf8(c.seq@).len();
                &&& overlays[k].text@ == c.seq@
                &&& overlays[k].point == c.point
                &&& overlays[k].highlights@[0].0.start == 0
                &&& overlays[k].highlights@[0].0.end == 1
                &&& overlays[k].highlights@[0].1 == c.overlay.style
                &&& overlays[k].highlights@.len() == if len > 1 {
                    2int
                } else {
                    1int
                }
                &&& len > 1 ==> {
                    &&& overlays[k].highlights@[1].0.start == 1
                    &&& overlays[k].highlights@[1].0.end == len
                    &&& overlays[k].highlights@[1].1.color == c.overlay.style.color
                    &&& overlays[k].highlights@[1].1.background_color
                        == c.overlay.style.background_color
                    &&& overlays[k].highlights@[1].1.fade_out == Some(
                        Float32 { bits: 0x3e99_999a },
                    )
                }
            },
{
}

/// Drawing candidates together is drawing them apart, one after the other.
pub proof fn overlays_of_parts(a: Seq<CandidateView>, b: Seq<CandidateView>)
    ensures
        spec_overlays(a + b) == spec_overlays(a) + spec_overlays(b),
    decreases b.len(),
{
    if b.len() == 0 {
        assert(a + b =~= a);
        lemma_overlays_count(b);
        reveal(Seq::filter);
        assert(spec_overlays(a) + spec_overlays(b) =~= spec_overlays(a));
    } else {
        overlays_of_parts(a, b.drop_last());
        lemma_overlays_push(a + b.drop_last(), b.last());
        lemma_overlays_push(b.drop_last(), b.last());
        assert((a + b.drop_last()).push(b.last()) =~= a + b);
        assert(b.drop_last().push(b.last()) =~= b);
        assert(spec_overlays(a + b) =~= spec_overlays(a) + spec_overlays(b));
    }
}

/// The highlights of a label lie end to end from its first byte to its last.
pub proof fn label_highlights_cover_label(text: Seq<char>, style: HighlightStyle)
    requires
        text.len() > 0,
    ensures
        ({
            let highlights = label_spans(text, style);
            &&& highlights.len() > 0
            &&& highlights[0].start == 0
            &&& highlights.last().end == vstd::utf8::encode_utf8(text).len()
            &&& forall|i: int|
                0 <= i < highlights.len() ==> (#[trigger] highlights[i]).start < highlights[i].end
            &&& forall|i: int, j: int|
                #![trigger highlights[i], highlights[j]]
                0 <= i && j == i + 1 && j < highlights.len() ==> highlights[i].end
                    == highlights[j].start
        }),
{
    reveal_with_fuel(vstd::utf8::encode_utf8, 2);
}

/// Whether one of the candidates is not folded and has this overlay.
pub open spec fn is_overlay_of_one(overlay: OverlayView, candidates: Seq<CandidateView>) -> bool {
    exists|i: int|
        0 <= i < candidates.len() && !(#[trigger] candidates[i]).folded
            && candidates[i].to_overlay() == Some(overlay)
}

/// A candidate that is not folded is drawn.
proof fn lemma_unfolded_is_drawn(candidates: Seq<CandidateView>, i: int)
    requires
        0 <= i < candidates.len(),
        !candidates[i].folded,
    ensures
        spec_overlays(candidates).contains(candidates[i].to_overlay()->0),
    decreases candidates.len(),
{
    let rest = candidates.drop_last();
    let last = candidates.last();
    let overlay = candidates[i].to_overlay()->0;
    let shown = spec_overlays(candidates);
    lemma_overlays_push(rest, last);
    assert(rest.push(last) =~= candidates);
    if i < rest.len() {
        lemma_unfolded_is_drawn(rest, i);
        let k = choose|k: int|
            0 <= k < spec_overlays(rest).len() && spec_overlays(rest)[k] == overlay;
        assert(shown[k] == overlay);
    } else {
        assert(shown[shown.len() - 1] == overlay);
    }
}

/// What is drawn is the overlay of a candidate that is not folded.
proof fn lemma_drawn_is_unfolded(candidates: Seq<CandidateView>, k: int) -> (i: int)
    requires
        0 <= k < spec_overlays(candidates).len(),
    ensures
        0 <= i < candidates.len(),
        !candidates[i].folded,
        candidates[i].to_overlay() == Some(spec_overlays(candidates)[k]),
    decreases candidates.len(),
{
    if candidates.len() == 0 {
        lemma_overlays_count(candidates);
        0
    } else {
        let rest = candidates.drop_last();
        lemma_overlays_push(rest, candidates.last());
        assert(rest.push(candidates.last()) =~= candidates);
        if k < spec_overlays(rest).len() {
            lemma_drawn_is_unfolded(rest, k)
        } else {
            candidates.len() - 1
        }
    }
}

/// As many overlays are drawn as candidates are not folded.
proof fn lemma_overlays_count(candidates: Seq<CandidateView>)
    ensures
        spec_overlays(candidates).len() == candidates.filter(|c: CandidateView| !c.folded).len(),
    decreases candidates.len(),
{
    reveal(Seq::filter);
    reveal(Seq::filter_map);
    if candidates.len() > 0 {
        let rest = candidates.drop_last();
        lemma_overlays_count(rest);
        lemma_overlays_push(rest, candidates.last());
        assert(rest.push(candidates.last()) =~= candidates);
    }
}

/// The labels drawn are those of the candidates that are not folded: each of
/// these is drawn, nothing else is, and there are as many.
#[verifier::spinoff_prover]
pub proof fn overlays_are_unfolded_candidates(candidates: Seq<CandidateView>)
    ensures
        forall|i: int|
            #![trigger candidates[i]]
            0 <= i < candidates.len() && !candidates[i].folded ==> spec_overlays(
                candidates,
            ).contains(candidates[i].to_overlay()->0),
        forall|k: int|
            0 <= k < spec_overlays(candidates).len() ==> is_overlay_of_one(
                #[trigger] spec_overlays(candidates)[k],
                candidates,
            ),
        spec_overlays(candidates).len() == candidates.filter(|c: CandidateView| !c.folded).len(),
{
    assert forall|i: int|
        #![trigger candidates[i]]
        0 <= i < candidates.len() && !candidates[i].folded implies spec_overlays(
        candidates,
    ).contains(candidates[i].to_overlay()->0) by {
        lemma_unfolded_is_drawn(candidates, i);
    }
    assert forall|k: int| 0 <= k < spec_overlays(candidates).len() implies is_overlay_of_one(
        #[trigger] spec_overlays(candidates)[k],
        candidates,
    ) by {
        let i = lemma_drawn_is_unfolded(candidates, k);
        assert(!candidates[i].folded);
    }
    lemma_overlays_count(candidates);
}

/// Where nothing is folded, every candidate is drawn, in order.
pub proof fn unfolded_candidates_are_all_drawn(candidates: Seq<CandidateView>)
    requires
        forall|i: int| 0 <= i < candidates.len() ==> !(#[trigger] candidates[i]).folded,
    ensures
        spec_overlays(candidates) == candidates.map_values(
            |c: CandidateView| c.to_overlay()->0,
        ),
    decreases candidates.len(),
{
    if candidates.len() > 0 {
        let rest = candidates.drop_last();
        assert forall|i: int| 0 <= i < rest.len() implies !(#[trigger] rest[i]).folded by {
            assert(rest[i] == candidates[i]);
        }
        unfolded_candidates_are_all_drawn(rest);
        lemma_overlays_push(rest, candidates.last());
        assert(rest.push(candidates.last()) =~= candidates);
    }
    assert(spec_overlays(candidates) =~= candidates.map_values(
        |c: CandidateView| c.to_overlay()->0,
    ));
}

} // verus!
