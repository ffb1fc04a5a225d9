use easy_motion::action::Direction;
use easy_motion::geometry::{labelled_range, Bias, DisplayPoint, DisplayRow, Selection};
use easy_motion::overlay::{
    overlays, Candidate, Overlay, OverlayState, StyledText, LABEL_BIAS, MATCH_BIAS,
};
use easy_motion::style::{
    get_highlights, saturate, Float32, HighlightStyle, Hsla, LabelStyles, Theme,
    LABEL_TAIL_FADE_BITS, ONE_BITS, TEXT_FADE_BITS,
};

fn number(value: f32) -> Float32 {
    Float32 { bits: value.to_bits() }
}

fn hsla(h: f32, s: f32, l: f32, a: f32) -> Hsla {
    Hsla { h: number(h), s: number(s), l: number(l), a: number(a) }
}

fn point(row: u32, column: u32) -> DisplayPoint {
    DisplayPoint::new(DisplayRow(row), column)
}

fn style(hue: f32) -> HighlightStyle {
    HighlightStyle {
        color: Some(hsla(hue, 1.0, 0.5, 1.0)),
        background_color: Some(hsla(0.0, 0.0, 0.1, 1.0)),
        fade_out: None,
    }
}

fn candidate(seq: &str, folded: bool, at: DisplayPoint) -> Candidate {
    Candidate {
        seq: seq.to_string(),
        overlay: OverlayState { style: style(0.25), offset: 7 },
        folded,
        point: at,
    }
}

#[test]
fn bit_patterns_are_those_of_the_numbers() {
    assert_eq!(f32::from_bits(ONE_BITS), 1.0);
    assert_eq!(f32::from_bits(LABEL_TAIL_FADE_BITS), 0.3);
    assert_eq!(f32::from_bits(TEXT_FADE_BITS), 0.7);
}

#[test]
fn saturate_substitutes_saturation() {
    let color = hsla(0.1, 0.2, 0.3, 0.4);
    assert_eq!(saturate(color, number(1.0)), hsla(0.1, 1.0, 0.3, 0.4));
    assert_eq!(saturate(saturate(color, number(0.9)), number(1.0)), hsla(0.1, 1.0, 0.3, 0.4));
    assert_eq!(saturate(saturate(color, number(0.9)), color.s), color);
}

#[test]
fn highlights_come_from_three_players() {
    let background = hsla(0.6, 0.0, 0.2, 1.0);
    let theme = Theme {
        player_cursors: vec![
            hsla(0.0, 0.5, 0.5, 1.0),
            hsla(0.1, 0.5, 0.5, 1.0),
            hsla(0.2, 0.5, 0.5, 0.9),
            hsla(0.3, 0.5, 0.4, 1.0),
            hsla(0.4, 0.5, 0.5, 1.0),
        ],
        background,
    };
    let styles = get_highlights(&theme);
    let expected = |color: Hsla| HighlightStyle {
        color: Some(color),
        background_color: Some(background),
        fade_out: None,
    };
    assert_eq!(
        styles,
        LabelStyles {
            first: expected(hsla(0.0, 1.0, 0.5, 1.0)),
            second: expected(hsla(0.2, 1.0, 0.5, 0.9)),
            third: expected(hsla(0.3, 1.0, 0.4, 1.0)),
        }
    );
}

#[test]
fn style_depends_on_depth() {
    let styles = LabelStyles { first: style(0.1), second: style(0.2), third: style(0.3) };
    assert_eq!(styles.at_depth(0), style(0.1));
    assert_eq!(styles.at_depth(1), style(0.1));
    assert_eq!(styles.at_depth(2), style(0.2));
    assert_eq!(styles.at_depth(3), style(0.3));
    assert_eq!(styles.at_depth(usize::MAX), style(0.3));
    assert_eq!(
        OverlayState::at_depth(2, &styles, 41),
        OverlayState { style: style(0.2), offset: 41 }
    );
}

#[test]
fn label_highlights_fade_after_the_first_byte() {
    let drawn = overlays(&vec![candidate("abc", false, point(2, 3))]);
    let faded = HighlightStyle { fade_out: Some(number(0.3)), ..style(0.25) };
    assert_eq!(
        drawn,
        vec![Overlay {
            text: "abc".to_string(),
            highlights: vec![(0..1, style(0.25)), (1..3, faded)],
            point: point(2, 3),
        }]
    );
}

#[test]
fn short_labels_have_one_highlight() {
    let drawn = overlays(&vec![
        candidate("a", false, point(0, 0)),
        candidate("", false, point(0, 1)),
    ]);
    assert_eq!(drawn[0].highlights, vec![(0..1, style(0.25))]);
    assert_eq!(drawn[1].highlights, vec![(0..1, style(0.25))]);
}

#[test]
fn label_length_counts_bytes() {
    let drawn = overlays(&vec![candidate("é", false, point(0, 0))]);
    let faded = HighlightStyle { fade_out: Some(number(0.3)), ..style(0.25) };
    assert_eq!(drawn[0].highlights, vec![(0..1, style(0.25)), (1..2, faded)]);
}

#[test]
fn folded_candidates_are_skipped_in_order() {
    let drawn = overlays(&vec![
        candidate("a", false, point(0, 0)),
        candidate("b", true, point(1, 0)),
        candidate("c", false, point(5, 4)),
        candidate("d", true, point(6, 0)),
    ]);
    let texts: Vec<&str> = drawn.iter().map(|overlay| overlay.text.as_str()).collect();
    assert_eq!(texts, vec!["a", "c"]);
    assert_eq!(drawn[1].point, point(5, 4));
    assert!(overlays(&vec![]).is_empty());
}

#[test]
fn overlay_renders_only_in_visible_rows() {
    let overlay = Overlay {
        text: "ab".to_string(),
        highlights: vec![(0..1, style(0.1)), (1..2, style(0.2))],
        point: point(4, 9),
    };
    let expected = Some((
        point(4, 9),
        StyledText {
            text: "ab".to_string(),
            highlights: vec![(0..1, style(0.1)), (1..2, style(0.2))],
        },
    ));
    assert_eq!(overlay.render(DisplayRow(4)..DisplayRow(5)), expected);
    assert_eq!(overlay.render(DisplayRow(0)..DisplayRow(100)), expected);
    assert_eq!(overlay.render(DisplayRow(5)..DisplayRow(9)), None);
    assert_eq!(overlay.render(DisplayRow(0)..DisplayRow(4)), None);
    assert_eq!(overlay.render(DisplayRow(4)..DisplayRow(4)), None);
}

#[test]
fn default_overlay_is_empty() {
    let overlay = Overlay::default();
    assert_eq!(overlay.text, "");
    assert!(overlay.highlights.is_empty());
    assert_eq!(overlay.point, DisplayPoint::zero());
    assert_eq!(DisplayPoint::default(), point(0, 0));
    assert_eq!(
        HighlightStyle::default(),
        HighlightStyle { color: None, background_color: None, fade_out: None }
    );
}

#[test]
fn direction_chooses_the_labelled_range() {
    let selection = Selection { start: point(3, 1), end: point(4, 2) };
    let max = point(9, 9);
    assert_eq!(labelled_range(Direction::Both, selection, max), (point(0, 0), max));
    assert_eq!(labelled_range(Direction::Forwards, selection, max), (point(3, 1), max));
    assert_eq!(labelled_range(Direction::Backwards, selection, max), (point(0, 0), point(4, 2)));
    assert_eq!(Direction::default(), Direction::Both);
}

#[test]
fn biases() {
    assert_eq!(MATCH_BIAS, Bias::Right);
    assert_eq!(LABEL_BIAS, Bias::Left);
    assert_eq!(point(7, 1).row(), DisplayRow(7));
}
