//! Colours and highlight styles of the labels.
//!
//! Colour components and fade factors are single precision numbers that the
//! library only stores and copies, so they are kept as their bit patterns.

use vstd::prelude::*;

verus! {

/// A single precision number, as its IEEE 754 bit pattern.
#[derive(Clone, Copy, Debug, PartialEq, Eq, Structural)]
pub struct Float32 {
    pub bits: u32,
}

/// The bit pattern of the number one.
pub const ONE_BITS: u32 = 0x3f80_0000;

/// The bit pattern of the fade of a label's later characters, three tenths.
pub const LABEL_TAIL_FADE_BITS: u32 = 0x3e99_999a;

/// The bit pattern of the fade of the text under the labels, seven tenths.
pub const TEXT_FADE_BITS: u32 = 0x3f33_3333;

/// A colour by hue, saturation, lightness and opacity.
#[derive(Clone, Copy, Debug, PartialEq, Eq, Structural)]
pub struct Hsla {
    pub h: Float32,
    pub s: Float32,
    pub l: Float32,
    pub a: Float32,
}

/// `color` with saturation `s`.
pub open spec fn spec_saturate(color: Hsla, s: Float32) -> Hsla {
    Hsla { s, ..color }
}

/// Substitutes the saturation with the given value.
pub fn saturate(color: Hsla, s: Float32) -> (saturated: Hsla)
    ensures
        saturated == spec_saturate(color, s),
        saturated.s == s,
        saturated.h == color.h,
        saturated.l == color.l,
        saturated.a == color.a,
{
    let mut color = color;
    color.s = s;
    color
}

/// How a stretch of text stands out. A field that is `None` leaves the
/// text's own style as it is.
#[derive(Clone, Copy, Debug, PartialEq, Eq, Structural)]
pub struct HighlightStyle {
    pub color: Option<Hsla>,
    pub background_color: Option<Hsla>,
    pub fade_out: Option<Float32>,
}

impl HighlightStyle {
    /// The style that changes nothing.
    pub open spec fn plain() -> HighlightStyle {
        HighlightStyle { color: None, background_color: None, fade_out: None }
    }
}

impl Default for HighlightStyle {
    fn default() -> (style: Self)
        ensures
            style == Self::plain(),
            style.color is None,
            style.background_color is None,
            style.fade_out is None,
    {
        HighlightStyle { color: None, background_color: None, fade_out: None }
    }
}

/// What the styles of the labels take from the active theme.
#[derive(Clone, Debug, PartialEq, Eq)]
pub struct Theme {
    /// The cursor colour of each player, the local one first.
    pub player_cursors: Vec<Hsla>,
    pub background: Hsla,
}

/// The styles of labels up to depth one, at depth two, and deeper.
#[derive(Clone, Copy, Debug, PartialEq, Eq, Structural)]
pub struct LabelStyles {
    pub first: HighlightStyle,
    pub second: HighlightStyle,
    pub third: HighlightStyle,
}

/// The cursor colour at full saturation, on the theme's background.
pub open spec fn spec_label_style(cursor: Hsla, background: Hsla) -> HighlightStyle {
    HighlightStyle {
        color: Some(spec_saturate(cursor, Float32 { bits: ONE_BITS })),
        background_color: Some(background),
        fade_out: None,
    }
}

fn label_style(cursor: Hsla, background: Hsla) -> (style: HighlightStyle)
    ensures
        style == spec_label_style(cursor, background),
{
    HighlightStyle {
        color: Some(saturate(cursor, Float32 { bits: ONE_BITS })),
        background_color: Some(background),
        ..HighlightStyle::default()
    }
}

/// Whether a style draws in the hue, lightness and opacity of `cursor`, at
/// full saturation, on `background`, and does not fade.
pub open spec fn is_cursor_on(style: HighlightStyle, cursor: Hsla, background: Hsla) -> bool {
    &&& style.color matches Some(color) && color.h == cursor.h && color.l == cursor.l && color.a
        == cursor.a && color.s.bits == 0x3f80_0000
    &&& style.background_color == Some(background)
    &&& style.fade_out is None
}

/// The label styles of a theme, from the cursors of players 0, 2 and 3.
pub open spec fn spec_get_highlights(player_cursors: Seq<Hsla>, background: Hsla) -> LabelStyles {
    LabelStyles {
        first: spec_label_style(player_cursors[0], background),
        second: spec_label_style(player_cursors[2], background),
        third: spec_label_style(player_cursors[3], background),
    }
}

/// The label styles of a theme, which has at least four players.
pub fn get_highlights(theme: &Theme) -> (styles: LabelStyles)
    requires
        theme.player_cursors@.len() >= 4,
    ensures
        styles == spec_get_highlights(theme.player_cursors@, theme.background),
        is_cursor_on(styles.first, theme.player_cursors@[0], theme.background),
        is_cursor_on(styles.second, theme.player_cursors@[2], theme.background),
        is_cursor_on(styles.third, theme.player_cursors@[3], theme.background),
{
    LabelStyles {
        first: label_style(theme.player_cursors[0], theme.background),
        second: label_style(theme.player_cursors[2], theme.background),
        third: label_style(theme.player_cursors[3], theme.background),
    }
}

impl LabelStyles {
    /// The style of a label that stands at `depth` among the labels.
    pub open spec fn spec_at_depth(self, depth: int) -> HighlightStyle {
        if depth <= 1 {
            self.first
        } else if depth == 2 {
            self.second
        } else {
            self.third
        }
    }

    pub fn at_depth(&self, depth: usize) -> (style: HighlightStyle)
        ensures
            style == self.spec_at_depth(depth as int),
            depth <= 1 ==> style == self.first,
            depth == 2 ==> style == self.second,
            depth >= 3 ==> style == self.third,
    {
        match depth {
            0 | 1 => self.first,
            2 => self.second,
            _ => self.third,
        }
    }
}

/// Drawing like a cursor on a background leaves open nothing of a style: the
/// colour differs from the cursor's in the saturation alone, which is one.
pub proof fn cursor_fixes_style(style: HighlightStyle, cursor: Hsla, background: Hsla)
    ensures
        is_cursor_on(style, cursor, background) <==> style == (HighlightStyle {
            color: Some(
                Hsla {
                    h: cursor.h,
                    s: Float32 { bits: 0x3f80_0000 },
                    l: cursor.l,
                    a: cursor.a,
                },
            ),
            background_color: Some(background),
            fade_out: None,
        }),
{
}

/// The styles of a theme with at least four players keep hue, lightness and
/// opacity of the cursors of players 0, 2 and 3, and differ from them in the
/// saturation, which is one. They do not depend on any other player.
pub proof fn highlights_are_saturated_cursors(
    player_cursors: Seq<Hsla>,
    others: Seq<Hsla>,
    background: Hsla,
)
    requires
        player_cursors.len() >= 4,
        others.len() >= 4,
    ensures
        ({
            let styles = spec_get_highlights(player_cursors, background);
            &&& is_cursor_on(styles.first, player_cursors[0], background)
            &&& is_cursor_on(styles.second, player_cursors[2], background)
            &&& is_cursor_on(styles.third, player_cursors[3], background)
        }),
        player_cursors[0] == others[0] && player_cursors[2] == others[2] && player_cursors[3]
            == others[3] ==> spec_get_highlights(player_cursors, background)
            == spec_get_highlights(others, background),
{
}

/// Two depths share a style exactly where both are at most one, both are two,
/// or both are deeper, if the three styles differ.
pub proof fn depths_share_styles(styles: LabelStyles, a: nat, b: nat)
    requires
        styles.first != styles.second,
        styles.second != styles.third,
        styles.first != styles.third,
    ensures
        styles.spec_at_depth(a as int) == styles.spec_at_depth(b as int) <==> (a <= 1 && b <= 1)
            || (a == 2 && b == 2) || (a >= 3 && b >= 3),
        styles.spec_at_depth(1) == styles.first,
        styles.spec_at_depth(2) == styles.second,
        styles.spec_at_depth(3) == styles.third,
{
}

/// Substituting the saturation twice is substituting it once, with the later
/// value; it leaves the other components alone, and putting the old saturation
/// back gives the colour back.
pub proof fn saturate_substitutes(color: Hsla, s: Float32, t: Float32)
    ensures
        spec_saturate(spec_saturate(color, s), t) == spec_saturate(color, t),
        spec_saturate(color, s).s == s,
        spec_saturate(color, s).h == color.h,
        spec_saturate(color, s).l == color.l,
        spec_saturate(color, s).a == color.a,
        spec_saturate(spec_saturate(color, s), color.s) == color,
{
}

} // verus!
