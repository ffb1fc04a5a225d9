//! What the host is asked to do.

use crate::geometry::{Bias, DisplayPoint};
use crate::overlay::{Overlay, OverlayView};
use crate::style::HighlightStyle;
use vstd::prelude::*;

verus! {

/// A mode of the modal editor.
#[derive(Clone, Copy, Debug, PartialEq, Eq, Structural)]
pub enum Mode {
    Normal,
    EasyMotion,
    /// Any other mode, by a number of the host's choice.
    Other(u32),
}

/// The owner of a text highlight.
#[derive(Clone, Copy, Debug, PartialEq, Eq, Structural)]
pub enum HighlightKey {
    EasyMotion,
}

/// A request to the host. Requests are performed in the order in which they
/// are given.
#[derive(Clone, Debug, PartialEq, Eq)]
pub enum Effect {
    /// Switch the modal editor to `mode`.
    SwitchMode { mode: Mode, leave_selections: bool },
    /// Stop the cursor from blinking.
    DisableBlink,
    /// Let the cursor blink again.
    EnableBlink,
    /// Hide the cursor.
    HideCursor,
    /// Remove all labels.
    ClearOverlays,
    /// Add labels to those shown, making room for `reserve` of them.
    AddOverlays { overlays: Vec<Overlay>, reserve: usize },
    /// Highlight the text between two points, which are anchored with `bias`.
    HighlightText {
        key: HighlightKey,
        start: DisplayPoint,
        end: DisplayPoint,
        bias: Bias,
        style: HighlightStyle,
    },
    /// Remove the highlights of `key`.
    ClearHighlights { key: HighlightKey },
    /// Move every cursor to a buffer offset, displayed with `bias`, without a
    /// column to return to, and scroll until the cursors are in view.
    JumpTo { offset: usize, bias: Bias },
}

/// The mathematical form of an effect.
pub enum EffectView {
    SwitchMode { mode: Mode, leave_selections: bool },
    DisableBlink,
    EnableBlink,
    HideCursor,
    ClearOverlays,
    AddOverlays { overlays: Seq<OverlayView>, reserve: int },
    HighlightText {
        key: HighlightKey,
        start: DisplayPoint,
        end: DisplayPoint,
        bias: Bias,
        style: HighlightStyle,
    },
    ClearHighlights { key: HighlightKey },
    JumpTo { offset: int, bias: Bias },
}

impl View for Effect {
    type V = EffectView;

    open spec fn view(&self) -> EffectView {
        match *self {
            Effect::SwitchMode { mode, leave_selections } => EffectView::SwitchMode {
                mode,
                leave_selections,
            },
            Effect::DisableBlink => EffectView::DisableBlink,
            Effect::EnableBlink => EffectView::EnableBlink,
            Effect::HideCursor => EffectView::HideCursor,
            Effect::ClearOverlays => EffectView::ClearOverlays,
            Effect::AddOverlays { overlays, reserve } => EffectView::AddOverlays {
                overlays: overlays.deep_view(),
                reserve: reserve as int,
            },
            Effect::HighlightText { key, start, end, bias, style } => EffectView::HighlightText {
                key,
                start,
                end,
                bias,
                style,
            },
            Effect::ClearHighlights { key } => EffectView::ClearHighlights { key },
            Effect::JumpTo { offset, bias } => EffectView::JumpTo { offset: offset as int, bias },
        }
    }
}

impl DeepView for Effect {
    type V = EffectView;

    open spec fn deep_view(&self) -> EffectView {
        self@
    }
}

} // verus!
