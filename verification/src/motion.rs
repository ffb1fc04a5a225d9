//! An easy motion session, from the command to the jump.
//!
//! A command asks for a [`Search`]. The matches that the host finds go to
//! [`handle_new_matches`]; if there are any, the host labels them as
//! [`plan_labels`] says and [`EasyMotion::show_matches`] starts the session. A keystroke then goes
//! through [`EasyMotion::observe_keystrokes`], [`handle_trim`] and
//! [`EasyMotion::finish_keystroke`]: it narrows the labels, ends the session
//! with a jump, or ends it without one.
//!
//! `S` is the host's collection of labels, which the session only holds.

use crate::action::{Direction, FullWord, Row, Target, Word, WordType};
use crate::effect::{Effect, EffectView, HighlightKey, Mode};
use crate::geometry::{labelled_range, Bias, DisplayPoint, Selection};
use crate::overlay::{overlays, Candidate, CandidateView, OverlayState};
use crate::settings::EasyMotionSettings;
use crate::style::{get_highlights, Float32, HighlightStyle, LabelStyles, Theme, TEXT_FADE_BITS};
use vstd::prelude::*;

verus! {

/// What is left of the modal editor and the text editor that a session
/// belongs to.
#[derive(Clone, Copy, Debug, PartialEq, Eq, Structural)]
pub struct Handles {
    /// The mode of the modal editor, or `None` once that is gone.
    pub vim: Option<Mode>,
    /// Whether the text editor still exists.
    pub editor: bool,
}

impl Handles {
    /// Whether both editors still exist.
    pub open spec fn alive(self) -> bool {
        self.vim is Some && self.editor
    }
}

/// A search that the host is to make.
#[derive(Clone, Copy, Debug, PartialEq, Eq, Structural)]
pub struct Search {
    pub target: Target,
    pub direction: Direction,
    /// The mode to return to if there is no match.
    pub restore: Option<Mode>,
}

/// Matches that the host is to label.
#[derive(Clone, Debug, PartialEq, Eq)]
pub struct Labelling {
    pub matches: Vec<DisplayPoint>,
    pub direction: Direction,
}

/// A keystroke as the host reports it.
#[derive(Clone, Debug, PartialEq, Eq)]
pub struct KeystrokeEvent {
    /// Whether the keystroke was bound to an action.
    pub has_action: bool,
    /// Whether the keystroke may still become part of a longer binding.
    pub has_pending_keystrokes: bool,
    pub key: String,
}

impl KeystrokeEvent {
    /// Whether the keystroke is free for the session to use.
    pub open spec fn is_free(self) -> bool {
        !self.has_action && !self.has_pending_keystrokes
    }
}

/// Keys that the host is to type into its labels.
#[derive(Debug, PartialEq, Eq)]
pub struct Recording<S> {
    pub selection: S,
    pub keys: String,
}

/// What typing did to the labels.
#[derive(Clone, Copy, Debug, PartialEq, Eq, Structural)]
pub enum TrimResult {
    /// One label is complete.
    Found(OverlayState),
    /// Fewer labels are left.
    Changed,
    /// The keys fit no label.
    Error,
    /// Nothing changed.
    NoChange,
}

/// What a session does after its labels were typed at.
#[derive(Debug, PartialEq, Eq)]
pub enum Trimmed<S> {
    /// It ends.
    Ended,
    /// It goes on, and its labels have to be drawn anew.
    Relabel(S),
    /// It goes on.
    Kept(S),
}

impl<S> Trimmed<S> {
    /// The labels that the session goes on with, if it does.
    pub open spec fn spec_state(self) -> Option<S> {
        match self {
            Trimmed::Ended => None,
            Trimmed::Relabel(selection) | Trimmed::Kept(selection) => Some(selection),
        }
    }
}

/// An event of the text editor.
#[derive(Clone, Copy, Debug, PartialEq, Eq, Structural)]
pub enum EditorEvent {
    Fold,
    UnFold,
    Other,
}

impl EditorEvent {
    /// Whether the event changed which text is folded.
    pub open spec fn changes_folds(self) -> bool {
        self is Fold || self is UnFold
    }
}

/// The effect of switching to `mode`.
pub open spec fn switch_to(mode: Mode) -> EffectView {
    EffectView::SwitchMode { mode, leave_selections: false }
}

/// The effects that take a session's traces off the text editor.
pub open spec fn cleared() -> Seq<EffectView> {
    seq![
        EffectView::EnableBlink,
        EffectView::ClearOverlays,
        EffectView::ClearHighlights { key: HighlightKey::EasyMotion },
    ]
}

/// Takes a session's traces off the text editor, after `effects`.
fn clear_editor(effects: &mut Vec<Effect>)
    ensures
        final(effects).deep_view() == old(effects).deep_view() + cleared(),
        final(effects)@ == old(effects)@ + seq![
            Effect::EnableBlink,
            Effect::ClearOverlays,
            Effect::ClearHighlights { key: HighlightKey::EasyMotion },
        ],
{
    effects.push(Effect::EnableBlink);
    effects.push(Effect::ClearOverlays);
    effects.push(Effect::ClearHighlights { key: HighlightKey::EasyMotion });
    assert(effects.deep_view() =~= old(effects).deep_view() + cleared());
}

/// Adds the labels that are not folded.
pub open spec fn labels_added(candidates: Seq<CandidateView>, len: int) -> EffectView {
    EffectView::AddOverlays {
        overlays: crate::overlay::spec_overlays(candidates),
        reserve: len,
    }
}

/// The effect of drawing the candidates that are not folded, out of `len`
/// labels.
pub fn add_overlays(candidates: &Vec<Candidate>, len: usize) -> (effect: Effect)
    ensures
        effect@ == labels_added(candidates.deep_view(), len as int),
        effect matches Effect::AddOverlays { overlays: drawn, reserve } && reserve == len
            && crate::overlay::drawn_over(drawn@, candidates@),
{
    Effect::AddOverlays { overlays: overlays(candidates), reserve: len }
}

/// Draws the labels anew.
pub open spec fn refreshed(candidates: Seq<CandidateView>, len: int) -> Seq<EffectView> {
    seq![EffectView::ClearOverlays, labels_added(candidates, len)]
}

/// The effects of drawing the labels anew after folds changed.
pub fn refresh_overlays(candidates: &Vec<Candidate>, len: usize) -> (effects: Vec<Effect>)
    ensures
        effects.deep_view() == refreshed(candidates.deep_view(), len as int),
        effects@.len() == 2,
        effects@[0] == Effect::ClearOverlays,
        effects@[1] matches Effect::AddOverlays { overlays: drawn, reserve } && reserve == len
            && crate::overlay::drawn_over(drawn@, candidates@),
{
    let mut effects: Vec<Effect> = Vec::new();
    effects.push(Effect::ClearOverlays);
    effects.push(add_overlays(candidates, len));
    assert(effects.deep_view() =~= refreshed(candidates.deep_view(), len as int));
    effects
}

/// Effects of handing a search's matches in: the cursor stops blinking and is
/// hidden, and without a match the earlier mode comes back if there is one to
/// restore.
pub open spec fn new_matches_effects(search: Search, found: bool) -> Seq<EffectView> {
    let quiet = seq![EffectView::DisableBlink, EffectView::HideCursor];
    match search.restore {
        Some(mode) if !found => quiet.push(switch_to(mode)),
        _ => quiet,
    }
}

/// Takes the matches of a search. Where there are any they are to be
/// labelled; where there are none the command is over.
pub fn handle_new_matches(search: Search, matches: Vec<DisplayPoint>) -> (result: (
    Vec<Effect>,
    Option<Labelling>,
))
    ensures
        result.0.deep_view() == new_matches_effects(search, matches@.len() > 0),
        result.0@ == match search.restore {
            Some(mode) if matches@.len() == 0 => seq![
                Effect::DisableBlink,
                Effect::HideCursor,
                Effect::SwitchMode { mode, leave_selections: false },
            ],
            _ => seq![Effect::DisableBlink, Effect::HideCursor],
        },
        result.1 is Some <==> matches@.len() > 0,
        result.1 matches Some(labelling) ==> {
            &&& labelling.matches == matches
            &&& labelling.direction == search.direction
        },
{
    let mut effects: Vec<Effect> = Vec::new();
    effects.push(Effect::DisableBlink);
    effects.push(Effect::HideCursor);
    if matches.is_empty() {
        if let Some(mode) = search.restore {
            effects.push(Effect::SwitchMode { mode, leave_selections: false });
        }
        assert(effects.deep_view() =~= new_matches_effects(search, false));
        return (effects, None);
    }
    assert(effects.deep_view() =~= new_matches_effects(search, true));
    (effects, Some(Labelling { matches, direction: search.direction }))
}

/// How the host is to label the matches of a command: it sorts `matches` as
/// seen from `origin`, makes labels for them out of `keys`, and draws a label
/// with [`OverlayState::at_depth`] of `styles`.
#[derive(Clone, Debug, PartialEq, Eq)]
pub struct LabelPlan {
    pub matches: Vec<DisplayPoint>,
    pub origin: DisplayPoint,
    pub keys: String,
    pub styles: LabelStyles,
    pub direction: Direction,
    pub selection: Selection,
}

/// Plans the labels of a command's matches, as seen from the start of the
/// newest selection. The theme has at least four players.
pub fn plan_labels(
    labelling: Labelling,
    selection: Selection,
    settings: &EasyMotionSettings,
    theme: &Theme,
) -> (plan: LabelPlan)
    requires
        theme.player_cursors@.len() >= 4,
    ensures
        plan.matches == labelling.matches,
        plan.origin == selection.start,
        plan.keys@ == settings.keys@,
        plan.styles == crate::style::spec_get_highlights(
            theme.player_cursors@,
            theme.background,
        ),
        crate::style::is_cursor_on(plan.styles.first, theme.player_cursors@[0], theme.background),
        crate::style::is_cursor_on(plan.styles.second, theme.player_cursors@[2], theme.background),
        crate::style::is_cursor_on(plan.styles.third, theme.player_cursors@[3], theme.background),
        plan.direction == labelling.direction,
        plan.selection == selection,
{
    LabelPlan {
        matches: labelling.matches,
        origin: selection.start,
        keys: settings.keys.clone(),
        styles: get_highlights(theme),
        direction: labelling.direction,
        selection,
    }
}

/// The style of the text under the labels.
pub open spec fn text_style() -> HighlightStyle {
    HighlightStyle {
        fade_out: Some(Float32 { bits: TEXT_FADE_BITS }),
        ..HighlightStyle::plain()
    }
}

/// The effect of fading the text that a command labels.
pub open spec fn text_faded(
    direction: Direction,
    selection: Selection,
    max_point: DisplayPoint,
) -> EffectView {
    EffectView::HighlightText {
        key: HighlightKey::EasyMotion,
        start: crate::geometry::spec_labelled_start(direction, selection),
        end: crate::geometry::spec_labelled_end(direction, selection, max_point),
        bias: Bias::Left,
        style: text_style(),
    }
}

/// Effects of the labels having been typed at with result `res`.
pub open spec fn trim_effects(res: TrimResult) -> Seq<EffectView> {
    match res {
        TrimResult::Found(overlay) => seq![
            EffectView::JumpTo { offset: overlay.offset as int, bias: Bias::Right },
        ] + cleared(),
        TrimResult::Changed => seq![EffectView::ClearOverlays],
        TrimResult::Error => cleared(),
        TrimResult::NoChange => seq![],
    }
}

/// What a session does after its labels were typed at with result `res`.
pub open spec fn trim_outcome<S>(selection: S, res: TrimResult) -> Trimmed<S> {
    match res {
        TrimResult::Found(_) | TrimResult::Error => Trimmed::Ended,
        TrimResult::Changed => Trimmed::Relabel(selection),
        TrimResult::NoChange => Trimmed::Kept(selection),
    }
}

/// Decides how a session goes on after its labels were typed at: a complete
/// label is jumped to, fewer labels are drawn anew, and keys that fit no label
/// end the session.
pub fn handle_trim<S>(selection: S, res: TrimResult) -> (result: (Vec<Effect>, Trimmed<S>))
    ensures
        result.0.deep_view() == trim_effects(res),
        result.1 == trim_outcome(selection, res),
        res matches TrimResult::Found(overlay) ==> {
            &&& result.0@ == seq![
                Effect::JumpTo { offset: overlay.offset, bias: Bias::Right },
                Effect::EnableBlink,
                Effect::ClearOverlays,
                Effect::ClearHighlights { key: HighlightKey::EasyMotion },
            ]
            &&& result.1 is Ended
        },
        res is Error ==> {
            &&& result.0@ == seq![
                Effect::EnableBlink,
                Effect::ClearOverlays,
                Effect::ClearHighlights { key: HighlightKey::EasyMotion },
            ]
            &&& result.1 is Ended
        },
        res is Changed ==> {
            &&& result.0@ == seq![Effect::ClearOverlays]
            &&& result.1 == Trimmed::Relabel(selection)
        },
        res is NoChange ==> {
            &&& result.0@ == Seq::<Effect>::empty()
            &&& result.1 == Trimmed::Kept(selection)
        },
{
    let mut effects: Vec<Effect> = Vec::new();
    match res {
        TrimResult::Found(overlay) => {
            effects.push(Effect::JumpTo { offset: overlay.offset, bias: Bias::Right });
            assert(effects.deep_view() =~= seq![
                EffectView::JumpTo { offset: overlay.offset as int, bias: Bias::Right },
            ]);
            clear_editor(&mut effects);
            (effects, Trimmed::Ended)
        },
        TrimResult::Changed => {
            effects.push(Effect::ClearOverlays);
            assert(effects.deep_view() =~= trim_effects(res));
            (effects, Trimmed::Relabel(selection))
        },
        TrimResult::Error => {
            clear_editor(&mut effects);
            assert(effects.deep_view() =~= cleared());
            (effects, Trimmed::Ended)
        },
        TrimResult::NoChange => {
            assert(effects.deep_view() =~= trim_effects(res));
            (effects, Trimmed::Kept(selection))
        },
    }
}

/// The search of a command for words, if the editors still exist: without a
/// match it returns to the mode it was invoked in.
pub open spec fn word_search(
    word_type: WordType,
    direction: Direction,
    handles: Handles,
) -> Option<Search> {
    if handles.alive() {
        Some(Search { target: Target::Words(word_type), direction, restore: handles.vim })
    } else {
        None
    }
}

/// The search of a command for rows, if the editors still exist: it stays in
/// easy motion mode even without a match.
pub open spec fn row_search(direction: Direction, handles: Handles) -> Option<Search> {
    if handles.alive() {
        Some(Search { target: Target::Rows, direction, restore: None })
    } else {
        None
    }
}

/// Effects of invoking a command.
pub open spec fn command_effects(handles: Handles) -> Seq<EffectView> {
    if handles.alive() {
        seq![switch_to(Mode::EasyMotion)]
    } else {
        seq![]
    }
}

/// Effects of cancelling a session.
pub open spec fn cancel_effects(handles: Handles) -> Seq<EffectView> {
    if handles.alive() {
        seq![switch_to(Mode::Normal)] + cleared()
    } else {
        seq![]
    }
}

/// Effects of a keystroke after its labels were handled: where the session
/// ended, normal mode, if there still is a modal editor.
pub open spec fn finish_effects(ended: bool, vim: bool) -> Seq<EffectView> {
    if ended && vim {
        seq![switch_to(Mode::Normal)]
    } else {
        seq![]
    }
}

/// The labels of the current session, if there is one.
#[derive(Debug, PartialEq, Eq)]
pub struct EasyMotion<S> {
    pub state: Option<S>,
}

impl<S> EasyMotion<S> {
    /// No session.
    pub fn new() -> (motion: Self)
        ensures
            motion.state is None,
    {
        EasyMotion { state: None }
    }

    /// Starts labelling words of a type. The modal editor must not be in easy
    /// motion mode already.
    pub fn word_impl(
        &self,
        word_type: WordType,
        direction: Direction,
        handles: Handles,
    ) -> (result: (Vec<Effect>, Option<Search>))
        requires
            handles.alive() ==> handles.vim != Some(Mode::EasyMotion),
        ensures
            result.0.deep_view() == command_effects(handles),
            result.1 == word_search(word_type, direction, handles),
            result.1 is Some <==> handles.vim is Some && handles.editor,
            result.1 matches Some(search) ==> {
                &&& search.target == Target::Words(word_type)
                &&& search.direction == direction
                &&& search.restore == handles.vim
            },
            result.0@ == if handles.vim is Some && handles.editor {
                seq![Effect::SwitchMode { mode: Mode::EasyMotion, leave_selections: false }]
            } else {
                seq![]
            },
    {
        let mut effects: Vec<Effect> = Vec::new();
        match handles.vim {
            Some(mode) if handles.editor => {
                effects.push(Effect::SwitchMode { mode: Mode::EasyMotion, leave_selections: false });
                assert(effects.deep_view() =~= command_effects(handles));
                (
                    effects,
                    Some(Search { target: Target::Words(word_type), direction, restore: Some(mode) }),
                )
            },
            _ => {
                assert(effects.deep_view() =~= command_effects(handles));
                (effects, None)
            },
        }
    }

    /// Starts labelling words. The modal editor must not be in easy motion
    /// mode already.
    pub fn word(&self, action: &Word, handles: Handles) -> (result: (Vec<Effect>, Option<Search>))
        requires
            handles.alive() ==> handles.vim != Some(Mode::EasyMotion),
        ensures
            result.0.deep_view() == command_effects(handles),
            result.1 == word_search(WordType::Word, action.0, handles),
            result.1 is Some <==> handles.vim is Some && handles.editor,
            result.1 matches Some(search) ==> {
                &&& search.target == Target::Words(WordType::Word)
                &&& search.direction == action.0
                &&& search.restore == handles.vim
            },
            result.0@ == if handles.vim is Some && handles.editor {
                seq![Effect::SwitchMode { mode: Mode::EasyMotion, leave_selections: false }]
            } else {
                seq![]
            },
    {
        self.word_impl(WordType::Word, action.0, handles)
    }

    /// Starts labelling full words. The modal editor must not be in easy
    /// motion mode already.
    pub fn full_word(&self, action: &FullWord, handles: Handles) -> (result: (
        Vec<Effect>,
        Option<Search>,
    ))
        requires
            handles.alive() ==> handles.vim != Some(Mode::EasyMotion),
        ensures
            result.0.deep_view() == command_effects(handles),
            result.1 == word_search(WordType::FullWord, action.0, handles),
            result.1 is Some <==> handles.vim is Some && handles.editor,
            result.1 matches Some(search) ==> {
                &&& search.target == Target::Words(WordType::FullWord)
                &&& search.direction == action.0
                &&& search.restore == handles.vim
            },
            result.0@ == if handles.vim is Some && handles.editor {
                seq![Effect::SwitchMode { mode: Mode::EasyMotion, leave_selections: false }]
            } else {
                seq![]
            },
    {
        self.word_impl(WordType::FullWord, action.0, handles)
    }

    /// Starts labelling rows. The modal editor must not be in easy motion
    /// mode already.
    pub fn row(&self, action: &Row, handles: Handles) -> (result: (Vec<Effect>, Option<Search>))
        requires
            handles.alive() ==> handles.vim != Some(Mode::EasyMotion),
        ensures
            result.0.deep_view() == command_effects(handles),
            result.1 == row_search(action.0, handles),
            result.1 is Some <==> handles.vim is Some && handles.editor,
            result.1 matches Some(search) ==> {
                &&& search.target == Target::Rows
                &&& search.direction == action.0
                &&& search.restore is None
            },
            result.0@ == if handles.vim is Some && handles.editor {
                seq![Effect::SwitchMode { mode: Mode::EasyMotion, leave_selections: false }]
            } else {
                seq![]
            },
    {
        let mut effects: Vec<Effect> = Vec::new();
        if handles.vim.is_none() || !handles.editor {
            assert(effects.deep_view() =~= command_effects(handles));
            return (effects, None);
        }
        effects.push(Effect::SwitchMode { mode: Mode::EasyMotion, leave_selections: false });
        assert(effects.deep_view() =~= command_effects(handles));
        (effects, Some(Search { target: Target::Rows, direction: action.0, restore: None }))
    }

    /// Starts the session over matches that were labelled as planned: draws
    /// the candidates that are not folded, out of `len` labels, and fades the
    /// text that the command is about.
    pub fn show_matches(
        &mut self,
        labels: S,
        candidates: &Vec<Candidate>,
        len: usize,
        plan: &LabelPlan,
        max_point: DisplayPoint,
    ) -> (effects: Vec<Effect>)
        ensures
            final(self).state == Some(labels),
            effects.deep_view() == seq![
                labels_added(candidates.deep_view(), len as int),
                text_faded(plan.direction, plan.selection, max_point),
            ],
            effects@.len() == 2,
            effects@[0] matches Effect::AddOverlays { overlays: drawn, reserve } && reserve == len
                && crate::overlay::drawn_over(drawn@, candidates@),
            effects@[1] matches Effect::HighlightText { key, start, end, bias, style } && {
                &&& key == HighlightKey::EasyMotion
                &&& plan.direction == Direction::Forwards ==> start == plan.selection.start
                &&& plan.direction != Direction::Forwards ==> start.row.0 == 0 && start.column == 0
                &&& plan.direction == Direction::Backwards ==> end == plan.selection.end
                &&& plan.direction != Direction::Backwards ==> end == max_point
                &&& bias == Bias::Left
                &&& style.color is None
                &&& style.background_color is None
                &&& style.fade_out == Some(Float32 { bits: 0x3f33_3333 })
            },
    {
        let mut effects: Vec<Effect> = Vec::new();
        effects.push(add_overlays(candidates, len));
        let (start, end) = labelled_range(plan.direction, plan.selection, max_point);
        let style = HighlightStyle {
            fade_out: Some(Float32 { bits: TEXT_FADE_BITS }),
            ..HighlightStyle::default()
        };
        effects.push(
            Effect::HighlightText {
                key: HighlightKey::EasyMotion,
                start,
                end,
                bias: Bias::Left,
                style,
            },
        );
        self.state = Some(labels);
        assert(effects.deep_view() =~= seq![
            labels_added(candidates.deep_view(), len as int),
            text_faded(plan.direction, plan.selection, max_point),
        ]);
        effects
    }

    /// Ends the session. The modal editor must be in easy motion mode.
    pub fn cancel(&mut self, handles: Handles) -> (effects: Vec<Effect>)
        requires
            handles.alive() ==> handles.vim == Some(Mode::EasyMotion),
        ensures
            final(self).state == if handles.alive() {
                None
            } else {
                old(self).state
            },
            effects.deep_view() == cancel_effects(handles),
            handles.vim is Some && handles.editor ==> {
                &&& final(self).state is None
                &&& effects@ == seq![
                    Effect::SwitchMode { mode: Mode::Normal, leave_selections: false },
                    Effect::EnableBlink,
                    Effect::ClearOverlays,
                    Effect::ClearHighlights { key: HighlightKey::EasyMotion },
                ]
            },
            handles.vim is None || !handles.editor ==> {
                &&& final(self).state == old(self).state
                &&& effects@ == Seq::<Effect>::empty()
            },
    {
        let mut effects: Vec<Effect> = Vec::new();
        if handles.vim.is_none() || !handles.editor {
            assert(effects.deep_view() =~= cancel_effects(handles));
            return effects;
        }
        effects.push(Effect::SwitchMode { mode: Mode::Normal, leave_selections: false });
        assert(effects.deep_view() =~= seq![switch_to(Mode::Normal)]);
        self.state = None;
        clear_editor(&mut effects);
        effects
    }

    /// Takes a keystroke. One that is free takes the labels out of the
    /// session; if the text editor still exists, the key is to be typed into
    /// them, and [`EasyMotion::finish_keystroke`] puts back what is left.
    pub fn observe_keystrokes(&mut self, keystroke_event: &KeystrokeEvent, editor: bool) -> (result:
        Option<Recording<S>>)
        ensures
            final(self).state == if keystroke_event.is_free() {
                None
            } else {
                old(self).state
            },
            result is Some <==> keystroke_event.is_free() && editor && old(self).state is Some,
            final(self).state == if !keystroke_event.has_action
                && !keystroke_event.has_pending_keystrokes {
                None
            } else {
                old(self).state
            },
            result is Some <==> !keystroke_event.has_action
                && !keystroke_event.has_pending_keystrokes && editor && old(self).state is Some,
            result matches Some(recording) ==> {
                &&& old(self).state == Some(recording.selection)
                &&& recording.keys@ == keystroke_event.key@
            },
    {
        if keystroke_event.has_action {
            return None;
        } else if keystroke_event.has_pending_keystrokes {
            return None;
        }
        match self.state.take() {
            Some(selection) if editor => Some(
                Recording { selection, keys: keystroke_event.key.clone() },
            ),
            _ => None,
        }
    }

    /// Ends the handling of a keystroke: puts the labels that are left back,
    /// or returns to normal mode where the session ended. `vim` says whether
    /// there still is a modal editor.
    pub fn finish_keystroke(&mut self, trimmed: Trimmed<S>, vim: bool) -> (effects: Vec<Effect>)
        ensures
            final(self).state == if trimmed is Ended {
                old(self).state
            } else {
                trimmed.spec_state()
            },
            effects.deep_view() == finish_effects(trimmed is Ended, vim),
            trimmed matches Trimmed::Relabel(selection) ==> final(self).state == Some(selection),
            trimmed matches Trimmed::Kept(selection) ==> final(self).state == Some(selection),
            effects@ == if trimmed is Ended && vim {
                seq![Effect::SwitchMode { mode: Mode::Normal, leave_selections: false }]
            } else {
                seq![]
            },
    {
        let mut effects: Vec<Effect> = Vec::new();
        match trimmed {
            Trimmed::Ended => {
                if vim {
                    effects.push(
                        Effect::SwitchMode { mode: Mode::Normal, leave_selections: false },
                    );
                }
            },
            Trimmed::Relabel(selection) | Trimmed::Kept(selection) => {
                self.state = Some(selection);
            },
        }
        assert(effects.deep_view() =~= finish_effects(trimmed is Ended, vim));
        effects
    }

    /// The labels to draw anew after an event of the text editor, if any:
    /// those of the current session, when folds changed.
    pub fn update_overlays(&self, event: EditorEvent) -> (labels: Option<&S>)
        ensures
            labels is Some <==> event.changes_folds() && self.state is Some,
            labels is Some <==> (event == EditorEvent::Fold || event == EditorEvent::UnFold)
                && self.state is Some,
            labels matches Some(state) ==> self.state == Some(*state),
    {
        match event {
            EditorEvent::Fold | EditorEvent::UnFold => self.state.as_ref(),
            EditorEvent::Other => None,
        }
    }
}

/// While both editors exist, a word command searches for the words it was
/// invoked for, in the direction it was invoked with, and would return to the
/// mode it was invoked in. So two commands search alike only where they agree
/// in all three. Once an editor is gone it searches for nothing.
pub proof fn word_search_is_as_invoked(
    word_type: WordType,
    direction: Direction,
    handles: Handles,
    other_type: WordType,
    other_direction: Direction,
    other_handles: Handles,
)
    ensures
        word_search(word_type, direction, handles) is Some <==> handles.vim is Some
            && handles.editor,
        word_search(word_type, direction, handles) matches Some(search) ==> {
            &&& search.direction == direction
            &&& search.target == Target::Words(word_type)
            &&& search.restore == handles.vim
        },
        handles.vim is Some && handles.editor ==> (word_search(word_type, direction, handles)
            == word_search(other_type, other_direction, other_handles) <==> {
            &&& word_type == other_type
            &&& direction == other_direction
            &&& handles == other_handles
        }),
{
}

/// While both editors exist, a row command searches for rows, in the
/// direction it was invoked with, and has no mode to return to. So two
/// commands search alike only where they go in the same direction, and none
/// searches as a word command does.
pub proof fn row_search_is_as_invoked(
    direction: Direction,
    handles: Handles,
    other_direction: Direction,
    word_type: WordType,
)
    ensures
        row_search(direction, handles) is Some <==> handles.vim is Some && handles.editor,
        row_search(direction, handles) matches Some(search) ==> {
            &&& search.direction == direction
            &&& search.target == Target::Rows
            &&& search.restore is None
        },
        handles.vim is Some && handles.editor ==> {
            &&& row_search(direction, handles) == row_search(other_direction, handles) <==> direction
                == other_direction
            &&& row_search(direction, handles) != word_search(
                word_type,
                other_direction,
                handles,
            )
        },
{
}

/// Whether a keystroke is typed into the labels depends on whether it is bound
/// or may become part of a longer binding, and not on its key.
pub proof fn any_unbound_key_is_free(event: KeystrokeEvent, other: KeystrokeEvent)
    ensures
        event.is_free() <==> !event.has_action && !event.has_pending_keystrokes,
        event.has_action == other.has_action && event.has_pending_keystrokes
            == other.has_pending_keystrokes ==> event.is_free() == other.is_free(),
{
}

/// The only events that redraw a session are folding and unfolding.
pub proof fn only_folding_changes_folds(event: EditorEvent)
    ensures
        event.changes_folds() <==> event == EditorEvent::Fold || event == EditorEvent::UnFold,
{
}

/// Typing jumps exactly where a label is complete, first of all and to the
/// offset of that label; it clears the screen exactly where the session ends;
/// and a session that goes on keeps the labels it was given.
pub proof fn typing_jumps_to_the_completed_label<S>(selection: S, res: TrimResult)
    ensures
        forall|i: int|
            #![trigger trim_effects(res)[i]]
            0 <= i < trim_effects(res).len() && trim_effects(res)[i] is JumpTo ==> i == 0
                && res is Found,
        res matches TrimResult::Found(overlay) ==> {
            &&& trim_effects(res).len() == 4
            &&& trim_effects(res)[0] == (EffectView::JumpTo {
                offset: overlay.offset as int,
                bias: Bias::Right,
            })
        },
        trim_effects(res).len() > 0 && trim_effects(res).last() is ClearHighlights
            <==> trim_outcome(selection, res) is Ended,
        trim_outcome(selection, res) is Ended <==> res is Found || res is Error,
        trim_outcome(selection, res) is Relabel <==> res is Changed,
        trim_outcome(selection, res).spec_state() == if res is Found || res is Error {
            None
        } else {
            Some(selection)
        },
{
}

/// The text that a command fades is what it labels: its ends are those of the
/// selection or of the text, by direction, and its style only fades.
pub proof fn faded_text_is_what_is_labelled(selection: Selection, max_point: DisplayPoint)
    ensures
        forall|direction: Direction| #[trigger]
            text_faded(direction, selection, max_point) matches EffectView::HighlightText {
                key,
                start,
                end,
                bias,
                style,
            } && {
                &&& key == HighlightKey::EasyMotion
                &&& direction == Direction::Forwards ==> start == selection.start
                &&& direction != Direction::Forwards ==> start.row.0 == 0 && start.column == 0
                &&& direction == Direction::Backwards ==> end == selection.end
                &&& direction != Direction::Backwards ==> end == max_point
                &&& bias == Bias::Left
                &&& style.color is None
                &&& style.background_color is None
                &&& style.fade_out == Some(Float32 { bits: 0x3f33_3333 })
            },
{
}

/// Handing matches in switches the mode only where there are none, and then
/// to the mode that the search is to restore, last of all.
pub proof fn mode_is_restored_only_without_matches(search: Search, found: bool)
    ensures
        ({
            let effects = new_matches_effects(search, found);
            &&& effects.len() >= 2
            &&& effects[0] is DisableBlink
            &&& effects[1] is HideCursor
            &&& effects.len() == 3 <==> !found && search.restore is Some
            &&& effects.len() <= 3
            &&& effects.len() == 3 ==> effects[2] == (EffectView::SwitchMode {
                mode: search.restore->0,
                leave_selections: false,
            })
        }),
{
}

} // verus!
