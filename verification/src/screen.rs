//! What effects do to the editors, and the laws of a session.
//!
//! A [`Screen`] is what a user sees of the two editors. Effects act on it as
//! [`Screen::after`] says, and the laws speak of the effects that the
//! functions of [`crate::motion`] give.

use crate::action::{Direction, Target, WordType};
use crate::effect::{EffectView, Mode};
use crate::geometry::{DisplayPoint, Selection};
use crate::motion::{Handles, Search, TrimResult};
use crate::overlay::{CandidateView, OverlayView};
use crate::style::HighlightStyle;
use vstd::prelude::*;

verus! {

/// A stretch of highlighted text.
pub struct Highlighted {
    pub start: DisplayPoint,
    pub end: DisplayPoint,
    pub style: HighlightStyle,
}

/// What a user sees of a modal editor and its text editor. Whether the cursor
/// is hidden is not part of the model.
pub struct Screen {
    pub mode: Mode,
    pub blinking: bool,
    /// The labels drawn, in the order in which they were added.
    pub overlays: Seq<OverlayView>,
    /// The highlighted text.
    pub highlighted: Option<Highlighted>,
    /// The buffer offset that the cursors last jumped to.
    pub jumped: Option<int>,
}

impl Screen {
    /// The screen after one effect.
    pub open spec fn after(self, effect: EffectView) -> Screen {
        match effect {
            EffectView::SwitchMode { mode, .. } => Screen { mode, ..self },
            EffectView::DisableBlink => Screen { blinking: false, ..self },
            EffectView::EnableBlink => Screen { blinking: true, ..self },
            EffectView::HideCursor => self,
            EffectView::ClearOverlays => Screen { overlays: Seq::empty(), ..self },
            EffectView::AddOverlays { overlays, .. } => Screen {
                overlays: self.overlays + overlays,
                ..self
            },
            EffectView::HighlightText { start, end, style, .. } => Screen {
                highlighted: Some(Highlighted { start, end, style }),
                ..self
            },
            EffectView::ClearHighlights { .. } => Screen { highlighted: None, ..self },
            EffectView::JumpTo { offset, .. } => Screen { jumped: Some(offset), ..self },
        }
    }

    /// The screen after effects in order.
    pub open spec fn after_all(self, effects: Seq<EffectView>) -> Screen
        decreases effects.len(),
    {
        if effects.len() == 0 {
            self
        } else {
            self.after_all(effects.drop_last()).after(effects.last())
        }
    }

    /// The screen with a session taken off it: normal mode, a blinking cursor
    /// and nothing left on the text.
    pub open spec fn session_over(self) -> Screen {
        Screen {
            mode: Mode::Normal,
            blinking: true,
            overlays: Seq::empty(),
            highlighted: None,
            ..self
        }
    }
}

/// The text that a command fades.
pub open spec fn faded_text(
    direction: Direction,
    selection: Selection,
    max_point: DisplayPoint,
) -> Highlighted {
    Highlighted {
        start: crate::geometry::spec_labelled_start(direction, selection),
        end: crate::geometry::spec_labelled_end(direction, selection, max_point),
        style: crate::motion::text_style(),
    }
}

proof fn lemma_after_all_append(screen: Screen, a: Seq<EffectView>, b: Seq<EffectView>)
    ensures
        screen.after_all(a + b) == screen.after_all(a).after_all(b),
    decreases b.len(),
{
    if b.len() == 0 {
        assert(a + b =~= a);
    } else {
        lemma_after_all_append(screen, a, b.drop_last());
        assert((a + b).drop_last() =~= a + b.drop_last());
    }
}

proof fn lemma_after_one(screen: Screen, x: EffectView)
    ensures
        screen.after_all(seq![x]) == screen.after(x),
{
    assert(seq![x].drop_last() =~= seq![]);
    assert(screen.after_all(seq![]) == screen);
}

proof fn lemma_after_two(screen: Screen, x: EffectView, y: EffectView)
    ensures
        screen.after_all(seq![x, y]) == screen.after(x).after(y),
{
    assert(seq![x, y].drop_last() =~= seq![x]);
    lemma_after_one(screen, x);
}

proof fn lemma_after_cleared(screen: Screen)
    ensures
        screen.after_all(crate::motion::cleared()) == (Screen {
            blinking: true,
            overlays: Seq::empty(),
            highlighted: None,
            ..screen
        }),
{
    let effects = crate::motion::cleared();
    assert(effects.drop_last() =~= seq![EffectView::EnableBlink, EffectView::ClearOverlays]);
    lemma_after_two(screen, EffectView::EnableBlink, EffectView::ClearOverlays);
}

/// Whether the screen fits a session that is or is not going on: a session
/// runs in easy motion mode with a resting cursor over faded text, and
/// without a session nothing of one is left on the text.
pub open spec fn fits(active: bool, screen: Screen) -> bool {
    if active {
        &&& screen.mode == Mode::EasyMotion
        &&& !screen.blinking
        &&& screen.highlighted is Some
    } else {
        &&& screen.overlays == Seq::<OverlayView>::empty()
        &&& screen.highlighted is None
    }
}

/// The labels that the host has, with their places on the display.
pub struct Labels {
    pub candidates: Seq<CandidateView>,
    pub len: int,
}

/// What may happen to the editors, while both exist.
pub enum Event {
    /// A command is invoked. `labels` are those of its matches, if there are
    /// any.
    Command {
        target: Target,
        direction: Direction,
        selection: Selection,
        max_point: DisplayPoint,
        labels: Option<Labels>,
    },
    /// A free key is typed into the labels, with the labels that are left.
    Key { res: TrimResult, labels: Labels },
    /// The session is cancelled.
    Cancel,
    /// Folds changed, and the labels have new places.
    Folds { labels: Labels },
}

impl Event {
    /// Whether the event is a command for rows that has no match.
    pub open spec fn is_row_command_without_match(self) -> bool {
        self matches Event::Command { target, labels, .. } && target is Rows && labels is None
    }
}

/// Whether there are labels, and what the user sees.
pub struct Session {
    pub active: bool,
    pub screen: Screen,
}

/// The search that the command for `target` asks for.
pub open spec fn search_for(
    target: Target,
    direction: Direction,
    handles: Handles,
) -> Option<Search> {
    match target {
        Target::Words(word_type) => crate::motion::word_search(word_type, direction, handles),
        Target::Rows => crate::motion::row_search(direction, handles),
    }
}

/// Effects of a whole command, from its invocation to the first labels.
pub open spec fn whole_command(
    mode: Mode,
    target: Target,
    direction: Direction,
    selection: Selection,
    max_point: DisplayPoint,
    labels: Option<Labels>,
) -> Seq<EffectView> {
    let handles = Handles { vim: Some(mode), editor: true };
    let search = search_for(target, direction, handles)->0;
    let started = crate::motion::command_effects(handles) + crate::motion::new_matches_effects(
        search,
        labels is Some,
    );
    match labels {
        Some(labels) => started + seq![
            crate::motion::labels_added(labels.candidates, labels.len),
            crate::motion::text_faded(direction, selection, max_point),
        ],
        None => started,
    }
}

/// Whether typing with result `res` ends the session.
pub open spec fn ends(res: TrimResult) -> bool {
    crate::motion::trim_outcome((), res) is Ended
}

/// Effects of a whole keystroke in a session.
pub open spec fn whole_key(res: TrimResult, labels: Labels) -> Seq<EffectView> {
    let trimmed = crate::motion::trim_effects(res);
    let drawn = if crate::motion::trim_outcome((), res) is Relabel {
        trimmed.push(crate::motion::labels_added(labels.candidates, labels.len))
    } else {
        trimmed
    };
    drawn + crate::motion::finish_effects(ends(res), true)
}

impl Session {
    /// Whether the event can happen: a command is not invoked in easy motion
    /// mode, and only there is one cancelled.
    pub open spec fn admits(self, event: Event) -> bool {
        match event {
            Event::Command { .. } => self.screen.mode != Mode::EasyMotion,
            Event::Cancel => self.screen.mode == Mode::EasyMotion,
            Event::Key { .. } | Event::Folds { .. } => true,
        }
    }

    /// The session after an event.
    pub open spec fn after(self, event: Event) -> Session {
        match event {
            Event::Command { target, direction, selection, max_point, labels } => Session {
                active: self.active || labels is Some,
                screen: self.screen.after_all(
                    whole_command(
                        self.screen.mode,
                        target,
                        direction,
                        selection,
                        max_point,
                        labels,
                    ),
                ),
            },
            Event::Key { res, labels } => if self.active {
                Session {
                    active: !ends(res),
                    screen: self.screen.after_all(whole_key(res, labels)),
                }
            } else {
                self
            },
            Event::Cancel => Session {
                active: false,
                screen: self.screen.after_all(
                    crate::motion::cancel_effects(
                        Handles { vim: Some(Mode::EasyMotion), editor: true },
                    ),
                ),
            },
            Event::Folds { labels } => if self.active {
                Session {
                    screen: self.screen.after_all(
                        crate::motion::refreshed(labels.candidates, labels.len),
                    ),
                    ..self
                }
            } else {
                self
            },
        }
    }

    /// Whether the events can happen one after the other.
    pub open spec fn admits_all(self, events: Seq<Event>) -> bool
        decreases events.len(),
    {
        events.len() > 0 ==> {
            &&& self.admits_all(events.drop_last())
            &&& self.after_all(events.drop_last()).admits(events.last())
        }
    }

    /// The session after events in order.
    pub open spec fn after_all(self, events: Seq<Event>) -> Session
        decreases events.len(),
    {
        if events.len() == 0 {
            self
        } else {
            self.after_all(events.drop_last()).after(events.last())
        }
    }

    /// Whether the screen fits the session.
    pub open spec fn in_order(self) -> bool {
        fits(self.active, self.screen)
    }

    /// Whether there is a session exactly in easy motion mode.
    pub open spec fn linked(self) -> bool {
        self.active <==> self.screen.mode == Mode::EasyMotion
    }
}

proof fn lemma_started(screen: Screen, search: Search, found: bool)
    ensures
        screen.after_all(
            crate::motion::command_effects(Handles { vim: Some(screen.mode), editor: true })
                + crate::motion::new_matches_effects(search, found),
        ) == (Screen {
            mode: match search.restore {
                Some(mode) if !found => mode,
                _ => Mode::EasyMotion,
            },
            blinking: false,
            ..screen
        }),
{
    let handles = Handles { vim: Some(screen.mode), editor: true };
    let a = crate::motion::command_effects(handles);
    let b = crate::motion::new_matches_effects(search, found);
    lemma_after_all_append(screen, a, b);
    lemma_after_one(screen, crate::motion::switch_to(Mode::EasyMotion));
    let switched = screen.after_all(a);
    lemma_after_two(switched, EffectView::DisableBlink, EffectView::HideCursor);
    if let Some(mode) = search.restore {
        if !found {
            assert(b.drop_last() =~= seq![EffectView::DisableBlink, EffectView::HideCursor]);
        }
    }
}

/// The screen after a whole command.
proof fn lemma_command(
    screen: Screen,
    target: Target,
    direction: Direction,
    selection: Selection,
    max_point: DisplayPoint,
    labels: Option<Labels>,
)
    ensures
        screen.after_all(
            whole_command(screen.mode, target, direction, selection, max_point, labels),
        ) == match labels {
            Some(some) => Screen {
                mode: Mode::EasyMotion,
                blinking: false,
                overlays: screen.overlays + crate::overlay::spec_overlays(some.candidates),
                highlighted: Some(faded_text(direction, selection, max_point)),
                ..screen
            },
            None => Screen {
                mode: if target is Words {
                    screen.mode
                } else {
                    Mode::EasyMotion
                },
                blinking: false,
                ..screen
            },
        },
{
    let handles = Handles { vim: Some(screen.mode), editor: true };
    let search = search_for(target, direction, handles)->0;
    lemma_started(screen, search, labels is Some);
    if let Some(some) = labels {
        let started = crate::motion::command_effects(handles)
            + crate::motion::new_matches_effects(search, true);
        let x = crate::motion::labels_added(some.candidates, some.len);
        let y = crate::motion::text_faded(direction, selection, max_point);
        lemma_after_all_append(screen, started, seq![x, y]);
        lemma_after_two(screen.after_all(started), x, y);
    }
}

/// A command without a match leaves nothing on the text and no session, and
/// moves no cursor. One for words leaves the mode as it was, one for rows
/// leaves easy motion mode.
pub proof fn command_without_match(
    session: Session,
    target: Target,
    direction: Direction,
    selection: Selection,
    max_point: DisplayPoint,
)
    requires
        session.in_order(),
        session.screen.mode != Mode::EasyMotion,
    ensures
        ({
            let after = session.after(
                Event::Command { target, direction, selection, max_point, labels: None },
            );
            &&& !after.active
            &&& after.in_order()
            &&& after.screen == (Screen {
                mode: if target is Words {
                    session.screen.mode
                } else {
                    Mode::EasyMotion
                },
                blinking: false,
                ..session.screen
            })
        }),
{
    lemma_command(session.screen, target, direction, selection, max_point, None);
}

/// A command with matches starts a session in easy motion mode: the labels
/// on the screen are exactly those of the matches that are not folded, in
/// order, the text that the command is about is faded, and no cursor moves.
pub proof fn command_with_matches(
    session: Session,
    target: Target,
    direction: Direction,
    selection: Selection,
    max_point: DisplayPoint,
    labels: Labels,
)
    requires
        session.in_order(),
        session.screen.mode != Mode::EasyMotion,
    ensures
        ({
            let after = session.after(
                Event::Command { target, direction, selection, max_point, labels: Some(labels) },
            );
            &&& after.active
            &&& after.in_order()
            &&& after.screen == (Screen {
                mode: Mode::EasyMotion,
                blinking: false,
                overlays: crate::overlay::spec_overlays(labels.candidates),
                highlighted: Some(faded_text(direction, selection, max_point)),
                ..session.screen
            })
        }),
{
    lemma_command(session.screen, target, direction, selection, max_point, Some(labels));
    let shown = crate::overlay::spec_overlays(labels.candidates);
    assert(Seq::<OverlayView>::empty() + shown =~= shown);
}

/// The screen after a whole keystroke.
proof fn lemma_key(screen: Screen, res: TrimResult, labels: Labels)
    ensures
        screen.after_all(whole_key(res, labels)) == match res {
            TrimResult::Found(overlay) => Screen {
                jumped: Some(overlay.offset as int),
                ..screen.session_over()
            },
            TrimResult::Error => screen.session_over(),
            TrimResult::Changed => Screen {
                overlays: crate::overlay::spec_overlays(labels.candidates),
                ..screen
            },
            TrimResult::NoChange => screen,
        },
{
    let normal = crate::motion::switch_to(Mode::Normal);
    let effects = whole_key(res, labels);
    match res {
        TrimResult::Found(overlay) => {
            let jump = EffectView::JumpTo {
                offset: overlay.offset as int,
                bias: crate::geometry::Bias::Right,
            };
            lemma_after_all_append(screen, seq![jump] + crate::motion::cleared(), seq![normal]);
            lemma_after_all_append(screen, seq![jump], crate::motion::cleared());
            lemma_after_one(screen, jump);
            lemma_after_cleared(screen.after(jump));
            lemma_after_one(screen.after(jump).after_all(crate::motion::cleared()), normal);
        },
        TrimResult::Error => {
            lemma_after_all_append(screen, crate::motion::cleared(), seq![normal]);
            lemma_after_cleared(screen);
            lemma_after_one(screen.after_all(crate::motion::cleared()), normal);
        },
        TrimResult::Changed => {
            let added = crate::motion::labels_added(labels.candidates, labels.len);
            assert(effects =~= seq![EffectView::ClearOverlays, added]);
            lemma_refreshed(screen, labels);
        },
        TrimResult::NoChange => {
            assert(effects =~= seq![]);
        },
    }
}

/// A key in a session: completing a label jumps to its offset and ends the
/// session, keys that fit no label end it without a jump, fewer labels replace
/// those on the screen, and no change leaves the screen alone. Ending returns
/// to normal mode with nothing left on the text and the cursor blinking.
pub proof fn key_in_session(session: Session, res: TrimResult, labels: Labels)
    requires
        session.in_order(),
        session.active,
    ensures
        ({
            let after = session.after(Event::Key { res, labels });
            let screen = session.screen;
            &&& after.in_order()
            &&& match res {
                TrimResult::Found(overlay) => !after.active && after.screen == (Screen {
                    jumped: Some(overlay.offset as int),
                    ..screen.session_over()
                }),
                TrimResult::Error => !after.active && after.screen == screen.session_over(),
                TrimResult::Changed => after.active && after.screen == (Screen {
                    overlays: crate::overlay::spec_overlays(labels.candidates),
                    ..screen
                }),
                TrimResult::NoChange => after == session,
            }
        }),
{
    lemma_key(session.screen, res, labels);
}

/// Cancelling returns to normal mode with no session, nothing left on the
/// text and the cursor blinking, and moves no cursor.
pub proof fn cancel_clears(session: Session)
    requires
        session.screen.mode == Mode::EasyMotion,
    ensures
        ({
            let after = session.after(Event::Cancel);
            &&& !after.active
            &&& after.in_order()
            &&& after.screen == session.screen.session_over()
        }),
{
    let normal = crate::motion::switch_to(Mode::Normal);
    lemma_after_all_append(session.screen, seq![normal], crate::motion::cleared());
    lemma_after_one(session.screen, normal);
    lemma_after_cleared(session.screen.after(normal));
}

/// The screen after the labels were drawn anew.
proof fn lemma_refreshed(screen: Screen, labels: Labels)
    ensures
        screen.after_all(crate::motion::refreshed(labels.candidates, labels.len)) == (Screen {
            overlays: crate::overlay::spec_overlays(labels.candidates),
            ..screen
        }),
{
    let added = crate::motion::labels_added(labels.candidates, labels.len);
    lemma_after_two(screen, EffectView::ClearOverlays, added);
    let shown = crate::overlay::spec_overlays(labels.candidates);
    assert(Seq::<OverlayView>::empty() + shown =~= shown);
}

/// A change of folds redraws the labels of a session where they now are, and
/// changes nothing else.
pub proof fn folds_redraw(session: Session, labels: Labels)
    requires
        session.in_order(),
    ensures
        session.after(Event::Folds { labels }).in_order(),
        session.after(Event::Folds { labels }) == if session.active {
            Session {
                screen: Screen {
                    overlays: crate::overlay::spec_overlays(labels.candidates),
                    ..session.screen
                },
                ..session
            }
        } else {
            session
        },
{
    lemma_refreshed(session.screen, labels);
}

/// Every event keeps the screen fitting the session.
pub proof fn event_keeps_order(session: Session, event: Event)
    requires
        session.in_order(),
        session.admits(event),
    ensures
        session.after(event).in_order(),
{
    match event {
        Event::Command { target, direction, selection, max_point, labels } => {
            match labels {
                Some(labels) => {
                    command_with_matches(
                        session,
                        target,
                        direction,
                        selection,
                        max_point,
                        labels,
                    );
                },
                None => {
                    command_without_match(session, target, direction, selection, max_point);
                },
            }
        },
        Event::Key { res, labels } => {
            if session.active {
                key_in_session(session, res, labels);
            }
        },
        Event::Cancel => {
            cancel_clears(session);
        },
        Event::Folds { labels } => {
            folds_redraw(session, labels);
        },
    }
}

/// Whatever happens, for as long as it happens, the screen fits the session:
/// with labels to type the editor is in easy motion mode, its cursor rests and
/// the text is faded; without, no label and no faded text is left.
pub proof fn session_stays_in_order(session: Session, events: Seq<Event>)
    requires
        session.in_order(),
        session.admits_all(events),
    ensures
        session.after_all(events).in_order(),
    decreases events.len(),
{
    if events.len() > 0 {
        session_stays_in_order(session, events.drop_last());
        event_keeps_order(session.after_all(events.drop_last()), events.last());
    }
}

/// Cancelling undoes a command that left easy motion mode behind, be it with
/// labels or, for rows, without a match: but for the mode, which is normal,
/// and the cursor, which blinks, the screen is as it was before the command.
pub proof fn cancel_undoes_command(
    session: Session,
    target: Target,
    direction: Direction,
    selection: Selection,
    max_point: DisplayPoint,
    labels: Option<Labels>,
)
    requires
        session.in_order(),
        session.screen.mode != Mode::EasyMotion,
        session.after(
            Event::Command { target, direction, selection, max_point, labels },
        ).admits(Event::Cancel),
    ensures
        session.after(
            Event::Command { target, direction, selection, max_point, labels },
        ).after(Event::Cancel) == (Session {
            active: false,
            screen: Screen { mode: Mode::Normal, blinking: true, ..session.screen },
        }),
{
    match labels {
        Some(some) => {
            command_with_matches(session, target, direction, selection, max_point, some);
        },
        None => {
            command_without_match(session, target, direction, selection, max_point);
        },
    }
    cancel_clears(
        session.after(Event::Command { target, direction, selection, max_point, labels }),
    );
}

/// A command for words keeps session and mode linked, with or without a
/// match: if before it there was a session exactly in easy motion mode, then
/// after it there is.
pub proof fn word_command_keeps_link(
    session: Session,
    word_type: WordType,
    direction: Direction,
    selection: Selection,
    max_point: DisplayPoint,
    labels: Option<Labels>,
)
    requires
        session.linked(),
        session.screen.mode != Mode::EasyMotion,
    ensures
        ({
            let after = session.after(
                Event::Command {
                    target: Target::Words(word_type),
                    direction,
                    selection,
                    max_point,
                    labels,
                },
            );
            &&& after.linked()
            &&& after.active <==> labels is Some
        }),
{
    lemma_command(
        session.screen,
        Target::Words(word_type),
        direction,
        selection,
        max_point,
        labels,
    );
}

/// Every event keeps session and mode linked, but for a command for rows
/// without a match, which leaves easy motion mode without a session.
pub proof fn event_keeps_link(session: Session, event: Event)
    requires
        session.linked(),
        session.admits(event),
        !event.is_row_command_without_match(),
    ensures
        session.after(event).linked(),
{
    match event {
        Event::Command { target, direction, selection, max_point, labels } => {
            lemma_command(session.screen, target, direction, selection, max_point, labels);
        },
        Event::Key { res, labels } => {
            if session.active {
                lemma_key(session.screen, res, labels);
            }
        },
        Event::Cancel => {
            cancel_clears(session);
        },
        Event::Folds { labels } => {
            lemma_refreshed(session.screen, labels);
        },
    }
}

/// Whatever happens, for as long as no command for rows is without a match,
/// there is a session exactly in easy motion mode.
pub proof fn session_stays_linked(session: Session, events: Seq<Event>)
    requires
        session.linked(),
        session.admits_all(events),
        forall|i: int|
            0 <= i < events.len() ==> !(#[trigger] events[i]).is_row_command_without_match(),
    ensures
        session.after_all(events).linked(),
    decreases events.len(),
{
    if events.len() > 0 {
        let rest = events.drop_last();
        assert forall|i: int| 0 <= i < rest.len() implies !(
        #[trigger] rest[i]).is_row_command_without_match() by {
            assert(rest[i] == events[i]);
        }
        session_stays_linked(session, rest);
        assert(!events[events.len() - 1].is_row_command_without_match());
        event_keeps_link(session.after_all(rest), events.last());
    }
}

/// What events have drawn for the session that is going on.
pub struct Drawn {
    /// The candidates of the last event that drew labels.
    pub candidates: Seq<CandidateView>,
    /// The text that the command which started the session faded.
    pub highlighted: Highlighted,
}

/// What is drawn after one more event, `None` standing for no session.
pub open spec fn drawn_after(drawn: Option<Drawn>, event: Event) -> Option<Drawn> {
    match event {
        Event::Command { direction, selection, max_point, labels: Some(labels), .. } => Some(
            Drawn {
                candidates: labels.candidates,
                highlighted: faded_text(direction, selection, max_point),
            },
        ),
        Event::Command { labels: None, .. } => drawn,
        Event::Key { res, labels } => match drawn {
            Some(shown) => match res {
                TrimResult::Found(_) | TrimResult::Error => None,
                TrimResult::Changed => Some(Drawn { candidates: labels.candidates, ..shown }),
                TrimResult::NoChange => drawn,
            },
            None => None,
        },
        Event::Cancel => None,
        Event::Folds { labels } => match drawn {
            Some(shown) => Some(Drawn { candidates: labels.candidates, ..shown }),
            None => None,
        },
    }
}

/// What is drawn after events in order.
pub open spec fn drawn_after_all(drawn: Option<Drawn>, events: Seq<Event>) -> Option<Drawn>
    decreases events.len(),
{
    if events.len() == 0 {
        drawn
    } else {
        drawn_after(drawn_after_all(drawn, events.drop_last()), events.last())
    }
}

impl Session {
    /// Whether the session shows exactly what is drawn: the labels of the
    /// candidates that are not folded, and the faded text. Where nothing is
    /// drawn there is no session.
    pub open spec fn shows(self, drawn: Option<Drawn>) -> bool {
        &&& self.in_order()
        &&& self.active <==> drawn is Some
        &&& drawn matches Some(shown) ==> {
            &&& self.screen.overlays == crate::overlay::spec_overlays(shown.candidates)
            &&& self.screen.highlighted == Some(shown.highlighted)
        }
    }
}

/// Every event leaves the session showing what has been drawn last.
pub proof fn event_keeps_shown(session: Session, drawn: Option<Drawn>, event: Event)
    requires
        session.shows(drawn),
        session.admits(event),
    ensures
        session.after(event).shows(drawn_after(drawn, event)),
{
    match event {
        Event::Command { target, direction, selection, max_point, labels } => match labels {
            Some(some) => {
                command_with_matches(session, target, direction, selection, max_point, some);
            },
            None => {
                command_without_match(session, target, direction, selection, max_point);
            },
        },
        Event::Key { res, labels } => {
            if session.active {
                key_in_session(session, res, labels);
            }
        },
        Event::Cancel => {
            cancel_clears(session);
        },
        Event::Folds { labels } => {
            folds_redraw(session, labels);
        },
    }
}

/// Whatever happens, for as long as a session goes on, the labels on the
/// screen are exactly those of the candidates that the last event to draw
/// labels had and that were not folded, in order, and the highlighted text and
/// its style are those of the command that started the session. Without a
/// session neither is on the screen.
pub proof fn session_shows_what_was_drawn(
    session: Session,
    drawn: Option<Drawn>,
    events: Seq<Event>,
)
    requires
        session.shows(drawn),
        session.admits_all(events),
    ensures
        session.after_all(events).shows(drawn_after_all(drawn, events)),
    decreases events.len(),
{
    if events.len() > 0 {
        let rest = events.drop_last();
        session_shows_what_was_drawn(session, drawn, rest);
        event_keeps_shown(
            session.after_all(rest),
            drawn_after_all(drawn, rest),
            events.last(),
        );
    }
}

} // verus!
