use easy_motion::action::{Direction, FullWord, Row, Target, Word, WordType};
use easy_motion::effect::{Effect, HighlightKey, Mode};
use easy_motion::geometry::{Bias, DisplayPoint, DisplayRow, Selection};
use easy_motion::motion::{
    add_overlays, handle_new_matches, handle_trim, plan_labels, refresh_overlays, EasyMotion,
    EditorEvent, Handles, KeystrokeEvent, LabelPlan, Labelling, Recording, Search, TrimResult,
    Trimmed,
};
use easy_motion::overlay::{overlays, Candidate, Overlay, OverlayState};
use easy_motion::settings::{EasyMotionContent, EasyMotionSettings, SettingsContent};
use easy_motion::style::{
    get_highlights, Float32, HighlightStyle, Hsla, LabelStyles, Theme,
};

fn point(row: u32, column: u32) -> DisplayPoint {
    DisplayPoint::new(DisplayRow(row), column)
}

fn color(bits: u32) -> Hsla {
    let part = Float32 { bits };
    Hsla { h: part, s: part, l: part, a: part }
}

fn switch(mode: Mode) -> Effect {
    Effect::SwitchMode { mode, leave_selections: false }
}

fn alive(mode: Mode) -> Handles {
    Handles { vim: Some(mode), editor: true }
}

fn clearing() -> Vec<Effect> {
    vec![
        Effect::EnableBlink,
        Effect::ClearOverlays,
        Effect::ClearHighlights { key: HighlightKey::EasyMotion },
    ]
}

fn theme() -> Theme {
    Theme {
        player_cursors: vec![color(1), color(2), color(3), color(4)],
        background: color(5),
    }
}

fn settings() -> EasyMotionSettings {
    EasyMotionSettings { enabled: true, keys: "asdf".to_string() }
}

fn selection() -> Selection {
    Selection { start: point(2, 0), end: point(2, 5) }
}

fn plan(direction: Direction) -> LabelPlan {
    let labelling = Labelling { matches: vec![point(1, 1), point(3, 0)], direction };
    plan_labels(labelling, selection(), &settings(), &theme())
}

fn candidates() -> Vec<Candidate> {
    let overlay = OverlayState { style: HighlightStyle::default(), offset: 12 };
    vec![
        Candidate { seq: "a".to_string(), overlay, folded: false, point: point(1, 1) },
        Candidate { seq: "sd".to_string(), overlay, folded: true, point: point(3, 0) },
    ]
}

fn free_key(key: &str) -> KeystrokeEvent {
    KeystrokeEvent { has_action: false, has_pending_keystrokes: false, key: key.to_string() }
}

/// What a user sees, for running effects.
#[derive(Clone, Debug, PartialEq)]
struct Seen {
    mode: Mode,
    blinking: bool,
    overlays: Vec<Overlay>,
    highlighted: bool,
    jumped: Option<usize>,
}

fn perform(seen: &mut Seen, effects: Vec<Effect>) {
    for effect in effects {
        match effect {
            Effect::SwitchMode { mode, .. } => seen.mode = mode,
            Effect::DisableBlink => seen.blinking = false,
            Effect::EnableBlink => seen.blinking = true,
            Effect::HideCursor => {}
            Effect::ClearOverlays => seen.overlays.clear(),
            Effect::AddOverlays { overlays, .. } => seen.overlays.extend(overlays),
            Effect::HighlightText { .. } => seen.highlighted = true,
            Effect::ClearHighlights { .. } => seen.highlighted = false,
            Effect::JumpTo { offset, .. } => seen.jumped = Some(offset),
        }
    }
}

fn idle(mode: Mode) -> Seen {
    Seen { mode, blinking: true, overlays: vec![], highlighted: false, jumped: None }
}

fn start(motion: &mut EasyMotion<&'static str>, seen: &mut Seen) {
    let (effects, search) = motion.word(&Word(Direction::Both), alive(seen.mode));
    perform(seen, effects);
    let (effects, labelling) = handle_new_matches(search.unwrap(), vec![point(1, 1), point(3, 0)]);
    perform(seen, effects);
    let plan = plan_labels(labelling.unwrap(), selection(), &settings(), &theme());
    perform(seen, motion.show_matches("labels", &candidates(), 2, &plan, point(9, 0)));
}

fn press(motion: &mut EasyMotion<&'static str>, seen: &mut Seen, res: TrimResult) {
    let recording = motion.observe_keystrokes(&free_key("a"), true).unwrap();
    let (effects, trimmed) = handle_trim(recording.selection, res);
    perform(seen, effects);
    if let Trimmed::Relabel(_) = &trimmed {
        perform(seen, vec![add_overlays(&candidates(), 2)]);
    }
    perform(seen, motion.finish_keystroke(trimmed, true));
}

#[test]
fn new_has_no_session() {
    let motion: EasyMotion<u8> = EasyMotion::new();
    assert_eq!(motion.state, None);
    assert_eq!(format!("{:?}", motion), "EasyMotion { state: None }");
    assert_eq!(format!("{:?}", EasyMotion { state: Some(3) }), "EasyMotion { state: Some(3) }");
}

#[test]
fn word_searches_and_remembers_the_mode() {
    let motion: EasyMotion<u8> = EasyMotion::new();
    let (effects, search) = motion.word(&Word(Direction::Forwards), alive(Mode::Other(4)));
    assert_eq!(effects, vec![switch(Mode::EasyMotion)]);
    assert_eq!(
        search,
        Some(Search {
            target: Target::Words(WordType::Word),
            direction: Direction::Forwards,
            restore: Some(Mode::Other(4)),
        })
    );
}

#[test]
fn word_impl_searches_either_type_of_word() {
    let motion: EasyMotion<u8> = EasyMotion::new();
    for word_type in [WordType::Word, WordType::FullWord] {
        let (effects, search) =
            motion.word_impl(word_type, Direction::Both, alive(Mode::Other(9)));
        assert_eq!(effects, vec![switch(Mode::EasyMotion)]);
        assert_eq!(
            search,
            Some(Search {
                target: Target::Words(word_type),
                direction: Direction::Both,
                restore: Some(Mode::Other(9)),
            })
        );
    }
    let gone = Handles { vim: None, editor: true };
    assert_eq!(motion.word_impl(WordType::Word, Direction::Both, gone), (vec![], None));
}

#[test]
fn full_word_searches_full_words() {
    let motion: EasyMotion<u8> = EasyMotion::new();
    let (effects, search) = motion.full_word(&FullWord(Direction::Backwards), alive(Mode::Normal));
    assert_eq!(effects, vec![switch(Mode::EasyMotion)]);
    assert_eq!(
        search,
        Some(Search {
            target: Target::Words(WordType::FullWord),
            direction: Direction::Backwards,
            restore: Some(Mode::Normal),
        })
    );
}

#[test]
fn row_searches_rows_without_a_mode_to_restore() {
    let motion: EasyMotion<u8> = EasyMotion::new();
    let (effects, search) = motion.row(&Row(Direction::Both), alive(Mode::Normal));
    assert_eq!(effects, vec![switch(Mode::EasyMotion)]);
    assert_eq!(
        search,
        Some(Search { target: Target::Rows, direction: Direction::Both, restore: None })
    );
}

#[test]
fn commands_do_nothing_once_an_editor_is_gone() {
    let mut motion: EasyMotion<u8> = EasyMotion { state: Some(1) };
    let no_vim = Handles { vim: None, editor: true };
    let no_editor = Handles { vim: Some(Mode::Normal), editor: false };
    for handles in [no_vim, no_editor] {
        assert_eq!(motion.word(&Word(Direction::Both), handles), (vec![], None));
        assert_eq!(motion.full_word(&FullWord(Direction::Both), handles), (vec![], None));
        assert_eq!(motion.row(&Row(Direction::Both), handles), (vec![], None));
        assert_eq!(motion.cancel(handles), vec![]);
        assert_eq!(motion.state, Some(1));
    }
}

#[test]
fn matches_are_labelled() {
    let search =
        Search { target: Target::Rows, direction: Direction::Forwards, restore: Some(Mode::Normal) };
    let (effects, labelling) = handle_new_matches(search, vec![point(1, 1)]);
    assert_eq!(effects, vec![Effect::DisableBlink, Effect::HideCursor]);
    assert_eq!(
        labelling,
        Some(Labelling { matches: vec![point(1, 1)], direction: Direction::Forwards })
    );
}

#[test]
fn without_matches_words_restore_the_mode_and_rows_do_not() {
    let words = Search {
        target: Target::Words(WordType::Word),
        direction: Direction::Both,
        restore: Some(Mode::Other(2)),
    };
    assert_eq!(
        handle_new_matches(words, vec![]),
        (vec![Effect::DisableBlink, Effect::HideCursor, switch(Mode::Other(2))], None)
    );
    let rows = Search { target: Target::Rows, direction: Direction::Both, restore: None };
    assert_eq!(
        handle_new_matches(rows, vec![]),
        (vec![Effect::DisableBlink, Effect::HideCursor], None)
    );
}

#[test]
fn labels_are_planned_from_selection_settings_and_theme() {
    assert_eq!(
        plan(Direction::Backwards),
        LabelPlan {
            matches: vec![point(1, 1), point(3, 0)],
            origin: point(2, 0),
            keys: "asdf".to_string(),
            styles: get_highlights(&theme()),
            direction: Direction::Backwards,
            selection: selection(),
        }
    );
    let LabelStyles { second, .. } = plan(Direction::Both).styles;
    assert_eq!(second.color.unwrap().h, Float32 { bits: 3 });
    assert_eq!(second.color.unwrap().s, Float32 { bits: 1.0f32.to_bits() });
}

#[test]
fn showing_matches_draws_labels_and_fades_text() {
    let mut motion: EasyMotion<u8> = EasyMotion::new();
    let effects =
        motion.show_matches(8, &candidates(), 2, &plan(Direction::Backwards), point(9, 0));
    assert_eq!(motion.state, Some(8));
    assert_eq!(
        effects,
        vec![
            Effect::AddOverlays { overlays: overlays(&candidates()), reserve: 2 },
            Effect::HighlightText {
                key: HighlightKey::EasyMotion,
                start: point(0, 0),
                end: point(2, 5),
                bias: Bias::Left,
                style: HighlightStyle {
                    fade_out: Some(Float32 { bits: 0.7f32.to_bits() }),
                    ..HighlightStyle::default()
                },
            },
        ]
    );
}

#[test]
fn free_keystrokes_take_the_labels() {
    let mut motion = EasyMotion { state: Some(5u8) };
    let recording = motion.observe_keystrokes(&free_key("j"), true);
    assert_eq!(recording, Some(Recording { selection: 5, keys: "j".to_string() }));
    assert_eq!(motion.state, None);
    assert_eq!(motion.observe_keystrokes(&free_key("j"), true), None);
}

#[test]
fn bound_and_pending_keystrokes_are_left_alone() {
    let mut motion = EasyMotion { state: Some(5u8) };
    let bound = KeystrokeEvent { has_action: true, ..free_key("j") };
    let pending = KeystrokeEvent { has_pending_keystrokes: true, ..free_key("j") };
    assert_eq!(motion.observe_keystrokes(&bound, true), None);
    assert_eq!(motion.observe_keystrokes(&pending, true), None);
    assert_eq!(motion.state, Some(5));
}

#[test]
fn keystroke_without_editor_drops_the_session() {
    let mut motion = EasyMotion { state: Some(5u8) };
    assert_eq!(motion.observe_keystrokes(&free_key("j"), false), None);
    assert_eq!(motion.state, None);
}

#[test]
fn found_label_is_jumped_to() {
    let overlay = OverlayState { style: HighlightStyle::default(), offset: 31 };
    let (effects, trimmed) = handle_trim(1u8, TrimResult::Found(overlay));
    let mut expected = vec![Effect::JumpTo { offset: 31, bias: Bias::Right }];
    expected.extend(clearing());
    assert_eq!(effects, expected);
    assert_eq!(trimmed, Trimmed::Ended);
}

#[test]
fn other_trim_results() {
    assert_eq!(
        handle_trim(1u8, TrimResult::Changed),
        (vec![Effect::ClearOverlays], Trimmed::Relabel(1))
    );
    assert_eq!(handle_trim(1u8, TrimResult::Error), (clearing(), Trimmed::Ended));
    assert_eq!(handle_trim(1u8, TrimResult::NoChange), (vec![], Trimmed::Kept(1)));
}

#[test]
fn finishing_a_keystroke() {
    let mut motion: EasyMotion<u8> = EasyMotion::new();
    assert_eq!(motion.finish_keystroke(Trimmed::Ended, true), vec![switch(Mode::Normal)]);
    assert_eq!(motion.finish_keystroke(Trimmed::Ended, false), vec![]);
    assert_eq!(motion.state, None);
    assert_eq!(motion.finish_keystroke(Trimmed::Relabel(4), true), vec![]);
    assert_eq!(motion.state, Some(4));
    assert_eq!(motion.finish_keystroke(Trimmed::Kept(6), true), vec![]);
    assert_eq!(motion.state, Some(6));
}

#[test]
fn cancel_clears_everything() {
    let mut motion = EasyMotion { state: Some(5u8) };
    let mut expected = vec![switch(Mode::Normal)];
    expected.extend(clearing());
    assert_eq!(motion.cancel(alive(Mode::EasyMotion)), expected);
    assert_eq!(motion.state, None);
}

#[test]
fn only_fold_events_redraw_a_session() {
    let motion = EasyMotion { state: Some(5u8) };
    assert_eq!(motion.update_overlays(EditorEvent::Fold), Some(&5));
    assert_eq!(motion.update_overlays(EditorEvent::UnFold), Some(&5));
    assert_eq!(motion.update_overlays(EditorEvent::Other), None);
    let none: EasyMotion<u8> = EasyMotion::new();
    assert_eq!(none.update_overlays(EditorEvent::Fold), None);
    assert_eq!(
        refresh_overlays(&candidates(), 2),
        vec![
            Effect::ClearOverlays,
            Effect::AddOverlays { overlays: overlays(&candidates()), reserve: 2 },
        ]
    );
}

#[test]
fn cancelling_undoes_a_command() {
    let mut motion = EasyMotion::new();
    let mut seen = idle(Mode::Other(1));
    start(&mut motion, &mut seen);
    assert_eq!(seen.mode, Mode::EasyMotion);
    assert!(!seen.blinking);
    assert!(seen.highlighted);
    assert_eq!(seen.overlays, overlays(&candidates()));
    perform(&mut seen, motion.cancel(alive(Mode::EasyMotion)));
    assert_eq!(seen, idle(Mode::Normal));
    assert_eq!(motion.state, None);
}

#[test]
fn cancelling_undoes_a_row_command_without_a_match() {
    let mut motion: EasyMotion<u8> = EasyMotion::new();
    let mut seen = idle(Mode::Other(3));
    let (effects, search) = motion.row(&Row(Direction::Both), alive(seen.mode));
    perform(&mut seen, effects);
    let (effects, labelling) = handle_new_matches(search.unwrap(), vec![]);
    perform(&mut seen, effects);
    assert_eq!(labelling, None);
    assert_eq!(seen, Seen { blinking: false, ..idle(Mode::EasyMotion) });
    let effects = motion.cancel(alive(seen.mode));
    perform(&mut seen, effects);
    assert_eq!(seen, idle(Mode::Normal));
    assert_eq!(motion.state, None);
}

#[test]
fn word_commands_link_session_and_mode() {
    let mut motion: EasyMotion<&'static str> = EasyMotion::new();
    let mut seen = idle(Mode::Other(3));
    let (effects, search) = motion.word(&Word(Direction::Both), alive(seen.mode));
    perform(&mut seen, effects);
    let (effects, _) = handle_new_matches(search.unwrap(), vec![]);
    perform(&mut seen, effects);
    assert_eq!((motion.state, seen.mode), (None, Mode::Other(3)));
    start(&mut motion, &mut seen);
    assert_eq!((motion.state, seen.mode), (Some("labels"), Mode::EasyMotion));
}

#[test]
fn a_session_ends_with_a_jump() {
    let mut motion = EasyMotion::new();
    let mut seen = idle(Mode::Normal);
    start(&mut motion, &mut seen);
    let started = seen.clone();
    press(&mut motion, &mut seen, TrimResult::NoChange);
    assert_eq!(seen, started);
    press(&mut motion, &mut seen, TrimResult::Changed);
    assert_eq!(seen, started);
    assert_eq!(motion.state, Some("labels"));
    let overlay = OverlayState { style: HighlightStyle::default(), offset: 12 };
    press(&mut motion, &mut seen, TrimResult::Found(overlay));
    assert_eq!(seen, Seen { jumped: Some(12), ..idle(Mode::Normal) });
    assert_eq!(motion.state, None);
}

#[test]
fn a_wrong_key_ends_a_session_without_a_jump() {
    let mut motion = EasyMotion::new();
    let mut seen = idle(Mode::Other(7));
    start(&mut motion, &mut seen);
    press(&mut motion, &mut seen, TrimResult::Error);
    assert_eq!(seen, idle(Mode::Normal));
    assert_eq!(motion.state, None);
}

#[test]
fn folding_redraws_only_the_labels() {
    let mut motion = EasyMotion::new();
    let mut seen = idle(Mode::Normal);
    start(&mut motion, &mut seen);
    let started = seen.clone();
    let unfolded: Vec<Candidate> =
        candidates().into_iter().map(|c| Candidate { folded: false, ..c }).collect();
    assert_eq!(motion.update_overlays(EditorEvent::UnFold), Some(&"labels"));
    perform(&mut seen, refresh_overlays(&unfolded, 2));
    assert_eq!(seen.overlays.len(), 2);
    assert_eq!(seen, Seen { overlays: overlays(&unfolded), ..started });
}

#[test]
fn the_screen_shows_what_was_drawn_last() {
    let mut motion = EasyMotion::new();
    let mut seen = idle(Mode::Normal);
    start(&mut motion, &mut seen);
    let narrowed: Vec<Candidate> = candidates().into_iter().take(1).collect();
    let recording = motion.observe_keystrokes(&free_key("s"), true).unwrap();
    let (effects, trimmed) = handle_trim(recording.selection, TrimResult::Changed);
    perform(&mut seen, effects);
    perform(&mut seen, vec![add_overlays(&narrowed, 1)]);
    perform(&mut seen, motion.finish_keystroke(trimmed, true));
    assert_eq!(seen.overlays, overlays(&narrowed));
    let folded: Vec<Candidate> =
        narrowed.into_iter().map(|c| Candidate { folded: true, ..c }).collect();
    perform(&mut seen, refresh_overlays(&folded, 1));
    assert_eq!(seen.overlays, vec![]);
    assert!(seen.highlighted);
    assert_eq!(motion.state, Some("labels"));
    perform(&mut seen, motion.cancel(alive(Mode::EasyMotion)));
    assert_eq!(seen, idle(Mode::Normal));
}

#[test]
fn settings_are_read_from_complete_content() {
    let content = SettingsContent {
        easy_motion: Some(EasyMotionContent {
            enabled: Some(false),
            keys: Some("jkl".to_string()),
        }),
    };
    assert_eq!(
        EasyMotionSettings::from_settings(&content),
        EasyMotionSettings { enabled: false, keys: "jkl".to_string() }
    );
}
