use fuzzy_matcher::skim::SkimMatcherV2;
use fuzzy_matcher::FuzzyMatcher;
use picker::frame::TextStyle;
use picker::graphics::Rect;
use picker::input::{
    Action, Command, Direction, Event, KeyCode, KeyEvent, KeyModifiers, Outcome,
};
use picker::item::{Item, Span};
use picker::picker::Picker;

const NONE: KeyModifiers = KeyModifiers { shift: false, control: false, alt: false };
const SHIFT: KeyModifiers = KeyModifiers { shift: true, control: false, alt: false };
const CONTROL: KeyModifiers = KeyModifiers { shift: false, control: true, alt: false };

fn named(name: &str) -> Item<String, ()> {
    Item {
        value: name.to_string(),
        label: vec![Span { content: name.to_string(), style: () }],
        filter_text: name.to_string(),
        sort_text: name.to_string(),
    }
}

fn names(names: &[&str]) -> Vec<Item<String, ()>> {
    names.iter().map(|name| named(name)).collect()
}

fn key(code: KeyCode, modifiers: KeyModifiers) -> Event {
    Event::Key(KeyEvent { code, modifiers })
}

fn area(width: u16, height: u16) -> Rect {
    Rect { x: 0, y: 0, width, height }
}

fn shown<T, S>(picker: &Picker<T, S>) -> Vec<usize> {
    picker.render(area(40, 60)).rows.iter().map(|row| row.option).collect()
}

fn count<T, S>(picker: &Picker<T, S>) -> String {
    picker.render(area(40, 60)).count
}

fn typed(picker: &mut Picker<String, ()>, line: &str) {
    picker.prompt_handle_event(true, line.to_string());
}

#[test]
fn all_options_match_at_first() {
    let picker = Picker::new(names(&["ccc", "a", "bb"]));
    assert_eq!(shown(&picker), vec![0, 1, 2]);
    assert_eq!(count(&picker), "3/3");
    assert_eq!(picker.selection().unwrap(), "ccc");
    assert!(picker.truncate_start);
    assert!(picker.shows_preview());
    assert_eq!(picker.line(), "");
}

#[test]
fn typing_filters_and_ranks() {
    let mut picker = Picker::new(names(&["xaxb", "ab", "zzz", "abc"]));
    typed(&mut picker, "ab");
    assert_eq!(shown(&picker), vec![1, 3, 0]);
    assert_eq!(count(&picker), "3/4");
    assert_eq!(picker.selection().unwrap(), "ab");
}

#[test]
fn narrowing_is_the_same_as_matching_anew() {
    let options = || names(&["alpha", "alpine", "beta", "alp", "ALPS", "zalp"]);
    let mut narrowed = Picker::new(options());
    typed(&mut narrowed, "a");
    typed(&mut narrowed, "al");
    typed(&mut narrowed, "alp");
    let mut anew = Picker::new(options());
    typed(&mut anew, "x");
    typed(&mut anew, "alp");
    assert_eq!(shown(&narrowed), shown(&anew));
    assert_eq!(count(&narrowed), "5/6");
}

#[test]
fn clearing_the_prompt_lists_all_in_order() {
    let mut picker = Picker::new(names(&["ccc", "a", "bb"]));
    typed(&mut picker, "b");
    assert_eq!(shown(&picker), vec![2]);
    typed(&mut picker, "");
    assert_eq!(shown(&picker), vec![0, 1, 2]);
}

#[test]
fn forced_scoring_of_an_empty_prompt_sorts_by_length() {
    let mut picker = Picker::new(names(&["ccc", "a", "bb"]));
    picker.force_score();
    assert_eq!(shown(&picker), vec![1, 2, 0]);
}

#[test]
fn unchanged_prompt_keeps_the_cursor() {
    let mut picker = Picker::new(names(&["ab", "abc", "abcd"]));
    typed(&mut picker, "ab");
    picker.move_by(2, Direction::Forward);
    picker.score();
    assert_eq!(picker.selection().unwrap(), "abcd");
    typed(&mut picker, "abc");
    assert_eq!(picker.selection().unwrap(), "abc");
}

#[test]
fn prompt_that_ignores_an_event_changes_no_match() {
    let mut picker = Picker::new(names(&["a", "b"]));
    let outcome = picker.prompt_handle_event(false, "b".to_string());
    assert_eq!(
        outcome,
        Outcome { consumed: true, reset_idle_timer: false, command: Command::Nothing }
    );
    assert_eq!(shown(&picker), vec![0, 1]);
    picker.score();
    assert_eq!(shown(&picker), vec![1]);
}

fn entry(prefix: &str, filter: &str, sort: &str) -> Item<u32, u8> {
    Item {
        value: 5,
        label: vec![
            Span { content: prefix.to_string(), style: 1 },
            Span { content: filter.to_string(), style: 2 },
        ],
        filter_text: filter.to_string(),
        sort_text: sort.to_string(),
    }
}

#[test]
fn narrowing_goes_by_the_sort_text() {
    let mut picker = Picker::new(vec![entry("> ", "foo", "bar"), entry("> ", "bar", "foo")]);
    picker.prompt_handle_event(true, "b".to_string());
    assert_eq!(shown(&picker), vec![0]);
    picker.prompt_handle_event(true, "x".to_string());
    assert_eq!(shown(&picker), Vec::<usize>::new());
    picker.prompt_handle_event(true, "b".to_string());
    assert_eq!(shown(&picker), vec![1]);
}

#[test]
fn picker_keeps_its_matcher() {
    let mut picker = Picker::new(names(&["aaa", "a/aa", "aaaa"]));
    picker.prompt_handle_event(true, "aaa".to_string());
    let skim = SkimMatcherV2::default();
    let scores: Vec<i64> = ["aaa", "a/aa", "aaaa"]
        .iter()
        .map(|text| skim.fuzzy_match(text, "aaa").unwrap())
        .collect();
    assert!(scores[2] > scores[0]);
    let order = shown(&picker);
    let place = |option: usize| order.iter().position(|shown| *shown == option).unwrap();
    assert!(place(2) < place(0));
}

#[test]
fn labels_are_highlighted_as_a_whole() {
    let mut picker = Picker::new(vec![entry("f:", "foo", "foo")]);
    picker.prompt_handle_event(true, "fo".to_string());
    let frame = picker.render(area(40, 10));
    let row = &frame.rows[0];
    assert_eq!(row.label.len(), 2);
    assert_eq!(row.label[0].content, "f:");
    assert_eq!(row.label[1].style, 2);
    assert_eq!(row.highlights, vec![2, 3]);
    assert_eq!(row.style_at(2), TextStyle::Highlighted);
    assert_eq!(row.style_at(0), TextStyle::Selected);
}

#[test]
fn empty_prompt_highlights_nothing() {
    let picker = Picker::new(names(&["src/ranking.rs", ""]));
    let frame = picker.render(area(60, 12));
    assert_eq!(frame.rows.len(), 2);
    for row in frame.rows.iter() {
        assert!(row.highlights.is_empty());
        assert_eq!(row.style_at(5) == TextStyle::Selected, row.is_active);
    }
}

#[test]
fn areas_off_the_screen_cannot_be_drawn_in() {
    let mut picker = Picker::new(names(&["src/ranking.rs", "r"]));
    picker.prompt_handle_event(true, "r".to_string());
    assert!(picker.can_render(area(60, 12)));
    assert!(picker.can_render(area(0, 0)));
    assert!(picker.can_render(area(u16::MAX, u16::MAX)));
    assert!(!picker.can_render(Rect { x: 1, y: 0, width: u16::MAX, height: 9 }));
    assert!(!picker.can_render(Rect { x: 0, y: 65530, width: 9, height: 6 }));
    assert!(!picker.can_render(Rect { x: 0, y: u16::MAX, width: 9, height: 0 }));
    assert!(picker.can_render(Rect { x: 0, y: 65530, width: 9, height: 5 }));
}

#[test]
fn highlights_are_positions_of_the_label() {
    let mut picker = Picker::new(names(&["src/ranking.rs", "r", "tests/r_k.rs"]));
    picker.prompt_handle_event(true, "r".to_string());
    let frame = picker.render(area(60, 12));
    assert_eq!(frame.rows.len(), 3);
    for row in frame.rows.iter() {
        let len: usize = row.label.iter().map(|span| span.content.chars().count()).sum();
        assert_eq!(row.highlights.len(), 1);
        assert!(row.highlights.iter().all(|at| *at < len));
    }
    picker.prompt_handle_event(true, "rk".to_string());
    let frame = picker.render(area(60, 12));
    assert_eq!(frame.rows.len(), 2);
    for row in frame.rows.iter() {
        let len: usize = row.label.iter().map(|span| span.content.chars().count()).sum();
        assert!(row.highlights.windows(2).all(|pair| pair[0] < pair[1]));
        assert!(row.highlights.iter().all(|at| *at < len));
    }
}

#[test]
fn steps_wrap_around() {
    let mut picker = Picker::new(names(&["a", "b", "c"]));
    picker.move_by(1, Direction::Backward);
    assert_eq!(picker.selection().unwrap(), "c");
    picker.move_by(1, Direction::Forward);
    assert_eq!(picker.selection().unwrap(), "a");
    picker.move_by(4, Direction::Forward);
    assert_eq!(picker.selection().unwrap(), "b");
    picker.move_by(4, Direction::Backward);
    assert_eq!(picker.selection().unwrap(), "a");
}

#[test]
fn opposite_moves_cancel() {
    for amount in 0..=3 {
        for start in 0..3 {
            let mut picker = Picker::new(names(&["a", "b", "c"]));
            picker.move_by(start, Direction::Forward);
            let before = picker.selection().unwrap().clone();
            picker.move_by(amount, Direction::Forward);
            picker.move_by(amount, Direction::Backward);
            assert_eq!(picker.selection().unwrap(), &before);
            picker.move_by(amount, Direction::Backward);
            picker.move_by(amount, Direction::Forward);
            assert_eq!(picker.selection().unwrap(), &before);
            picker.move_by(3, Direction::Backward);
            assert_eq!(picker.selection().unwrap(), &before);
        }
    }
}

#[test]
fn page_moved_is_as_long_as_page_shown() {
    let mut picker = Picker::new(names(&["a", "b", "c", "d", "e", "f", "g", "h"]));
    picker.required_size((40, 7));
    let first = picker.render(area(40, 7));
    assert_eq!(first.rows.len(), 3);
    assert_eq!(first.rows[0].option, 0);
    picker.page_up();
    let second = picker.render(area(40, 7));
    assert_eq!(second.rows.len(), 3);
    assert_eq!(second.rows[0].option, 3);
    picker.page_up();
    let last = picker.render(area(40, 7));
    assert_eq!(last.rows.len(), 2);
    assert_eq!(last.rows[0].option, 6);
}

#[test]
fn large_moves_stop_short() {
    let mut picker = Picker::new(names(&["a", "b", "c"]));
    picker.move_by(1, Direction::Forward);
    picker.move_by(7, Direction::Forward);
    assert_eq!(picker.selection().unwrap(), "c");
    picker.move_by(7, Direction::Backward);
    assert_eq!(picker.selection().unwrap(), "a");
    picker.move_by(1, Direction::Forward);
    picker.move_by(usize::MAX, Direction::Forward);
    let expected = ["a", "b", "c"][usize::MAX % 3];
    assert_eq!(picker.selection().unwrap(), expected);
}

#[test]
fn empty_list_has_no_selection() {
    let mut picker = Picker::new(names(&[]));
    picker.move_by(1, Direction::Forward);
    picker.to_end();
    assert_eq!(picker.selection(), None);
    assert!(!picker.has_selection());
    assert_eq!(
        picker.handle_event(key(KeyCode::Enter, NONE)).command,
        Command::Accept { option: None, action: Action::Replace }
    );
}

#[test]
fn pages_follow_the_height() {
    let options: Vec<Item<String, ()>> = (0..10).map(|i| named(&format!("{}", i))).collect();
    let mut picker = Picker::new(options);
    assert_eq!(picker.required_size((80, 7)), Some((80, 7)));
    picker.page_up();
    assert_eq!(picker.selection().unwrap(), "3");
    picker.page_down();
    picker.page_down();
    assert_eq!(picker.selection().unwrap(), "7");
    picker.page_up();
    assert_eq!(picker.selection().unwrap(), "0");
    assert_eq!(picker.required_size((80, 2)), Some((80, 2)));
    picker.page_up();
    assert_eq!(picker.selection().unwrap(), "0");
}

#[test]
fn pages_wrap_around() {
    let mut picker = Picker::new(names(&["a", "b", "c"]));
    picker.required_size((80, 5));
    picker.page_up();
    assert_eq!(picker.selection().unwrap(), "b");
    picker.page_up();
    picker.page_up();
    assert_eq!(picker.selection().unwrap(), "a");
    picker.page_down();
    assert_eq!(picker.selection().unwrap(), "c");
}

#[test]
fn start_and_end() {
    let mut picker = Picker::new(names(&["a", "b", "c"]));
    picker.to_end();
    assert_eq!(picker.selection().unwrap(), "c");
    picker.to_start();
    assert_eq!(picker.selection().unwrap(), "a");
}

#[test]
fn keys_move_the_cursor() {
    let mut picker = Picker::new(names(&["a", "b", "c"]));
    picker.required_size((80, 6));
    let moves = [
        (key(KeyCode::Tab, NONE), "b"),
        (key(KeyCode::Down, NONE), "c"),
        (key(KeyCode::Char('n'), CONTROL), "a"),
        (key(KeyCode::Tab, SHIFT), "c"),
        (key(KeyCode::Up, NONE), "b"),
        (key(KeyCode::Char('p'), CONTROL), "a"),
        (key(KeyCode::PageDown, NONE), "b"),
        (key(KeyCode::Char('d'), CONTROL), "c"),
        (key(KeyCode::PageUp, NONE), "b"),
        (key(KeyCode::Char('u'), CONTROL), "a"),
        (key(KeyCode::End, NONE), "c"),
        (key(KeyCode::Home, NONE), "a"),
    ];
    for (event, expected) in moves {
        let outcome = picker.handle_event(event);
        assert_eq!(
            outcome,
            Outcome { consumed: true, reset_idle_timer: true, command: Command::Nothing }
        );
        assert_eq!(picker.selection().unwrap(), expected);
    }
}

#[test]
fn keys_open_and_close() {
    let mut picker = Picker::new(names(&["a", "b"]));
    picker.move_by(1, Direction::Forward);
    let option = Some(1);
    let commands = [
        (key(KeyCode::Esc, NONE), Command::Close),
        (key(KeyCode::Char('c'), CONTROL), Command::Close),
        (key(KeyCode::Enter, NONE), Command::Accept { option, action: Action::Replace }),
        (
            key(KeyCode::Char('s'), CONTROL),
            Command::Accept { option, action: Action::HorizontalSplit },
        ),
        (
            key(KeyCode::Char('v'), CONTROL),
            Command::Accept { option, action: Action::VerticalSplit },
        ),
        (key(KeyCode::Char('x'), NONE), Command::Prompt),
        (key(KeyCode::Char('s'), NONE), Command::Prompt),
        (key(KeyCode::Enter, CONTROL), Command::Prompt),
        (key(KeyCode::Up, SHIFT), Command::Prompt),
        (key(KeyCode::Other, NONE), Command::Prompt),
    ];
    for (event, command) in commands {
        let outcome = picker.handle_event(event);
        assert_eq!(outcome, Outcome { consumed: true, reset_idle_timer: true, command });
    }
    assert_eq!(picker.option(1).unwrap(), "b");
    assert_eq!(picker.option(2), None);
}

#[test]
fn preview_is_toggled() {
    let mut picker = Picker::new(names(&["a"]));
    picker.handle_event(key(KeyCode::Char('t'), CONTROL));
    assert!(!picker.shows_preview());
    picker.toggle_preview();
    assert!(picker.shows_preview());
}

#[test]
fn other_events() {
    let mut picker = Picker::new(names(&["a"]));
    let answer = |consumed, command| Outcome { consumed, reset_idle_timer: false, command };
    assert_eq!(picker.handle_event(Event::Paste), answer(true, Command::Prompt));
    assert_eq!(picker.handle_event(Event::Resize(3, 4)), answer(true, Command::Nothing));
    assert_eq!(picker.handle_event(Event::IdleTimeout), answer(false, Command::Nothing));
    assert_eq!(picker.handle_event(Event::Other), answer(false, Command::Nothing));
}

#[test]
fn layout() {
    let mut picker = Picker::new(names(&["a", "b", "c", "d", "e"]));
    picker.move_by(3, Direction::Forward);
    let frame = picker.render(Rect { x: 10, y: 5, width: 30, height: 6 });
    assert_eq!(frame.area, Rect { x: 10, y: 5, width: 30, height: 6 });
    assert_eq!(frame.prompt, Rect { x: 12, y: 6, width: 27, height: 1 });
    assert_eq!(frame.count, "5/5");
    assert_eq!((frame.count_x, frame.count_y, frame.count_width), (35, 6, 3));
    assert_eq!(frame.separator_y, 7);
    assert_eq!((frame.separator_start, frame.separator_end), (11, 39));
    assert_eq!(frame.marker_x, 11);
    assert_eq!(frame.rows.len(), 2);
    assert_eq!(frame.rows[0].option, 2);
    assert!(!frame.rows[0].is_active);
    assert_eq!(frame.rows[1].option, 3);
    assert!(frame.rows[1].is_active);
    assert_eq!(frame.rows[1].area, Rect { x: 14, y: 9, width: 25, height: 1 });
    assert_eq!(picker.cursor(area(30, 6)), Rect { x: 2, y: 1, width: 27, height: 1 });
}

#[test]
fn tiny_areas_show_no_rows() {
    let picker = Picker::new(names(&["a", "b"]));
    for height in 0..5 {
        for width in 0..5 {
            let frame = picker.render(area(width, height));
            assert!(frame.rows.is_empty());
        }
    }
    assert_eq!(picker.render(area(1, 5)).rows.len(), 1);
}

#[test]
fn spans_share_a_row() {
    let row = Rect { x: 4, y: 2, width: 10, height: 1 };
    assert_eq!(
        picker::frame::after_span(row, 7),
        Rect { x: 7, y: 2, width: 7, height: 1 }
    );
    assert_eq!(
        picker::frame::after_span(row, 20),
        Rect { x: 14, y: 2, width: 0, height: 1 }
    );
}
