use amp_extras::selection::{selection_state, cursor_selection, visual_bounds, visual_selection, Mark, VisualBounds};

#[test]
fn unset_mark_gives_no_selection() {
    assert_eq!(visual_bounds(Mark { row: 0, col: 0 }, Mark { row: 2, col: 1 }, false, None, None), None);
}

#[test]
fn marks_are_ordered() {
    let b = visual_bounds(Mark { row: 5, col: 3 }, Mark { row: 2, col: 7 }, false, None, None).unwrap();
    assert_eq!(b, VisualBounds { start_row: 2, start_col: 7, end_row: 5, end_col: 3 });
    let b = visual_bounds(Mark { row: 2, col: 9 }, Mark { row: 2, col: 1 }, false, None, None).unwrap();
    assert_eq!(b, VisualBounds { start_row: 2, start_col: 1, end_row: 2, end_col: 9 });
}

#[test]
fn linewise_selection_spans_whole_lines() {
    let b = visual_bounds(Mark { row: 1, col: 4 }, Mark { row: 3, col: 2 }, true, Some(10), Some(17)).unwrap();
    assert_eq!(b, VisualBounds { start_row: 1, start_col: 0, end_row: 3, end_col: 17 });
}

#[test]
fn selections_are_zero_indexed() {
    let c = cursor_selection("file:///a", Mark { row: 1, col: 0 });
    assert_eq!((c.start_line, c.start_char, c.end_line, c.end_char), (0, 0, 0, 0));
    assert_eq!(c.content, "");
    let v = visual_selection(
        "file:///a",
        VisualBounds { start_row: 2, start_col: 1, end_row: 3, end_col: 4 },
        &vec!["bc".to_string(), "defgh".to_string()],
    );
    assert_eq!((v.start_line, v.start_char, v.end_line, v.end_char), (1, 1, 2, 4));
    assert_eq!(v.content, "bc\ndefgh");
}

#[test]
fn selection_state_from_editor_values() {
    let lines = vec!["fn main() {".to_string(), "    let x = 1;".to_string(), "}".to_string()];
    assert!(selection_state("", "file:///x", false, false, Mark { row: 0, col: 0 }, Mark { row: 0, col: 0 }, Mark { row: 1, col: 0 }, &lines).is_none());
    let c = selection_state("/p/a.rs", "file:///p/a.rs", false, false, Mark { row: 0, col: 0 }, Mark { row: 0, col: 0 }, Mark { row: 2, col: 4 }, &lines).unwrap();
    assert_eq!((c.start_line, c.start_char, c.end_line, c.end_char), (1, 4, 1, 4));
    assert_eq!(c.content, "");
    let v = selection_state("/p/a.rs", "file:///p/a.rs", true, false, Mark { row: 2, col: 8 }, Mark { row: 1, col: 3 }, Mark { row: 1, col: 0 }, &lines).unwrap();
    assert_eq!((v.start_line, v.start_char, v.end_line, v.end_char), (0, 3, 1, 8));
    assert_eq!(v.content, "main() {\n    let x");
    let l = selection_state("/p/a.rs", "file:///p/a.rs", true, true, Mark { row: 2, col: 5 }, Mark { row: 3, col: 0 }, Mark { row: 1, col: 0 }, &lines).unwrap();
    assert_eq!((l.start_line, l.start_char, l.end_line, l.end_char), (1, 0, 2, 1));
    assert_eq!(l.content, "    let x = 1;\n}");
    let unset = selection_state("/p/a.rs", "file:///p/a.rs", true, false, Mark { row: 0, col: 0 }, Mark { row: 2, col: 1 }, Mark { row: 3, col: 0 }, &lines).unwrap();
    assert_eq!((unset.start_line, unset.start_char), (2, 0));
}
