use menuforge::LineLayout;
use menuforge::LineMarker;
use menuforge::Select;

fn layout(line: u16, menu: u16, index: usize, len: usize) -> LineLayout {
    Select::line_layout(line, menu, index, len)
}

#[test]
fn cursor_at_top_of_long_list() {
    assert_eq!(layout(0, 9, 0, 21), LineLayout { marker: LineMarker::Selected, entry: Some(0) });
    assert_eq!(layout(1, 9, 0, 21), LineLayout { marker: LineMarker::Empty, entry: Some(1) });
    assert_eq!(layout(8, 9, 0, 21), LineLayout { marker: LineMarker::Bottom, entry: Some(8) });
}

#[test]
fn cursor_in_middle_stays_on_middle_line() {
    assert_eq!(layout(4, 9, 10, 21), LineLayout { marker: LineMarker::Selected, entry: Some(10) });
    assert_eq!(layout(0, 9, 10, 21), LineLayout { marker: LineMarker::Top, entry: Some(6) });
    assert_eq!(layout(8, 9, 10, 21), LineLayout { marker: LineMarker::Bottom, entry: Some(14) });
    assert_eq!(layout(3, 9, 10, 21), LineLayout { marker: LineMarker::Empty, entry: Some(9) });
}

#[test]
fn cursor_near_end_of_list() {
    assert_eq!(layout(8, 9, 20, 21), LineLayout { marker: LineMarker::Selected, entry: Some(20) });
    assert_eq!(layout(0, 9, 20, 21), LineLayout { marker: LineMarker::Top, entry: Some(12) });
    assert_eq!(layout(6, 9, 18, 21), LineLayout { marker: LineMarker::Selected, entry: Some(18) });
    assert_eq!(layout(8, 9, 18, 21), LineLayout { marker: LineMarker::Empty, entry: Some(20) });
}

#[test]
fn even_menu_at_the_last_centred_position() {
    // 12 lines, cursor on entry 15 of 21: the window starts at 9 and ends at the list's end
    assert_eq!(layout(6, 12, 15, 21), LineLayout { marker: LineMarker::Selected, entry: Some(15) });
    assert_eq!(layout(0, 12, 15, 21), LineLayout { marker: LineMarker::Top, entry: Some(9) });
    assert_eq!(layout(11, 12, 15, 21), LineLayout { marker: LineMarker::Empty, entry: Some(20) });
    // one entry higher, one entry is hidden below
    assert_eq!(layout(11, 12, 14, 21), LineLayout { marker: LineMarker::Bottom, entry: Some(19) });
    assert_eq!(layout(6, 12, 14, 21), LineLayout { marker: LineMarker::Selected, entry: Some(14) });
}

#[test]
fn short_list_leaves_lines_blank() {
    assert_eq!(layout(1, 9, 1, 3), LineLayout { marker: LineMarker::Selected, entry: Some(1) });
    assert_eq!(layout(0, 9, 1, 3), LineLayout { marker: LineMarker::Empty, entry: Some(0) });
    assert_eq!(layout(3, 9, 1, 3), LineLayout { marker: LineMarker::Empty, entry: None });
    assert_eq!(layout(8, 9, 1, 3), LineLayout { marker: LineMarker::Empty, entry: None });
}

#[test]
fn empty_list() {
    assert_eq!(layout(0, 9, 0, 0), LineLayout { marker: LineMarker::Selected, entry: None });
    assert_eq!(layout(5, 9, 0, 0), LineLayout { marker: LineMarker::Empty, entry: None });
}

#[test]
fn one_line_menu_shows_the_cursor_entry() {
    for index in 0..5 {
        assert_eq!(layout(0, 1, index, 5), LineLayout { marker: LineMarker::Selected, entry: Some(index) });
    }
}

#[test]
fn exactly_one_selected_line_showing_the_cursor_entry() {
    for menu in 1u16..8 {
        for len in 1usize..15 {
            for index in 0..len {
                let mut selected = 0;
                let mut shown = 0;
                let mut previous: Option<usize> = None;
                for line in 0..menu {
                    let l = layout(line, menu, index, len);
                    if l.marker == LineMarker::Selected {
                        selected += 1;
                        assert_eq!(l.entry, Some(index));
                    } else {
                        assert_ne!(l.entry, Some(index));
                    }
                    if let Some(e) = l.entry {
                        shown += 1;
                        if let Some(p) = previous {
                            assert_eq!(e, p + 1);
                        }
                        previous = Some(e);
                    }
                }
                assert_eq!(selected, 1);
                assert_eq!(shown, std::cmp::min(len, menu as usize));
            }
        }
    }
}

#[test]
fn window_moves_by_at_most_one_line() {
    let start = |index: usize| layout(0, 7, index, 30).entry.unwrap();
    for index in 0..29 {
        let d = start(index + 1) - start(index);
        assert!(d == 0 || d == 1);
    }
}

#[test]
fn marker_texts_are_three_wide() {
    assert_eq!(LineMarker::Selected.text(), " > ");
    assert_eq!(LineMarker::Empty.text(), "   ");
    assert_eq!(LineMarker::Top.text(), " ^ ");
    assert_eq!(LineMarker::Bottom.text(), " v ");
    assert_eq!(LineMarker::Top.text(), format!(" {} ", menuforge::UP_ARROW));
    assert_eq!(LineMarker::Bottom.text(), format!(" {} ", menuforge::DOWN_ARROW));
}

#[test]
fn unicode_marker_texts() {
    assert_eq!(LineMarker::Selected.unicode_text(), " > ");
    assert_eq!(LineMarker::Empty.unicode_text(), "   ");
    assert_eq!(LineMarker::Top.unicode_text(), " \u{2191} ");
    assert_eq!(LineMarker::Bottom.unicode_text(), " \u{2193} ");
    assert_eq!(LineMarker::Top.unicode_text(), format!(" {} ", menuforge::UNICODE_UP_ARROW));
    assert_eq!(LineMarker::Bottom.unicode_text(), format!(" {} ", menuforge::UNICODE_DOWN_ARROW));
    assert_eq!(LineMarker::Top.unicode_text().chars().count(), 3);
}
