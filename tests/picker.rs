use television::picker::Picker;

fn picker_at(selected: usize, relative: usize) -> Picker {
    let mut picker = Picker::default();
    picker.select(Some(selected));
    picker.relative_select(Some(relative));
    picker
}

#[test]
fn test_picker_select_next_default() {
    let mut picker = Picker::default();
    picker.select(Some(0));
    picker.relative_select(Some(0));
    picker.select_next(4, 2);
    assert_eq!(picker.selected(), Some(1), "selected");
    assert_eq!(picker.relative_selected(), Some(1), "relative_selected");
}

#[test]
fn test_picker_select_next_before_relative_last() {
    let mut picker = Picker::default();
    picker.select(Some(1));
    picker.relative_select(Some(1));
    picker.select_next(4, 2);
    assert_eq!(picker.selected(), Some(2), "selected");
    assert_eq!(picker.relative_selected(), Some(2), "relative_selected");
}

#[test]
fn test_picker_select_next_relative_last() {
    let mut picker = Picker::default();
    picker.select(Some(2));
    picker.relative_select(Some(2));
    picker.select_next(4, 2);
    assert_eq!(picker.selected(), Some(3), "selected");
    assert_eq!(picker.relative_selected(), Some(2), "relative_selected");
}

#[test]
fn test_picker_select_next_last() {
    let mut picker = Picker::default();
    picker.select(Some(3));
    picker.relative_select(Some(2));
    picker.select_next(4, 2);
    assert_eq!(picker.selected(), Some(0), "selected");
    assert_eq!(picker.relative_selected(), Some(0), "relative_selected");
}

#[test]
fn test_picker_select_next_less_items_than_height_last() {
    let mut picker = Picker::default();
    picker.select(Some(2));
    picker.relative_select(Some(2));
    picker.select_next(3, 2);
    assert_eq!(picker.selected(), Some(0), "selected");
    assert_eq!(picker.relative_selected(), Some(0), "relative_selected");
}

#[test]
fn test_picker_select_prev_default() {
    let mut picker = Picker::default();
    picker.select(Some(1));
    picker.relative_select(Some(1));
    picker.select_prev(4, 2);
    assert_eq!(picker.selected(), Some(0), "selected");
    assert_eq!(picker.relative_selected(), Some(0), "relative_selected");
}

#[test]
fn test_picker_select_prev_first() {
    let mut picker = Picker::default();
    picker.select(Some(0));
    picker.relative_select(Some(0));
    picker.select_prev(4, 2);
    assert_eq!(picker.selected(), Some(3), "selected");
    assert_eq!(picker.relative_selected(), Some(2), "relative_selected");
}

#[test]
fn test_picker_select_prev_relative_trailing() {
    let mut picker = Picker::default();
    picker.select(Some(3));
    picker.relative_select(Some(2));
    picker.select_prev(4, 2);
    assert_eq!(picker.selected(), Some(2), "selected");
    assert_eq!(picker.relative_selected(), Some(1), "relative_selected");
}

#[test]
fn test_picker_select_prev_relative_sync() {
    let mut picker = Picker::default();
    picker.select(Some(2));
    picker.relative_select(Some(2));
    picker.select_prev(4, 2);
    assert_eq!(picker.selected(), Some(1), "selected");
    assert_eq!(picker.relative_selected(), Some(1), "relative_selected");
}

#[test]
fn test_picker_offset_default() {
    let picker = Picker::default();
    assert_eq!(picker.offset(), 0, "offset");
}

#[test]
fn test_picker_offset_none() {
    let mut picker = Picker::default();
    picker.select(None);
    picker.relative_select(None);
    assert_eq!(picker.offset(), 0, "offset");
}

#[test]
fn test_picker_offset() {
    let mut picker = Picker::default();
    picker.select(Some(1));
    picker.relative_select(Some(2));
    assert_eq!(picker.offset(), 0, "offset");
}

#[test]
fn test_picker_inverted() {
    let mut picker = Picker::default();
    picker.select(Some(0));
    picker.relative_select(Some(0));
    picker.select_next(4, 2);
    picker = picker.inverted();
    picker.select_next(4, 2);
    assert!(picker.inverted, "inverted");
    assert_eq!(picker.selected(), Some(0), "selected");
    assert_eq!(picker.relative_selected(), Some(0), "relative_selected");
}

#[test]
fn new_picker_selects_nothing() {
    let picker = Picker::new();
    assert_eq!(picker.selected(), None);
    assert_eq!(picker.relative_selected(), None);
    assert!(!picker.inverted);
    assert_eq!(picker.input.value(), "");
}

#[test]
fn wrap_forward_from_last_pins_top_whatever_the_window() {
    for relative in [0usize, 1, 5, usize::MAX] {
        for height in [0usize, 1, 2, 10] {
            let mut picker = picker_at(6, relative);
            picker.select_next(7, height);
            assert_eq!(picker.selected(), Some(0));
            assert_eq!(picker.relative_selected(), Some(0));
        }
    }
}

#[test]
fn wrap_backward_from_first_pins_bottom() {
    for height in [0usize, 1, 2, 10] {
        let mut picker = picker_at(0, 0);
        picker.select_prev(7, height);
        assert_eq!(picker.selected(), Some(6));
        assert_eq!(picker.relative_selected(), Some(height));
    }
}

#[test]
fn relative_stays_in_window_over_a_walk() {
    let (n, h) = (9usize, 3usize);
    let mut picker = picker_at(0, 0);
    for step in 0..40 {
        if step % 3 == 0 {
            picker.select_prev(n, h);
        } else {
            picker.select_next(n, h);
        }
        let s = picker.selected().unwrap();
        let r = picker.relative_selected().unwrap();
        assert!(s < n);
        assert!(r <= h);
        assert!(picker.offset() <= s);
        assert_eq!(picker.offset(), s - r.min(s));
    }
}

#[test]
fn relative_outside_window_is_not_pulled_back_by_prev() {
    let mut picker = picker_at(2, 5);
    picker.select_prev(4, 2);
    assert_eq!(picker.selected(), Some(1));
    assert_eq!(picker.relative_selected(), Some(4));
}

#[test]
fn single_row_window_keeps_relative_at_zero() {
    let mut picker = picker_at(0, 0);
    for _ in 0..5 {
        picker.select_next(4, 0);
        assert_eq!(picker.relative_selected(), Some(0));
    }
    picker.select_prev(4, 0);
    assert_eq!(picker.relative_selected(), Some(0));
}

#[test]
fn single_item_list() {
    let mut picker = picker_at(0, 0);
    picker.select_next(1, 2);
    assert_eq!((picker.selected(), picker.relative_selected()), (Some(0), Some(0)));
    picker.select_prev(1, 2);
    assert_eq!((picker.selected(), picker.relative_selected()), (Some(0), Some(2)));
}

#[test]
fn empty_list_leaves_cursors_alone() {
    let mut picker = picker_at(3, 1);
    picker.select_next(0, 2);
    assert_eq!((picker.selected(), picker.relative_selected()), (Some(3), Some(1)));
    picker.select_prev(0, 2);
    assert_eq!((picker.selected(), picker.relative_selected()), (Some(3), Some(1)));
    let mut unset = Picker::default();
    unset.select_next(0, 2);
    assert_eq!((unset.selected(), unset.relative_selected()), (None, None));
}

#[test]
fn unset_cursors_count_as_zero() {
    let mut picker = Picker::default();
    picker.select_next(4, 2);
    assert_eq!((picker.selected(), picker.relative_selected()), (Some(1), Some(1)));
    let mut picker = Picker::default();
    picker.select_prev(4, 2);
    assert_eq!((picker.selected(), picker.relative_selected()), (Some(3), Some(2)));
}

#[test]
fn list_shrunk_below_selection() {
    let mut picker = picker_at(10, 2);
    picker.select_next(4, 2);
    assert_eq!((picker.selected(), picker.relative_selected()), (Some(3), Some(2)));
    let mut picker = picker_at(10, 2);
    picker.select_prev(4, 2);
    assert_eq!((picker.selected(), picker.relative_selected()), (Some(1), Some(1)));
}

#[test]
fn largest_selection_does_not_overflow() {
    let mut picker = picker_at(usize::MAX, usize::MAX);
    picker.select_next(usize::MAX, usize::MAX);
    assert_eq!((picker.selected(), picker.relative_selected()), (Some(1), Some(usize::MAX)));
    let mut picker = picker_at(usize::MAX, usize::MAX);
    picker.select_prev(10, 3);
    assert_eq!(picker.selected(), Some(4));
    assert_eq!(picker.relative_selected(), Some(usize::MAX - 1));
}

#[test]
fn inverted_next_is_prev_and_prev_is_next() {
    for (s, r) in [(0usize, 0usize), (1, 1), (2, 2), (3, 2)] {
        let mut inverted = picker_at(s, r).inverted();
        let mut plain = picker_at(s, r);
        inverted.select_next(4, 2);
        plain.select_prev(4, 2);
        assert_eq!(inverted.selected(), plain.selected());
        assert_eq!(inverted.relative_selected(), plain.relative_selected());

        let mut inverted = picker_at(s, r).inverted();
        let mut plain = picker_at(s, r);
        inverted.select_prev(4, 2);
        plain.select_next(4, 2);
        assert_eq!(inverted.selected(), plain.selected());
        assert_eq!(inverted.relative_selected(), plain.relative_selected());
    }
}

#[test]
fn inverting_twice_restores_orientation() {
    let picker = picker_at(2, 1).inverted().inverted();
    assert!(!picker.inverted);
    assert_eq!((picker.selected(), picker.relative_selected()), (Some(2), Some(1)));
}

#[test]
fn reset_selection_from_any_state() {
    for (s, r) in [(None, None), (Some(7), Some(3)), (Some(0), None), (None, Some(9))] {
        let mut picker = Picker::default();
        picker.select(s);
        picker.relative_select(r);
        picker.reset_selection();
        assert_eq!((picker.selected(), picker.relative_selected()), (Some(0), Some(0)));
        picker.reset_selection();
        assert_eq!((picker.selected(), picker.relative_selected()), (Some(0), Some(0)));
    }
}

#[test]
fn scenario_walk_four_items_height_two() {
    let mut picker = picker_at(0, 0);
    picker.select_next(4, 2);
    assert_eq!((picker.selected(), picker.relative_selected()), (Some(1), Some(1)));
    let mut picker = picker_at(2, 2);
    picker.select_next(4, 2);
    assert_eq!((picker.selected(), picker.relative_selected()), (Some(3), Some(2)));
    picker.select_next(4, 2);
    assert_eq!((picker.selected(), picker.relative_selected()), (Some(0), Some(0)));
    picker.select_prev(4, 2);
    assert_eq!((picker.selected(), picker.relative_selected()), (Some(3), Some(2)));
    let mut picker = picker_at(2, 2);
    picker.select_prev(4, 2);
    assert_eq!((picker.selected(), picker.relative_selected()), (Some(1), Some(1)));
}

#[test]
fn offset_is_selection_less_relative() {
    assert_eq!(picker_at(7, 2).offset(), 5);
    assert_eq!(picker_at(3, 3).offset(), 0);
    let mut picker = Picker::default();
    picker.select(Some(6));
    assert_eq!(picker.offset(), 6);
    let mut picker = Picker::default();
    picker.relative_select(Some(6));
    assert_eq!(picker.offset(), 0);
}

#[test]
fn reset_input_empties_query_and_keeps_cursors() {
    let mut picker = picker_at(2, 1);
    picker.input = television::input::Input::new("abc".to_string());
    picker.reset_input();
    assert_eq!(picker.input.value(), "");
    assert_eq!(picker.input.cursor(), 0);
    assert_eq!((picker.selected(), picker.relative_selected()), (Some(2), Some(1)));
}
