use text_widgets::{
    button_location, edit_location, label_location, left_button_location, AlignedTextLocation,
    Region, TextAlignment,
};

const ALL_ALIGNMENTS: [TextAlignment; 9] = [
    TextAlignment::LeftUp,
    TextAlignment::LeftCenter,
    TextAlignment::LeftDown,
    TextAlignment::CenterUp,
    TextAlignment::Center,
    TextAlignment::CenterDown,
    TextAlignment::RightUp,
    TextAlignment::RightCenter,
    TextAlignment::RightDown,
];

fn location(alignment: TextAlignment) -> AlignedTextLocation {
    AlignedTextLocation::new(Region::new(10, 20, 110, 40), alignment, false)
}

#[test]
fn narrow_text_is_drawn_unscaled_at_full_height() {
    let r = location(TextAlignment::LeftDown).get_current_region(40);
    assert_eq!(r, Region::new(10, 20, 50, 40));
    assert_eq!(r.get_width(), 40);
    assert_eq!(r.get_height(), 20);
}

#[test]
fn horizontal_alignment_splits_the_leftover_width() {
    assert_eq!(location(TextAlignment::LeftCenter).get_current_region(40), Region::new(10, 20, 50, 40));
    assert_eq!(location(TextAlignment::Center).get_current_region(40), Region::new(40, 20, 80, 40));
    assert_eq!(location(TextAlignment::RightCenter).get_current_region(40), Region::new(70, 20, 110, 40));
}

#[test]
fn centring_rounds_the_offset_down() {
    assert_eq!(location(TextAlignment::Center).get_current_region(41), Region::new(39, 20, 80, 40));
}

#[test]
fn wide_text_is_shrunk_to_the_box_width() {
    let r = location(TextAlignment::LeftDown).get_current_region(200);
    assert_eq!(r, Region::new(10, 20, 110, 30));
}

#[test]
fn up_keeps_the_vertical_leftover_below_the_text() {
    assert_eq!(location(TextAlignment::CenterUp).get_current_region(200), Region::new(10, 30, 110, 40));
    assert_eq!(location(TextAlignment::Center).get_current_region(200), Region::new(10, 25, 110, 35));
    assert_eq!(location(TextAlignment::CenterDown).get_current_region(200), Region::new(10, 20, 110, 30));
}

#[test]
fn shrunk_height_rounds_down() {
    // 20 * 100 / 300 = 6.67
    let r = location(TextAlignment::LeftDown).get_current_region(300);
    assert_eq!(r, Region::new(10, 20, 110, 26));
}

#[test]
fn empty_text_gives_a_zero_width_box() {
    assert_eq!(location(TextAlignment::LeftUp).get_current_region(0), Region::new(10, 20, 10, 40));
    assert_eq!(location(TextAlignment::Center).get_current_region(0), Region::new(60, 20, 60, 40));
    assert_eq!(location(TextAlignment::RightDown).get_current_region(0), Region::new(110, 20, 110, 40));
}

#[test]
fn drawn_box_stays_inside_the_maximum_box() {
    let max = Region::new(-50, 7, 33, 91);
    for alignment in ALL_ALIGNMENTS {
        for width in [0u32, 1, 17, 82, 83, 84, 500, u32::MAX] {
            let r = AlignedTextLocation::new(max, alignment, true).get_current_region(width);
            assert!(max.min_x <= r.min_x && r.max_x <= max.max_x, "{:?} {}", alignment, width);
            assert!(max.min_y <= r.min_y && r.max_y <= max.max_y, "{:?} {}", alignment, width);
            assert!(r.min_x <= r.max_x && r.min_y <= r.max_y);
        }
    }
}

#[test]
fn fitting_text_keeps_natural_width_and_full_height() {
    let max = Region::new(0, 0, 300, 64);
    for alignment in ALL_ALIGNMENTS {
        for width in [0u32, 1, 150, 299, 300] {
            let r = AlignedTextLocation::new(max, alignment, false).get_current_region(width);
            assert_eq!(r.get_width(), width);
            assert_eq!(r.get_height(), 64);
        }
    }
}

#[test]
fn wide_text_keeps_its_aspect_ratio() {
    let max = Region::new(0, 0, 300, 64);
    for alignment in ALL_ALIGNMENTS {
        for width in [301u32, 450, 600, 1000, 77777] {
            let r = AlignedTextLocation::new(max, alignment, false).get_current_region(width);
            assert_eq!(r.get_width(), 300);
            let h = r.get_height() as f64;
            let expected = 64.0 * 300.0 / width as f64;
            assert!(h <= expected && expected < h + 1.0);
        }
    }
}

#[test]
fn repeated_calls_give_the_same_box() {
    let loc = location(TextAlignment::RightUp);
    let first = loc.get_current_region(123);
    for _ in 0..10 {
        assert_eq!(loc.get_current_region(123), first);
    }
    let other = AlignedTextLocation::new(Region::new(10, 20, 110, 40), TextAlignment::RightUp, true);
    assert_eq!(other.get_current_region(123), first);
}

#[test]
fn largest_boxes_do_not_overflow() {
    let max = Region::new(i32::MIN, i32::MIN, i32::MAX, i32::MAX);
    let r = AlignedTextLocation::new(max, TextAlignment::Center, false).get_current_region(u32::MAX);
    assert_eq!(r.min_x, i32::MIN);
    assert_eq!(r.max_x, i32::MAX);
    let r = AlignedTextLocation::new(max, TextAlignment::RightUp, false).get_current_region(10);
    assert_eq!(r.max_x, i32::MAX);
    assert_eq!(r.max_y, i32::MAX);
}

#[test]
fn preset_locations() {
    let max = Region::new(0, 0, 10, 10);
    let l = label_location(max, TextAlignment::RightDown);
    assert_eq!(l.alignment, TextAlignment::RightDown);
    assert!(!l.should_clear_remaining());
    assert_eq!(button_location(max).alignment, TextAlignment::Center);
    assert!(!button_location(max).should_clear_remaining());
    assert_eq!(left_button_location(max).alignment, TextAlignment::LeftCenter);
    assert!(!left_button_location(max).should_clear_remaining());
    assert_eq!(edit_location(max).alignment, TextAlignment::LeftCenter);
    assert!(edit_location(max).should_clear_remaining());
    assert_eq!(edit_location(max).get_max_region(), max);
}

#[test]
fn region_point_tests_include_the_border() {
    let r = Region::new(0, 0, 10, 5);
    assert!(r.contains_point(0, 0));
    assert!(r.contains_point(10, 5));
    assert!(!r.contains_point(11, 5));
    assert!(!r.contains_point(3, -1));
    assert!(r.contains_position(Some((4, 4))));
    assert!(!r.contains_position(None));
}
