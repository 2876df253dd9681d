use chess_widgets::checkbox::{CheckBox, CheckBoxGroup};
use chess_widgets::event::PointerEvent;
use chess_widgets::render::DrawOp;

const TEXT: (u8, u8, u8) = (130, 130, 143);
const HOVER: (u8, u8, u8) = (177, 177, 185);
const INSIDE: (u8, u8, u8) = (43, 42, 51);
const TICK: (u8, u8, u8) = (67, 111, 157);
const LABEL: (u8, u8, u8) = (154, 153, 153);

fn outline(x: i64, y: i64, size: i64, color: (u8, u8, u8)) -> DrawOp<'static> {
    DrawOp::RoundedRect {
        x1: x - 3,
        y1: y - 3,
        x2: x + size + 3,
        y2: y + size + 3,
        rx: 3,
        ry: 3,
        color,
        thickness: 3,
    }
}

fn inside(x: i64, y: i64, size: i64) -> DrawOp<'static> {
    DrawOp::FilledRoundedRect { x1: x, y1: y, x2: x + size, y2: y + size, rx: 3, ry: 3, color: INSIDE }
}

fn tick(x: i64, y: i64, size: i64) -> DrawOp<'static> {
    DrawOp::FilledRoundedRect {
        x1: x + 3,
        y1: y + 3,
        x2: x + size - 3,
        y2: y + size - 3,
        rx: 3,
        ry: 3,
        color: TICK,
    }
}

fn plain_box<'a>(x: i64, y: i64, size: i64, text: &'a str) -> Vec<DrawOp<'a>> {
    vec![
        outline(x, y, size, TEXT),
        inside(x, y, size),
        DrawOp::Text { color: TEXT, x: x + size + 13, y, text },
    ]
}

#[test]
fn new_checkbox_is_unchecked() {
    let checkbox = CheckBox::new(10, 20, 16, "play as white");
    assert!(!checkbox.is_checked());
    assert_eq!(checkbox.draw(), plain_box(10, 20, 16, "play as white"));
}

#[test]
fn press_without_hover_is_ignored() {
    let mut checkbox = CheckBox::new(10, 20, 16, "a");
    assert!(!checkbox.event_listener(&PointerEvent::Down { x: 12, y: 22 }));
    assert!(!checkbox.is_checked());
}

#[test]
fn move_onto_the_box_then_press_ticks_it() {
    let mut checkbox = CheckBox::new(10, 20, 16, "a");
    assert!(checkbox.event_listener(&PointerEvent::Move { x: 12, y: 22 }));
    assert!(!checkbox.is_checked());
    assert!(checkbox.event_listener(&PointerEvent::Down { x: 12, y: 22 }));
    assert!(checkbox.is_checked());
    assert!(checkbox.event_listener(&PointerEvent::Down { x: 500, y: 500 }));
    assert!(!checkbox.is_checked());
}

#[test]
fn move_off_the_box_ends_the_hover() {
    let mut checkbox = CheckBox::new(10, 20, 16, "a");
    assert!(checkbox.event_listener(&PointerEvent::Move { x: 26, y: 36 }));
    assert!(!checkbox.event_listener(&PointerEvent::Move { x: 27, y: 36 }));
    assert!(!checkbox.event_listener(&PointerEvent::Down { x: 12, y: 22 }));
    assert!(!checkbox.is_checked());
}

#[test]
fn other_events_are_not_claimed() {
    let mut checkbox = CheckBox::new(10, 20, 16, "a");
    assert!(checkbox.event_listener(&PointerEvent::Move { x: 10, y: 20 }));
    assert!(!checkbox.event_listener(&PointerEvent::Other));
    assert!(checkbox.event_listener(&PointerEvent::Down { x: 0, y: 0 }));
    assert!(checkbox.is_checked());
}

#[test]
fn hovered_and_checked_box_is_painted_with_tick_on_top() {
    let mut checkbox = CheckBox::new(10, 20, 16, "a");
    checkbox.event_listener(&PointerEvent::Move { x: 12, y: 22 });
    assert_eq!(
        checkbox.draw(),
        vec![
            outline(10, 20, 16, HOVER),
            inside(10, 20, 16),
            DrawOp::Text { color: TEXT, x: 39, y: 20, text: "a" },
        ]
    );
    checkbox.event_listener(&PointerEvent::Down { x: 12, y: 22 });
    checkbox.event_listener(&PointerEvent::Move { x: 0, y: 0 });
    assert_eq!(
        checkbox.draw(),
        vec![
            outline(10, 20, 16, TEXT),
            inside(10, 20, 16),
            DrawOp::Text { color: TEXT, x: 39, y: 20, text: "a" },
            tick(10, 20, 16),
        ]
    );
}

#[test]
fn checkbox_at_the_largest_coordinates() {
    let checkbox = CheckBox::new(i32::MAX, i32::MIN, i32::MAX, "");
    let max = i32::MAX as i64;
    let min = i32::MIN as i64;
    assert_eq!(
        checkbox.draw(),
        vec![
            DrawOp::RoundedRect {
                x1: max - 3,
                y1: min - 3,
                x2: 2 * max + 3,
                y2: min + max + 3,
                rx: 3,
                ry: 3,
                color: TEXT,
                thickness: 3
            },
            DrawOp::FilledRoundedRect {
                x1: max,
                y1: min,
                x2: 2 * max,
                y2: min + max,
                rx: 3,
                ry: 3,
                color: INSIDE
            },
            DrawOp::Text { color: TEXT, x: 2 * max + 13, y: min, text: "" },
        ]
    );
}

#[test]
fn group_lays_its_boxes_out_in_a_row() {
    let texts = vec![("white", 40), ("black", 38), ("clock", 45)];
    assert!(CheckBoxGroup::fits(20, 30, 16, &texts, 12));
    let group = CheckBoxGroup::new("options", 20, 30, 16, texts, 12);
    let mut expected = vec![DrawOp::Text { color: LABEL, x: 20, y: 30, text: "options" }];
    expected.extend(plain_box(20, 52, 16, "white"));
    expected.extend(plain_box(20 + 40 + 10 + 16 + 50, 52, 16, "black"));
    expected.extend(plain_box(136 + 38 + 10 + 16 + 50, 52, 16, "clock"));
    assert_eq!(group.draw(), expected);
    assert_eq!(group.get_next_y(), 52 + 16 + 3 + 30);
}

#[test]
fn empty_group_paints_its_label_only() {
    let mut group = CheckBoxGroup::new("none", 5, 6, 16, Vec::new(), 12);
    assert_eq!(group.draw(), vec![DrawOp::Text { color: LABEL, x: 5, y: 6, text: "none" }]);
    assert_eq!(group.get_next_y(), 0);
    assert_eq!(group.get_values(), (false, false));
    assert!(!group.event_listener(&PointerEvent::Move { x: 5, y: 6 }));
}

#[test]
fn fits_tells_when_a_box_would_leave_the_coordinates() {
    assert!(CheckBoxGroup::fits(0, 0, 16, &vec![], 12));
    assert!(CheckBoxGroup::fits(i32::MAX, 0, 16, &vec![("a", i32::MAX)], 12));
    assert!(!CheckBoxGroup::fits(i32::MAX, 0, 16, &vec![("a", 1), ("b", 1)], 12));
    assert!(CheckBoxGroup::fits(i32::MAX - 77, 0, 16, &vec![("a", 1), ("b", 1)], 12));
    assert!(!CheckBoxGroup::fits(i32::MAX - 76, 0, 16, &vec![("a", 1), ("b", 1)], 12));
    assert!(!CheckBoxGroup::fits(0, i32::MAX, 16, &vec![], 12));
    assert!(CheckBoxGroup::fits(0, i32::MAX - 22, 16, &vec![], 12));
    assert!(!CheckBoxGroup::fits(0, i32::MAX - 21, 16, &vec![], 12));
    assert!(!CheckBoxGroup::fits(0, i32::MIN, 16, &vec![], -11));
    assert!(CheckBoxGroup::fits(0, i32::MIN, 16, &vec![], -10));
    assert!(!CheckBoxGroup::fits(i32::MIN, 0, 16, &vec![("a", -77), ("b", 0)], 12));
    assert!(CheckBoxGroup::fits(i32::MIN, 0, 16, &vec![("a", -76), ("b", 0)], 12));
}

#[test]
fn group_values_are_the_ticks_of_two_boxes() {
    let mut group = CheckBoxGroup::new("side", 0, 0, 16, vec![("white", 40), ("black", 38)], 12);
    assert_eq!(group.get_values(), (false, false));
    assert!(group.event_listener(&PointerEvent::Move { x: 120, y: 25 }));
    assert!(group.event_listener(&PointerEvent::Down { x: 120, y: 25 }));
    assert_eq!(group.get_values(), (false, true));
    assert!(group.event_listener(&PointerEvent::Move { x: 5, y: 25 }));
    assert!(group.event_listener(&PointerEvent::Down { x: 5, y: 25 }));
    assert_eq!(group.get_values(), (true, true));
    assert!(!group.event_listener(&PointerEvent::Move { x: 300, y: 300 }));
    assert!(!group.event_listener(&PointerEvent::Down { x: 300, y: 300 }));
    assert_eq!(group.get_values(), (true, true));
}

#[test]
fn group_of_three_has_no_values() {
    let texts = vec![("a", 10), ("b", 10), ("c", 10)];
    let mut group = CheckBoxGroup::new("three", 0, 0, 16, texts, 12);
    assert!(group.event_listener(&PointerEvent::Move { x: 5, y: 25 }));
    assert!(group.event_listener(&PointerEvent::Down { x: 5, y: 25 }));
    let ops = group.draw();
    assert_eq!(ops[4], tick(0, 22, 16));
    assert_eq!(group.get_values(), (false, false));
}

#[test]
fn boxes_right_of_the_claimant_do_not_see_the_event() {
    let mut group = CheckBoxGroup::new("side", 0, 0, 16, vec![("white", 40), ("black", 38)], 12);
    assert!(group.event_listener(&PointerEvent::Move { x: 120, y: 25 }));
    assert!(group.event_listener(&PointerEvent::Move { x: 5, y: 25 }));
    let ops = group.draw();
    assert_eq!(ops[1], outline(0, 22, 16, HOVER));
    assert_eq!(ops[4], outline(116, 22, 16, HOVER));
    assert!(group.event_listener(&PointerEvent::Down { x: 5, y: 25 }));
    assert_eq!(group.get_values(), (true, false));
    let ops = group.draw();
    assert_eq!(ops[4], tick(0, 22, 16));
    assert_eq!(ops[5], outline(116, 22, 16, HOVER));
    assert!(!group.event_listener(&PointerEvent::Move { x: 300, y: 300 }));
    let ops = group.draw();
    assert_eq!(ops[1], outline(0, 22, 16, TEXT));
    assert_eq!(ops[5], outline(116, 22, 16, TEXT));
}

#[test]
fn unclaimed_event_reaches_every_box() {
    let mut group = CheckBoxGroup::new("side", 0, 0, 16, vec![("white", 40), ("black", 38)], 12);
    assert!(group.event_listener(&PointerEvent::Move { x: 120, y: 25 }));
    assert!(!group.event_listener(&PointerEvent::Move { x: 300, y: 300 }));
    assert!(!group.event_listener(&PointerEvent::Down { x: 120, y: 25 }));
    assert!(!group.event_listener(&PointerEvent::Other));
    assert_eq!(group.get_values(), (false, false));
    assert_eq!(group.draw()[4], outline(116, 22, 16, TEXT));
}
