use explora::geometry::{Point, Rectangle};
use explora::keys::{Key, KeyInput};
use explora::pointer::Pointer;
use explora::render::{Color, DrawCommand, TextSource};
use explora::textbox::{TextBox, ACTIVE_ALPHA, INACTIVE_ALPHA, TEXT_INSET};

fn url_bar(active: bool) -> TextBox {
    TextBox {
        rect: Rectangle { x: 20, y: 20, width: 640, height: 50 },
        text: String::from("URL"),
        text_size: 30,
        max_length: 255,
        spaces_allowed: false,
        active,
    }
}

fn click_at(x: i32, y: i32) -> Pointer {
    Pointer { position: Point { x, y }, down: true, pressed: true, released: false }
}

fn hover_at(x: i32, y: i32) -> Pointer {
    Pointer { position: Point { x, y }, down: false, pressed: false, released: false }
}

fn keys_down(keys: Vec<Key>, shift: bool) -> KeyInput {
    KeyInput { pressed: keys, shift }
}

#[test]
fn textbox_constants() {
    assert_eq!(TEXT_INSET, 10);
    assert_eq!(ACTIVE_ALPHA, 100);
    assert_eq!(INACTIVE_ALPHA, 200);
}

#[test]
fn textbox_is_clicked_on_press_inside() {
    let tb = url_bar(false);
    assert!(tb.is_clicked(&click_at(20, 20)));
    assert!(tb.is_clicked(&click_at(659, 69)));
    assert!(!tb.is_clicked(&click_at(660, 69)));
    assert!(!tb.is_clicked(&click_at(19, 20)));
    assert!(!tb.is_clicked(&hover_at(30, 30)));
}

#[test]
fn textbox_click_is_triggered_by_press_not_release() {
    let tb = url_bar(false);
    let held = Pointer { position: Point { x: 30, y: 30 }, down: true, pressed: false, released: false };
    let released = Pointer { position: Point { x: 30, y: 30 }, down: false, pressed: false, released: true };
    assert!(!tb.is_clicked(&held));
    assert!(!tb.is_clicked(&released));
    assert!(!tb.is_not_clicked(&held));
    assert!(!tb.is_not_clicked(&released));
}

#[test]
fn textbox_is_not_clicked_on_press_outside() {
    let tb = url_bar(true);
    assert!(tb.is_not_clicked(&click_at(700, 30)));
    assert!(tb.is_not_clicked(&click_at(30, 70)));
    assert!(!tb.is_not_clicked(&click_at(30, 30)));
    assert!(!tb.is_not_clicked(&hover_at(700, 30)));
}

#[test]
fn click_inside_activates() {
    let mut tb = url_bar(false);
    tb.update_focus(&click_at(30, 30));
    assert!(tb.active);
}

#[test]
fn click_inside_while_active_changes_nothing() {
    let mut tb = url_bar(true);
    tb.update_focus(&click_at(30, 30));
    assert!(tb.active);
}

#[test]
fn click_outside_deactivates() {
    let mut tb = url_bar(true);
    tb.update_focus(&click_at(700, 30));
    assert!(!tb.active);
}

#[test]
fn click_outside_while_inactive_changes_nothing() {
    let mut tb = url_bar(false);
    tb.update_focus(&click_at(700, 30));
    assert!(!tb.active);
}

#[test]
fn frames_without_click_keep_the_focus() {
    let mut tb = url_bar(false);
    tb.update_focus(&hover_at(30, 30));
    assert!(!tb.active);
    tb.update_focus(&click_at(30, 30));
    assert!(tb.active);
    for x in [30, 700, -5, 30] {
        tb.update_focus(&hover_at(x, 30));
        assert!(tb.active);
        let held = Pointer { position: Point { x, y: 30 }, down: true, pressed: false, released: false };
        tb.update_focus(&held);
        assert!(tb.active);
        let released = Pointer { position: Point { x, y: 30 }, down: false, pressed: false, released: true };
        tb.update_focus(&released);
        assert!(tb.active);
    }
    tb.update_focus(&click_at(700, 30));
    assert!(!tb.active);
    tb.update_focus(&hover_at(30, 30));
    assert!(!tb.active);
}

#[test]
fn update_focus_changes_only_the_focus() {
    let mut tb = url_bar(false);
    tb.update_focus(&click_at(30, 30));
    assert_eq!(tb.rect, Rectangle { x: 20, y: 20, width: 640, height: 50 });
    assert_eq!(tb.text, "URL");
    assert_eq!(tb.text_size, 30);
    assert_eq!(tb.max_length, 255);
    assert!(!tb.spaces_allowed);
}

#[test]
fn input_reaches_an_active_box() {
    let tb = url_bar(true);
    let mut text = String::from("exampl");
    tb.input(&mut text, &keys_down(vec![Key::E], false));
    assert_eq!(text, "example");
    tb.input(&mut text, &keys_down(vec![Key::Period], false));
    tb.input(&mut text, &keys_down(vec![Key::C], true));
    assert_eq!(text, "example.C");
    tb.input(&mut text, &keys_down(vec![Key::Backspace], false));
    assert_eq!(text, "example.");
}

#[test]
fn input_does_not_reach_an_inactive_box() {
    let tb = url_bar(false);
    let mut text = String::from("abc");
    tb.input(&mut text, &keys_down(vec![Key::E], false));
    assert_eq!(text, "abc");
    tb.input(&mut text, &keys_down(vec![Key::Backspace], false));
    assert_eq!(text, "abc");
    tb.input(&mut text, &keys_down(vec![Key::Backspace, Key::One, Key::Space], true));
    assert_eq!(text, "abc");
}

#[test]
fn space_is_refused_with_or_without_focus() {
    let mut text = String::from("abc");
    url_bar(true).input(&mut text, &keys_down(vec![Key::Space], false));
    assert_eq!(text, "abc");
    url_bar(false).input(&mut text, &keys_down(vec![Key::Space], false));
    assert_eq!(text, "abc");
}

#[test]
fn space_is_accepted_where_allowed() {
    let mut tb = url_bar(true);
    tb.spaces_allowed = true;
    let mut text = String::from("abc");
    tb.input(&mut text, &keys_down(vec![Key::Space], false));
    assert_eq!(text, "abc ");
}

#[test]
fn input_respects_max_length() {
    let mut tb = url_bar(true);
    tb.max_length = 3;
    let mut text = String::from("ab");
    tb.input(&mut text, &keys_down(vec![Key::C], false));
    assert_eq!(text, "abc");
    tb.input(&mut text, &keys_down(vec![Key::D], false));
    assert_eq!(text, "abc");
    tb.input(&mut text, &keys_down(vec![Key::Backspace], false));
    assert_eq!(text, "ab");
}

#[test]
fn input_stops_at_255_characters() {
    let tb = url_bar(true);
    let mut text = String::new();
    for _ in 0..300 {
        tb.input(&mut text, &keys_down(vec![Key::A], false));
    }
    assert_eq!(text.len(), 255);
}

#[test]
fn draw_inactive_box_with_placeholder() {
    let tb = url_bar(false);
    assert_eq!(
        tb.draw(String::new()),
        vec![
            DrawCommand::FillRect {
                x: 20,
                y: 20,
                width: 640,
                height: 50,
                color: Color { r: 50, g: 50, b: 50, a: 200 },
            },
            DrawCommand::Text {
                source: TextSource::Placeholder,
                x: 30,
                y: 30,
                size: 30,
                color: Color { r: 128, g: 128, b: 128, a: 255 },
            },
        ]
    );
}

#[test]
fn draw_active_box_with_text() {
    let tb = url_bar(true);
    assert_eq!(
        tb.draw(String::from("example.com")),
        vec![
            DrawCommand::FillRect {
                x: 20,
                y: 20,
                width: 640,
                height: 50,
                color: Color { r: 50, g: 50, b: 50, a: 100 },
            },
            DrawCommand::Text {
                source: TextSource::Typed,
                x: 30,
                y: 30,
                size: 30,
                color: Color { r: 255, g: 255, b: 255, a: 255 },
            },
        ]
    );
}

#[test]
fn draw_active_box_without_text_shows_placeholder() {
    let tb = url_bar(true);
    let plan = tb.draw(String::new());
    assert_eq!(
        plan[0],
        DrawCommand::FillRect {
            x: 20,
            y: 20,
            width: 640,
            height: 50,
            color: Color { r: 50, g: 50, b: 50, a: 100 },
        }
    );
    assert_eq!(
        plan[1],
        DrawCommand::Text {
            source: TextSource::Placeholder,
            x: 30,
            y: 30,
            size: 30,
            color: Color { r: 128, g: 128, b: 128, a: 255 },
        }
    );
}

#[test]
fn draw_centers_text_with_odd_sizes() {
    let tb = TextBox {
        rect: Rectangle { x: 5, y: 7, width: 100, height: 45 },
        text: String::from("hint"),
        text_size: 25,
        max_length: 10,
        spaces_allowed: true,
        active: false,
    };
    let plan = tb.draw(String::from("a"));
    assert_eq!(
        plan[1],
        DrawCommand::Text {
            source: TextSource::Typed,
            x: 15,
            y: 17,
            size: 25,
            color: Color { r: 255, g: 255, b: 255, a: 255 },
        }
    );
}

#[test]
fn draw_text_position_stops_at_the_ends_of_the_range() {
    let tb = TextBox {
        rect: Rectangle { x: i32::MAX, y: i32::MAX, width: 1, height: i32::MAX },
        text: String::from("hint"),
        text_size: 0,
        max_length: 10,
        spaces_allowed: true,
        active: false,
    };
    let plan = tb.draw(String::new());
    assert_eq!(
        plan[1],
        DrawCommand::Text {
            source: TextSource::Placeholder,
            x: i32::MAX,
            y: i32::MAX,
            size: 0,
            color: Color { r: 128, g: 128, b: 128, a: 255 },
        }
    );
}
