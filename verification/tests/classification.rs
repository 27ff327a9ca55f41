use flowtrace::types::{classify_and_describe, EventType, MouseButton, Position};

fn key(name: &str) -> (String, String) {
    classify_and_describe(&EventType::KeyPress { key: name.to_string() }, &None)
}

fn wait(duration_millis: u64) -> String {
    classify_and_describe(&EventType::Wait { duration_millis }, &None).1
}

#[test]
fn letter_key_is_text_input() {
    assert_eq!(key("KeyA"), ("text_input".to_string(), "Typed: A".to_string()));
    assert_eq!(key("KeyZ"), ("text_input".to_string(), "Typed: Z".to_string()));
}

#[test]
fn digit_key_is_text_input() {
    assert_eq!(key("Num5"), ("text_input".to_string(), "Typed: 5".to_string()));
    assert_eq!(key("Num0"), ("text_input".to_string(), "Typed: 0".to_string()));
}

#[test]
fn prefix_alone_types_nothing() {
    assert_eq!(key("Key"), ("text_input".to_string(), "Typed: ".to_string()));
    assert_eq!(key("Num"), ("text_input".to_string(), "Typed: ".to_string()));
}

#[test]
fn prefix_is_stripped_whatever_follows() {
    assert_eq!(key("NumLock"), ("text_input".to_string(), "Typed: Lock".to_string()));
    assert_eq!(key("Keyé"), ("text_input".to_string(), "Typed: é".to_string()));
}

#[test]
fn space_is_text_input() {
    assert_eq!(key("Space"), ("text_input".to_string(), "Typed: Space".to_string()));
}

#[test]
fn return_and_enter_submit() {
    assert_eq!(key("Return"), ("submit".to_string(), "Pressed Enter (submit)".to_string()));
    assert_eq!(key("Enter"), ("submit".to_string(), "Pressed Enter (submit)".to_string()));
}

#[test]
fn tab_navigates() {
    assert_eq!(key("Tab"), ("navigation".to_string(), "Pressed Tab (navigate)".to_string()));
}

#[test]
fn backspace_and_delete_correct() {
    assert_eq!(
        key("Backspace"),
        ("correction".to_string(), "Pressed Backspace (correction)".to_string())
    );
    assert_eq!(
        key("Delete"),
        ("correction".to_string(), "Pressed Delete (correction)".to_string())
    );
}

#[test]
fn escape_cancels() {
    assert_eq!(key("Escape"), ("cancel".to_string(), "Pressed Escape (cancel)".to_string()));
}

#[test]
fn other_keys_are_special() {
    assert_eq!(key("F1"), ("special_key".to_string(), "Pressed: F1".to_string()));
    assert_eq!(key("UpArrow"), ("special_key".to_string(), "Pressed: UpArrow".to_string()));
    assert_eq!(key(""), ("special_key".to_string(), "Pressed: ".to_string()));
    assert_eq!(key("space"), ("special_key".to_string(), "Pressed: space".to_string()));
    assert_eq!(key("Ke"), ("special_key".to_string(), "Pressed: Ke".to_string()));
}

#[test]
fn click_with_position() {
    let labels = classify_and_describe(
        &EventType::Click { button: MouseButton::Left },
        &Some(Position { x: 10, y: 20 }),
    );
    assert_eq!(labels.0, "interaction");
    assert_eq!(labels.1, "Clicked left button at position (10, 20)");
}

#[test]
fn click_without_position() {
    let labels = classify_and_describe(&EventType::Click { button: MouseButton::Right }, &None);
    assert_eq!(labels.0, "interaction");
    assert_eq!(labels.1, "Clicked right button");
}

#[test]
fn click_names_each_button() {
    let at = Some(Position { x: 709, y: 328 });
    let left = classify_and_describe(&EventType::Click { button: MouseButton::Left }, &at);
    let right = classify_and_describe(&EventType::Click { button: MouseButton::Right }, &at);
    let middle = classify_and_describe(&EventType::Click { button: MouseButton::Middle }, &at);
    assert_eq!(left.1, "Clicked left button at position (709, 328)");
    assert_eq!(right.1, "Clicked right button at position (709, 328)");
    assert_eq!(middle.1, "Clicked middle button at position (709, 328)");
}

#[test]
fn click_at_negative_and_extreme_positions() {
    let labels = classify_and_describe(
        &EventType::Click { button: MouseButton::Left },
        &Some(Position { x: -5, y: 0 }),
    );
    assert_eq!(labels.1, "Clicked left button at position (-5, 0)");
    let labels = classify_and_describe(
        &EventType::Click { button: MouseButton::Left },
        &Some(Position { x: i32::MIN, y: i32::MAX }),
    );
    assert_eq!(labels.1, "Clicked left button at position (-2147483648, 2147483647)");
}

#[test]
fn click_description_matches_std_formatting() {
    for x in [-1000, -10, -9, -1, 0, 1, 9, 10, 99, 100, 1919, 65535] {
        let labels = classify_and_describe(
            &EventType::Click { button: MouseButton::Middle },
            &Some(Position { x, y: -x }),
        );
        assert_eq!(labels.1, format!("Clicked middle button at position ({}, {})", x, -x));
    }
}

#[test]
fn wait_is_described_with_one_decimal() {
    let labels = classify_and_describe(&EventType::Wait { duration_millis: 3000 }, &None);
    assert_eq!(labels, ("wait".to_string(), "Paused for 3.0 seconds".to_string()));
    assert_eq!(wait(2100), "Paused for 2.1 seconds");
    assert_eq!(wait(2704), "Paused for 2.7 seconds");
    assert_eq!(wait(2000), "Paused for 2.0 seconds");
    assert_eq!(wait(0), "Paused for 0.0 seconds");
    assert_eq!(wait(49), "Paused for 0.0 seconds");
    assert_eq!(wait(51), "Paused for 0.1 seconds");
    assert_eq!(wait(9_960), "Paused for 10.0 seconds");
    assert_eq!(wait(123_456_789), "Paused for 123456.8 seconds");
}

#[test]
fn wait_half_way_goes_to_the_even_tenth() {
    assert_eq!(wait(50), "Paused for 0.0 seconds");
    assert_eq!(wait(150), "Paused for 0.2 seconds");
    assert_eq!(wait(2250), "Paused for 2.2 seconds");
    assert_eq!(wait(2350), "Paused for 2.4 seconds");
    assert_eq!(wait(2750), "Paused for 2.8 seconds");
    assert_eq!(wait(9_950), "Paused for 10.0 seconds");
}

#[test]
fn wait_of_the_longest_duration() {
    assert_eq!(wait(u64::MAX), "Paused for 18446744073709551.6 seconds");
}

#[test]
fn wait_agrees_with_float_formatting_off_the_half_way_points() {
    let mut millis: u64 = 0;
    while millis < 30_000 {
        if millis % 100 != 50 {
            let seconds = millis as f64 / 1000.0;
            assert_eq!(wait(millis), format!("Paused for {:.1} seconds", seconds));
        }
        millis += 1;
    }
}

#[test]
fn wait_agrees_with_float_formatting_on_exact_halves() {
    for millis in [250u64, 750, 1250, 2250, 2750, 10_250, 99_750] {
        let seconds = millis as f64 / 1000.0;
        assert_eq!(wait(millis), format!("Paused for {:.1} seconds", seconds));
    }
}

#[test]
fn classification_is_repeatable() {
    let kind = EventType::KeyPress { key: "Escape".to_string() };
    assert_eq!(classify_and_describe(&kind, &None), classify_and_describe(&kind, &None));
    let at = Some(Position { x: 1, y: 2 });
    let click = EventType::Click { button: MouseButton::Left };
    assert_eq!(classify_and_describe(&click, &at), classify_and_describe(&click, &at));
}
