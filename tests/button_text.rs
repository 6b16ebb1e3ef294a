use rustkey::button::{button_name, button_text, button_text_press, ButtonText, Press};
use rustkey::text::{chars_of, find, parse_u32, string_of_range, variant_name};

#[test]
fn left_button_press_is_extracted() {
    let debug = "PointerButtonEvent { time: 100, button: 272, seat_button_count: 1, button_state: Pressed }";
    assert_eq!(
        button_text(debug),
        ButtonText::Numbered { code: 272, name: String::from("LEFT") }
    );
    assert_eq!(button_text_press(debug), Some(Press::Pressed));
}

#[test]
fn right_button_release_is_extracted() {
    let debug = "PointerButtonEvent { button: 273, button_state: Released }";
    assert_eq!(
        button_text(debug),
        ButtonText::Numbered { code: 273, name: String::from("RIGHT") }
    );
    assert_eq!(button_text_press(debug), Some(Press::Released));
}

#[test]
fn unnamed_button_keeps_its_number_text() {
    let debug = "Event { button: 280, state: Pressed }";
    assert_eq!(
        button_text(debug),
        ButtonText::Numbered { code: 280, name: String::from("280") }
    );
}

#[test]
fn plus_signed_field_is_a_number() {
    assert_eq!(
        button_text("button: +274, x"),
        ButtonText::Numbered { code: 274, name: String::from("MIDDLE") }
    );
}

#[test]
fn non_numeric_field_is_kept_as_text() {
    assert_eq!(
        button_text("Event { button: BTN_LEFT, state: Pressed }"),
        ButtonText::Unparsed { text: String::from("BTN_LEFT") }
    );
    assert_eq!(
        button_text("button: 99999999999, "),
        ButtonText::Unparsed { text: String::from("99999999999") }
    );
    assert_eq!(button_text("button: , "), ButtonText::Unparsed { text: String::new() });
}

#[test]
fn malformed_text_degrades_to_unlabelled() {
    assert_eq!(button_text(""), ButtonText::Unlabelled);
    assert_eq!(button_text("PointerButtonEvent @0x55d0c0a1b2c0"), ButtonText::Unlabelled);
    assert_eq!(button_text("button: 272 }"), ButtonText::Unlabelled);
    assert_eq!(button_text("button:272, "), ButtonText::Unlabelled);
    assert_eq!(button_text_press("PointerButtonEvent @0x55d0c0a1b2c0"), None);
}

#[test]
fn pressed_mark_wins_over_released() {
    assert_eq!(button_text_press("Released then Pressed"), Some(Press::Pressed));
}

#[test]
fn only_the_first_comma_ends_the_field() {
    assert_eq!(
        button_text("a, button: 275, b, button: 276,"),
        ButtonText::Numbered { code: 275, name: String::from("SIDE") }
    );
}

#[test]
fn common_button_names() {
    assert_eq!(button_name(272), Some("LEFT"));
    assert_eq!(button_name(276), Some("EXTRA"));
    assert_eq!(button_name(277), None);
    assert_eq!(button_name(0), None);
}

#[test]
fn decimal_reading() {
    assert_eq!(parse_u32(&chars_of("0")), Some(0));
    assert_eq!(parse_u32(&chars_of("007")), Some(7));
    assert_eq!(parse_u32(&chars_of("+42")), Some(42));
    assert_eq!(parse_u32(&chars_of("4294967295")), Some(u32::MAX));
    assert_eq!(parse_u32(&chars_of("4294967296")), None);
    assert_eq!(parse_u32(&chars_of("")), None);
    assert_eq!(parse_u32(&chars_of("+")), None);
    assert_eq!(parse_u32(&chars_of("-1")), None);
    assert_eq!(parse_u32(&chars_of(" 1")), None);
    assert_eq!(parse_u32(&chars_of("12a")), None);
}

#[test]
fn search_and_ranges() {
    let s = chars_of("abcabc");
    assert_eq!(s, vec!['a', 'b', 'c', 'a', 'b', 'c']);
    assert_eq!(find(&s, &chars_of("bc"), 0), Some(1));
    assert_eq!(find(&s, &chars_of("bc"), 2), Some(4));
    assert_eq!(find(&s, &chars_of("bc"), 5), None);
    assert_eq!(find(&s, &chars_of(""), 6), Some(6));
    assert_eq!(find(&s, &chars_of("x"), 0), None);
    assert_eq!(string_of_range(&s, 1, 4), "bca");
    assert_eq!(string_of_range(&s, 2, 2), "");
}

#[test]
fn variant_names_come_before_the_payload() {
    assert_eq!(variant_name("Down(TouchDownEvent @0x1)"), Some(String::from("Down")));
    assert_eq!(variant_name("PinchBegin(x(y))"), Some(String::from("PinchBegin")));
    assert_eq!(variant_name("(x)"), Some(String::new()));
    assert_eq!(variant_name("Frame"), None);
}
