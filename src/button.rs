use vstd::prelude::*;
use crate::text::{
    chars_of, decimal_u32, find, first_occurrence, lemma_first_occurrence_bounds, parse_u32,
    string_of_range,
};

verus! {

/// The key that introduces the button field in an event's debug text.
pub const BUTTON_KEY: &'static str = "button: ";

/// The character that ends the button field.
pub const FIELD_END: &'static str = ",";

/// Marks a pressed button in an event's debug text.
pub const PRESSED_MARK: &'static str = "Pressed";

/// Marks a released button in an event's debug text.
pub const RELEASED_MARK: &'static str = "Released";

/// Whether a pointer button went down or up.
#[derive(Clone, Copy, Debug, PartialEq, Eq, Structural)]
pub enum Press {
    Pressed,
    Released,
}

/// The common name of a pointer button code, for the five usual buttons.
pub open spec fn button_label(code: u32) -> Option<Seq<char>> {
    match code {
        272 => Some("LEFT"@),
        273 => Some("RIGHT"@),
        274 => Some("MIDDLE"@),
        275 => Some("SIDE"@),
        276 => Some("EXTRA"@),
        _ => None,
    }
}

/// The characters of an optional label.
pub open spec fn label_view(l: Option<&str>) -> Option<Seq<char>> {
    match l {
        Some(t) => Some(t@),
        None => None,
    }
}

/// The common name of a pointer button code, if it has one.
pub fn button_name(code: u32) -> (r: Option<&'static str>)
    ensures
        label_view(r) == button_label(code),
{
    match code {
        272 => Some("LEFT"),
        273 => Some("RIGHT"),
        274 => Some("MIDDLE"),
        275 => Some("SIDE"),
        276 => Some("EXTRA"),
        _ => None,
    }
}

/// Whether `pat` stands anywhere in `s`.
pub open spec fn contains(s: Seq<char>, pat: Seq<char>) -> bool {
    first_occurrence(s, pat, 0) is Some
}

/// Where the button field of a debug text lies: from just after the first
/// `button: ` up to the first comma after it. `None` where either is missing.
pub open spec fn button_field(s: Seq<char>) -> Option<(int, int)> {
    match first_occurrence(s, BUTTON_KEY@, 0) {
        Some(b) => match first_occurrence(s, FIELD_END@, b + BUTTON_KEY@.len()) {
            Some(e) => Some((b + BUTTON_KEY@.len(), e)),
            None => None,
        },
        None => None,
    }
}

/// The name shown for a button whose field reads `field` and holds `code`:
/// its common name, else the field's text.
pub open spec fn shown_button_name(code: u32, field: Seq<char>) -> Seq<char> {
    match button_label(code) {
        Some(l) => l,
        None => field,
    }
}

/// What the button field of a debug text says.
#[derive(Debug, PartialEq, Eq)]
pub enum ButtonText {
    /// The text has no button field.
    Unlabelled,
    /// The field holds a number: the code and the name shown for it.
    Numbered { code: u32, name: String },
    /// The field holds something else: its text.
    Unparsed { text: String },
}

/// Extracts the button from an event's debug text: the field between
/// `button: ` and the next comma, read as a decimal button code. Never
/// fails: a text without such a field is `Unlabelled`, and a field that is
/// no number is kept as text.
pub fn button_text(debug: &str) -> (r: ButtonText)
    ensures
        button_field(debug@) is None ==> r is Unlabelled,
        button_field(debug@) matches Some((a, e)) ==> {
            let field = debug@.subrange(a, e);
            match decimal_u32(field) {
                Some(n) => r matches ButtonText::Numbered { code, name } && code == n
                    && name@ == shown_button_name(n, field),
                None => r matches ButtonText::Unparsed { text } && text@ == field,
            }
        },
{
    let s = chars_of(debug);
    let key = chars_of(BUTTON_KEY);
    let end = chars_of(FIELD_END);
    let b = match find(&s, &key, 0) {
        Some(b) => b,
        None => {
            return ButtonText::Unlabelled;
        },
    };
    let n: usize = s.len();
    proof {
        lemma_first_occurrence_bounds(s@, key@, 0);
    }
    assert(b + key@.len() <= n);
    let a = b + key.len();
    let e = match find(&s, &end, a) {
        Some(e) => e,
        None => {
            return ButtonText::Unlabelled;
        },
    };
    assert(e + end@.len() <= s@.len() && a <= e) by {
        assert(first_occurrence(s@, end@, a as int) == Some(e as int));
        lemma_first_occurrence_bounds(s@, end@, a as int);
    }
    let field = string_of_range(&s, a, e);
    let digits = chars_of(field.as_str());
    match parse_u32(&digits) {
        Some(n) => {
            let name = match button_name(n) {
                Some(l) => l.to_owned(),
                None => field,
            };
            ButtonText::Numbered { code: n, name }
        },
        None => ButtonText::Unparsed { text: field },
    }
}

/// Whether an event's debug text reports a press or a release: a text that
/// mentions `Pressed` is a press, else one that mentions `Released` is a
/// release, else neither.
pub fn button_text_press(debug: &str) -> (r: Option<Press>)
    ensures
        contains(debug@, PRESSED_MARK@) ==> r == Some(Press::Pressed),
        !contains(debug@, PRESSED_MARK@) && contains(debug@, RELEASED_MARK@) ==> r == Some(
            Press::Released,
        ),
        !contains(debug@, PRESSED_MARK@) && !contains(debug@, RELEASED_MARK@) ==> r is None,
{
    let s = chars_of(debug);
    if find(&s, &chars_of(PRESSED_MARK), 0).is_some() {
        Some(Press::Pressed)
    } else if find(&s, &chars_of(RELEASED_MARK), 0).is_some() {
        Some(Press::Released)
    } else {
        None
    }
}

} // verus!
