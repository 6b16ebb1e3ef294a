use vstd::prelude::*;

verus! {

/// The label shown for a scan code that the table does not list.
pub const UNKNOWN_KEY: &'static str = "UNKNOWN KEY";

/// The scan-code table: the label of each listed code, `None` for any other.
pub open spec fn key_label(code: u32) -> Option<Seq<char>> {
    match code {
        1 => Some("ESC"@),
        28 => Some("ENTER"@),
        14 => Some("BACKSPACE"@),
        15 => Some("TAB"@),
        57 => Some("SPACE"@),
        16 => Some("Q"@),
        17 => Some("W"@),
        18 => Some("E"@),
        19 => Some("R"@),
        20 => Some("T"@),
        21 => Some("Y"@),
        22 => Some("U"@),
        23 => Some("I"@),
        24 => Some("O"@),
        25 => Some("P"@),
        30 => Some("A"@),
        31 => Some("S"@),
        32 => Some("D"@),
        33 => Some("F"@),
        34 => Some("G"@),
        35 => Some("H"@),
        36 => Some("J"@),
        37 => Some("K"@),
        38 => Some("L"@),
        44 => Some("Z"@),
        45 => Some("X"@),
        46 => Some("C"@),
        47 => Some("V"@),
        48 => Some("B"@),
        49 => Some("N"@),
        50 => Some("M"@),
        103 => Some("UP"@),
        105 => Some("LEFT"@),
        106 => Some("RIGHT"@),
        108 => Some("DOWN"@),
        59 => Some("F1"@),
        60 => Some("F2"@),
        61 => Some("F3"@),
        62 => Some("F4"@),
        63 => Some("F5"@),
        64 => Some("F6"@),
        65 => Some("F7"@),
        66 => Some("F8"@),
        67 => Some("F9"@),
        68 => Some("F10"@),
        87 => Some("F11"@),
        88 => Some("F12"@),
        29 => Some("CTRL"@),
        42 => Some("SHIFT (LEFT)"@),
        54 => Some("SHIFT (RIGHT)"@),
        56 => Some("ALT"@),
        100 => Some("ALT GR"@),
        125 => Some("SUPER/WIN"@),
        2 => Some("1"@),
        3 => Some("2"@),
        4 => Some("3"@),
        5 => Some("4"@),
        6 => Some("5"@),
        7 => Some("6"@),
        8 => Some("7"@),
        9 => Some("8"@),
        10 => Some("9"@),
        11 => Some("0"@),
        12 => Some("-"@),
        13 => Some("="@),
        26 => Some("["@),
        27 => Some("]"@),
        39 => Some(";"@),
        40 => Some("'"@),
        41 => Some("`"@),
        43 => Some("\\"@),
        51 => Some(","@),
        52 => Some("."@),
        53 => Some("/"@),
        58 => Some("CAPS LOCK"@),
        69 => Some("NUM LOCK"@),
        70 => Some("SCROLL LOCK"@),
        71 => Some("NUM 7"@),
        72 => Some("NUM 8"@),
        73 => Some("NUM 9"@),
        74 => Some("NUM -"@),
        75 => Some("NUM 4"@),
        76 => Some("NUM 5"@),
        77 => Some("NUM 6"@),
        78 => Some("NUM +"@),
        79 => Some("NUM 1"@),
        80 => Some("NUM 2"@),
        81 => Some("NUM 3"@),
        82 => Some("NUM 0"@),
        83 => Some("NUM ."@),
        96 => Some("NUM ENTER"@),
        98 => Some("NUM /"@),
        55 => Some("NUM *"@),
        113 => Some("MUTE"@),
        114 => Some("VOLUME DOWN"@),
        115 => Some("VOLUME UP"@),
        99 => Some("PRINT SCREEN"@),
        119 => Some("PAUSE"@),
        110 => Some("HOME"@),
        102 => Some("PAGE UP"@),
        107 => Some("END"@),
        109 => Some("PAGE DOWN"@),
        111 => Some("DELETE"@),
        118 => Some("INSERT"@),
        127 => Some("PAUSE"@),
        128 => Some("PREV TRACK"@),
        129 => Some("NEXT TRACK"@),
        130 => Some("STOP"@),
        131 => Some("PLAY/PAUSE"@),
        _ => None,
    }
}

/// What resolving a scan code yields: its label, or the fallback label.
pub open spec fn resolved_key(code: u32) -> Seq<char> {
    match key_label(code) {
        Some(label) => label,
        None => UNKNOWN_KEY@,
    }
}

/// Resolves a keyboard scan code to a readable label. Total: a code that the
/// table does not list resolves to `UNKNOWN_KEY`.
pub fn key_name(key_code: u32) -> (r: &'static str)
    ensures
        r@ == resolved_key(key_code),
        key_label(key_code) matches Some(label) ==> r@ == label,
        key_label(key_code) is None ==> r@ == UNKNOWN_KEY@,
{
    match key_code {
        1 => "ESC",
        28 => "ENTER",
        14 => "BACKSPACE",
        15 => "TAB",
        57 => "SPACE",
        16 => "Q",
        17 => "W",
        18 => "E",
        19 => "R",
        20 => "T",
        21 => "Y",
        22 => "U",
        23 => "I",
        24 => "O",
        25 => "P",
        30 => "A",
        31 => "S",
        32 => "D",
        33 => "F",
        34 => "G",
        35 => "H",
        36 => "J",
        37 => "K",
        38 => "L",
        44 => "Z",
        45 => "X",
        46 => "C",
        47 => "V",
        48 => "B",
        49 => "N",
        50 => "M",
        103 => "UP",
        105 => "LEFT",
        106 => "RIGHT",
        108 => "DOWN",
        59 => "F1",
        60 => "F2",
        61 => "F3",
        62 => "F4",
        63 => "F5",
        64 => "F6",
        65 => "F7",
        66 => "F8",
        67 => "F9",
        68 => "F10",
        87 => "F11",
        88 => "F12",
        29 => "CTRL",
        42 => "SHIFT (LEFT)",
        54 => "SHIFT (RIGHT)",
        56 => "ALT",
        100 => "ALT GR",
        125 => "SUPER/WIN",
        2 => "1",
        3 => "2",
        4 => "3",
        5 => "4",
        6 => "5",
        7 => "6",
        8 => "7",
        9 => "8",
        10 => "9",
        11 => "0",
        12 => "-",
        13 => "=",
        26 => "[",
        27 => "]",
        39 => ";",
        40 => "'",
        41 => "`",
        43 => "\\",
        51 => ",",
        52 => ".",
        53 => "/",
        58 => "CAPS LOCK",
        69 => "NUM LOCK",
        70 => "SCROLL LOCK",
        71 => "NUM 7",
        72 => "NUM 8",
        73 => "NUM 9",
        74 => "NUM -",
        75 => "NUM 4",
        76 => "NUM 5",
        77 => "NUM 6",
        78 => "NUM +",
        79 => "NUM 1",
        80 => "NUM 2",
        81 => "NUM 3",
        82 => "NUM 0",
        83 => "NUM .",
        96 => "NUM ENTER",
        98 => "NUM /",
        55 => "NUM *",
        113 => "MUTE",
        114 => "VOLUME DOWN",
        115 => "VOLUME UP",
        99 => "PRINT SCREEN",
        119 => "PAUSE",
        110 => "HOME",
        102 => "PAGE UP",
        107 => "END",
        109 => "PAGE DOWN",
        111 => "DELETE",
        118 => "INSERT",
        127 => "PAUSE",
        128 => "PREV TRACK",
        129 => "NEXT TRACK",
        130 => "STOP",
        131 => "PLAY/PAUSE",
        _ => UNKNOWN_KEY,
    }
}

} // verus!
