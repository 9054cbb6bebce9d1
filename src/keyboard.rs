//! Keyboard and window notifications, translated into the terminal's events.
//!
//! Key codes and modifier bits are those of SDL: a printable key's code is its character,
//! other keys carry bit 30.
use vstd::prelude::*;

use crate::event::{Event, KeyEventInfo};
use crate::graphics::Dim;

verus! {

/// Key code of the escape key, which quits.
pub const KEY_ESCAPE: i32 = 27;

/// Modifier bits: left and right shift, control, alt, and meta (GUI) keys.
pub const MOD_LSHIFT: u16 = 0x0001;
pub const MOD_RSHIFT: u16 = 0x0002;
pub const MOD_LCTRL: u16 = 0x0040;
pub const MOD_RCTRL: u16 = 0x0080;
pub const MOD_LALT: u16 = 0x0100;
pub const MOD_RALT: u16 = 0x0200;
pub const MOD_LGUI: u16 = 0x0400;
pub const MOD_RGUI: u16 = 0x0800;

/// Whether modifier bit `bit` (a power of two) is set in `m`.
pub open spec fn has_mod(m: u16, bit: u16) -> bool {
    (m / bit) % 2 == 1
}

pub open spec fn shift_held(m: u16) -> bool {
    has_mod(m, MOD_LSHIFT) || has_mod(m, MOD_RSHIFT)
}

pub open spec fn ctrl_held(m: u16) -> bool {
    has_mod(m, MOD_LCTRL) || has_mod(m, MOD_RCTRL)
}

pub open spec fn alt_held(m: u16) -> bool {
    has_mod(m, MOD_LALT) || has_mod(m, MOD_RALT)
}

pub open spec fn meta_held(m: u16) -> bool {
    has_mod(m, MOD_LGUI) || has_mod(m, MOD_RGUI)
}

/// Whether either of modifier bits `left` and `right` is set in `m`.
fn either_held(m: u16, left: u16, right: u16) -> (r: bool)
    requires
        left == MOD_LSHIFT && right == MOD_RSHIFT || left == MOD_LCTRL && right == MOD_RCTRL
            || left == MOD_LALT && right == MOD_RALT || left == MOD_LGUI && right == MOD_RGUI,
    ensures
        r == (has_mod(m, left) || has_mod(m, right)),
{
    assert(((m & left) != 0) == ((m / left) % 2 == 1) && ((m & right) != 0) == ((m / right) % 2
        == 1)) by (bit_vector)
        requires
            left == 0x0001u16 && right == 0x0002u16 || left == 0x0040u16 && right == 0x0080u16
                || left == 0x0100u16 && right == 0x0200u16 || left == 0x0400u16 && right
                == 0x0800u16,
    ;
    m & left != 0 || m & right != 0
}

/// The keyboard table: the symbol that key `keycode` types, given whether shift is held,
/// or `None` for a key the terminal does not recognize. The digit row and the
/// punctuation keys type their shifted symbol under shift, as on a US keyboard.
pub open spec fn key_symbol(keycode: i32, shift: bool) -> Option<Seq<char>> {
    match keycode {
        9i32 => Some("Tab"@),  // Tab
        32i32 => Some(" "@),  // Space
        13i32 => Some("Enter"@),  // Return
        1073741904i32 => Some("ArrowLeft"@),  // Left
        1073741903i32 => Some("ArrowRight"@),  // Right
        1073741906i32 => Some("ArrowUp"@),  // Up
        1073741905i32 => Some("ArrowDown"@),  // Down
        8i32 => Some("Backspace"@),  // Backspace
        1073742049i32 => Some("Shift"@),  // LShift
        48i32 => Some(if shift { ")"@ } else { "0"@ }),  // Num0
        49i32 => Some(if shift { "!"@ } else { "1"@ }),  // Num1
        50i32 => Some(if shift { "@"@ } else { "2"@ }),  // Num2
        51i32 => Some(if shift { "#"@ } else { "3"@ }),  // Num3
        52i32 => Some(if shift { "$"@ } else { "4"@ }),  // Num4
        53i32 => Some(if shift { "%"@ } else { "5"@ }),  // Num5
        54i32 => Some(if shift { "^"@ } else { "6"@ }),  // Num6
        55i32 => Some(if shift { "&"@ } else { "7"@ }),  // Num7
        56i32 => Some(if shift { "*"@ } else { "8"@ }),  // Num8
        57i32 => Some(if shift { "("@ } else { "9"@ }),  // Num9
        97i32 => Some(if shift { "A"@ } else { "a"@ }),  // A
        98i32 => Some(if shift { "B"@ } else { "b"@ }),  // B
        99i32 => Some(if shift { "C"@ } else { "c"@ }),  // C
        100i32 => Some(if shift { "D"@ } else { "d"@ }),  // D
        101i32 => Some(if shift { "E"@ } else { "e"@ }),  // E
        102i32 => Some(if shift { "F"@ } else { "f"@ }),  // F
        103i32 => Some(if shift { "G"@ } else { "g"@ }),  // G
        104i32 => Some(if shift { "H"@ } else { "h"@ }),  // H
        105i32 => Some(if shift { "I"@ } else { "i"@ }),  // I
        106i32 => Some(if shift { "J"@ } else { "j"@ }),  // J
        107i32 => Some(if shift { "K"@ } else { "k"@ }),  // K
        108i32 => Some(if shift { "L"@ } else { "l"@ }),  // L
        109i32 => Some(if shift { "M"@ } else { "m"@ }),  // M
        110i32 => Some(if shift { "N"@ } else { "n"@ }),  // N
        111i32 => Some(if shift { "O"@ } else { "o"@ }),  // O
        112i32 => Some(if shift { "P"@ } else { "p"@ }),  // P
        113i32 => Some(if shift { "Q"@ } else { "q"@ }),  // Q
        114i32 => Some(if shift { "R"@ } else { "r"@ }),  // R
        115i32 => Some(if shift { "S"@ } else { "s"@ }),  // S
        116i32 => Some(if shift { "T"@ } else { "t"@ }),  // T
        117i32 => Some(if shift { "U"@ } else { "u"@ }),  // U
        118i32 => Some(if shift { "V"@ } else { "v"@ }),  // V
        119i32 => Some(if shift { "W"@ } else { "w"@ }),  // W
        120i32 => Some(if shift { "X"@ } else { "x"@ }),  // X
        121i32 => Some(if shift { "Y"@ } else { "y"@ }),  // Y
        122i32 => Some(if shift { "Z"@ } else { "z"@ }),  // Z
        61i32 => Some(if shift { "+"@ } else { "="@ }),  // Equals
        43i32 => Some("+"@),  // Plus
        47i32 => Some(if shift { "?"@ } else { "/"@ }),  // Slash
        63i32 => Some("?"@),  // Question
        46i32 => Some(if shift { ">"@ } else { "."@ }),  // Period
        62i32 => Some(">"@),  // Greater
        44i32 => Some(if shift { "<"@ } else { ","@ }),  // Comma
        60i32 => Some("<"@),  // Less
        92i32 => Some(if shift { "|"@ } else { "\\"@ }),  // Backslash
        58i32 => Some(":"@),  // Colon
        59i32 => Some(if shift { ":"@ } else { ";"@ }),  // Semicolon
        64i32 => Some("@"@),  // At
        45i32 => Some(if shift { "_"@ } else { "-"@ }),  // Minus
        95i32 => Some("_"@),  // Underscore
        33i32 => Some("!"@),  // Exclaim
        35i32 => Some("#"@),  // Hash
        96i32 => Some(if shift { "~"@ } else { "`"@ }),  // Backquote
        39i32 => Some(if shift { "\""@ } else { "'"@ }),  // Quote
        34i32 => Some("\""@),  // Quotedbl
        91i32 => Some(if shift { "{"@ } else { "["@ }),  // LeftBracket
        93i32 => Some(if shift { "}"@ } else { "]"@ }),  // RightBracket
        _ => None,
    }
}

fn key_text(keycode: i32, shift: bool) -> (r: Option<&'static str>)
    ensures
        match r {
            Some(s) => key_symbol(keycode, shift) == Some(s@),
            None => key_symbol(keycode, shift) is None,
        },
{
    let s = match keycode {
        9i32 => "Tab",  // Tab
        32i32 => " ",  // Space
        13i32 => "Enter",  // Return
        1073741904i32 => "ArrowLeft",  // Left
        1073741903i32 => "ArrowRight",  // Right
        1073741906i32 => "ArrowUp",  // Up
        1073741905i32 => "ArrowDown",  // Down
        8i32 => "Backspace",  // Backspace
        1073742049i32 => "Shift",  // LShift
        48i32 => if shift { ")" } else { "0" },  // Num0
        49i32 => if shift { "!" } else { "1" },  // Num1
        50i32 => if shift { "@" } else { "2" },  // Num2
        51i32 => if shift { "#" } else { "3" },  // Num3
        52i32 => if shift { "$" } else { "4" },  // Num4
        53i32 => if shift { "%" } else { "5" },  // Num5
        54i32 => if shift { "^" } else { "6" },  // Num6
        55i32 => if shift { "&" } else { "7" },  // Num7
        56i32 => if shift { "*" } else { "8" },  // Num8
        57i32 => if shift { "(" } else { "9" },  // Num9
        97i32 => if shift { "A" } else { "a" },  // A
        98i32 => if shift { "B" } else { "b" },  // B
        99i32 => if shift { "C" } else { "c" },  // C
        100i32 => if shift { "D" } else { "d" },  // D
        101i32 => if shift { "E" } else { "e" },  // E
        102i32 => if shift { "F" } else { "f" },  // F
        103i32 => if shift { "G" } else { "g" },  // G
        104i32 => if shift { "H" } else { "h" },  // H
        105i32 => if shift { "I" } else { "i" },  // I
        106i32 => if shift { "J" } else { "j" },  // J
        107i32 => if shift { "K" } else { "k" },  // K
        108i32 => if shift { "L" } else { "l" },  // L
        109i32 => if shift { "M" } else { "m" },  // M
        110i32 => if shift { "N" } else { "n" },  // N
        111i32 => if shift { "O" } else { "o" },  // O
        112i32 => if shift { "P" } else { "p" },  // P
        113i32 => if shift { "Q" } else { "q" },  // Q
        114i32 => if shift { "R" } else { "r" },  // R
        115i32 => if shift { "S" } else { "s" },  // S
        116i32 => if shift { "T" } else { "t" },  // T
        117i32 => if shift { "U" } else { "u" },  // U
        118i32 => if shift { "V" } else { "v" },  // V
        119i32 => if shift { "W" } else { "w" },  // W
        120i32 => if shift { "X" } else { "x" },  // X
        121i32 => if shift { "Y" } else { "y" },  // Y
        122i32 => if shift { "Z" } else { "z" },  // Z
        61i32 => if shift { "+" } else { "=" },  // Equals
        43i32 => "+",  // Plus
        47i32 => if shift { "?" } else { "/" },  // Slash
        63i32 => "?",  // Question
        46i32 => if shift { ">" } else { "." },  // Period
        62i32 => ">",  // Greater
        44i32 => if shift { "<" } else { "," },  // Comma
        60i32 => "<",  // Less
        92i32 => if shift { "|" } else { "\\" },  // Backslash
        58i32 => ":",  // Colon
        59i32 => if shift { ":" } else { ";" },  // Semicolon
        64i32 => "@",  // At
        45i32 => if shift { "_" } else { "-" },  // Minus
        95i32 => "_",  // Underscore
        33i32 => "!",  // Exclaim
        35i32 => "#",  // Hash
        96i32 => if shift { "~" } else { "`" },  // Backquote
        39i32 => if shift { "\"" } else { "'" },  // Quote
        34i32 => "\"",  // Quotedbl
        91i32 => if shift { "{" } else { "[" },  // LeftBracket
        93i32 => if shift { "}" } else { "]" },  // RightBracket
        _ => {
            return None;
        },
    };
    Some(s)
}

/// Translates a key press, with the modifier keys held, into key information; `None` for
/// a key outside the keyboard table.
pub fn translate_event(keycode: i32, keymod: u16) -> (r: Option<KeyEventInfo>)
    ensures
        key_translation(keycode, keymod, r),
{
    let shift = either_held(keymod, MOD_LSHIFT, MOD_RSHIFT);
    match key_text(keycode, shift) {
        Some(s) => Some(
            KeyEventInfo {
                key: String::from_str(s),
                alt: either_held(keymod, MOD_LALT, MOD_RALT),
                ctrl: either_held(keymod, MOD_LCTRL, MOD_RCTRL),
                meta: either_held(keymod, MOD_LGUI, MOD_RGUI),
                shift,
            },
        ),
        None => None,
    }
}

/// A notification of the platform's input system, as plain values.
pub enum SysEvent {
    /// The user closed the window.
    Quit,
    /// A key press, with the key's code if it has one and the modifier bits.
    KeyDown { keycode: Option<i32>, keymod: u16 },
    /// The window's new size.
    SizeChanged(i32, i32),
    /// The clipboard changed; the text read from it, or the reason it could not be read.
    ClipboardUpdate(core::result::Result<String, String>),
    /// Any other notification.
    Other,
}

/// A window size coordinate as a natural number; a negative one counts as zero.
pub open spec fn size_nat(v: i32) -> u64 {
    if v < 0 {
        0
    } else {
        v as u64
    }
}

/// Whether `r` is the translation of key press `keycode` with modifier bits `keymod`:
/// the key's symbol from the keyboard table and the modifiers held, or `None` for a key
/// outside the table.
pub open spec fn key_translation(keycode: i32, keymod: u16, r: Option<KeyEventInfo>) -> bool {
    match r {
        Some(k) => {
            &&& key_symbol(keycode, shift_held(keymod)) == Some(k.key@)
            &&& k.alt == alt_held(keymod)
            &&& k.ctrl == ctrl_held(keymod)
            &&& k.meta == meta_held(keymod)
            &&& k.shift == shift_held(keymod)
        },
        None => key_symbol(keycode, shift_held(keymod)) is None,
    }
}

/// Whether `r` is the event that notification `ev` stands for: quit on a quit notification
/// or the escape key, the new size on a resize, the clipboard text (or the reason it could
/// not be read) on a clipboard update, and the key on a key of the keyboard table.
pub open spec fn translates(ev: SysEvent, r: Option<Event>) -> bool {
    match ev {
        SysEvent::ClipboardUpdate(Ok(text)) => r == Some(Event::ClipBoard(text)),
        SysEvent::ClipboardUpdate(Err(why)) => r matches Some(Event::ClipBoard(t)) && t@ == "error: "@
            + why@,
        SysEvent::SizeChanged(w, h) => r == Some(
            Event::WindowSize(Dim { width: size_nat(w), height: size_nat(h) }),
        ),
        SysEvent::Quit => r == Some(Event::Quit),
        SysEvent::KeyDown { keycode: Some(kc), keymod } => if kc == KEY_ESCAPE {
            r == Some(Event::Quit)
        } else {
            match r {
                Some(Event::KeyDown(keys)) => keys@.len() == 1 && key_translation(
                    kc,
                    keymod,
                    Some(keys@[0]),
                ),
                None => key_translation(kc, keymod, None),
                _ => false,
            }
        },
        _ => r is None,
    }
}

/// Translates a platform notification into the terminal's event, if it stands for one.
/// A clipboard that cannot be read gives its reason as the text; it never fails.
pub fn translate_system_event(ev: SysEvent) -> (r: Option<Event>)
    ensures
        translates(ev, r),
{
    match ev {
        SysEvent::ClipboardUpdate(Ok(text)) => Some(Event::ClipBoard(text)),
        SysEvent::ClipboardUpdate(Err(why)) => {
            let text = String::from_str("error: ").concat(why.as_str());
            Some(Event::ClipBoard(text))
        },
        SysEvent::SizeChanged(w, h) => {
            let width: u64 = if w < 0 {
                0
            } else {
                w as u64
            };
            let height: u64 = if h < 0 {
                0
            } else {
                h as u64
            };
            Some(Event::WindowSize(Dim { width, height }))
        },
        SysEvent::Quit => Some(Event::Quit),
        SysEvent::KeyDown { keycode: Some(kc), keymod } => {
            if kc == KEY_ESCAPE {
                Some(Event::Quit)
            } else {
                match translate_event(kc, keymod) {
                    Some(k) => {
                        let keys = vec![k];
                        Some(Event::KeyDown(keys))
                    },
                    None => None,
                }
            }
        },
        _ => None,
    }
}

} // verus!
