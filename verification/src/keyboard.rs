//! Scancode decoder.
//!
//! The keyboard controller delivers one byte per key transition (scancode
//! set 1). [`Keyboard::parse`] turns each byte into at most one
//! [`KeyEvent`] and keeps track of the two sticky modifiers. What every byte
//! means is fixed by the spec functions [`event`] and [`modifiers_after`].

use vstd::prelude::*;

verus! {

/// Either shift key going down.
pub const SHIFT_PRESS: u8 = 0x2a;

/// The other shift key going down.
pub const SHIFT_PRESS_ALT: u8 = 0x36;

/// The one shift release that is recognised. The release code of the second
/// shift key (`0xaa`) is an ordinary key release to the decoder, so shift
/// stays on when only that key is let go.
pub const SHIFT_RELEASE: u8 = 0xb6;

/// Caps lock going down: ignored.
pub const CAPSLOCK_PRESS: u8 = 0x3a;

/// Caps lock coming back up: this is what toggles the modifier.
pub const CAPSLOCK_RELEASE: u8 = 0xba;

/// What one scancode asks of the terminal.
#[derive(Debug, Clone, Copy, PartialEq, Eq)]
pub enum KeyEvent {
    Character(char),
    Backspace,
    Tab,
    Newline,
    Space,
    MoveUp,
    MoveDown,
    MoveLeft,
    MoveRight,
}

/// The decoder's state: the two sticky modifiers.
#[derive(Debug, Clone, Copy, PartialEq, Eq)]
pub struct Keyboard {
    pub capslock: bool,
    pub shifted: bool,
}

/// The digit row from `1` to `=`, as typed without shift.
pub open spec fn digit_row() -> Seq<char> {
    seq!['1', '2', '3', '4', '5', '6', '7', '8', '9', '0', '-', '=']
}

/// The digit row with shift held.
pub open spec fn digit_row_shifted() -> Seq<char> {
    seq!['!', '@', '#', '$', '%', '^', '&', '*', '(', ')', '_', '+']
}

/// The three letter rows, top to bottom, in lower case.
pub open spec fn top_row() -> Seq<char> {
    seq!['q', 'w', 'e', 'r', 't', 'y', 'u', 'i', 'o', 'p']
}

pub open spec fn home_row() -> Seq<char> {
    seq!['a', 's', 'd', 'f', 'g', 'h', 'j', 'k', 'l']
}

pub open spec fn bottom_row() -> Seq<char> {
    seq!['z', 'x', 'c', 'v', 'b', 'n', 'm']
}

pub open spec fn is_digit_code(code: u8) -> bool {
    0x02 <= code <= 0x0d
}

pub open spec fn is_letter_code(code: u8) -> bool {
    ||| 0x10 <= code <= 0x19
    ||| 0x1e <= code <= 0x26
    ||| 0x2c <= code <= 0x32
}

/// The lower-case letter on a letter key.
pub open spec fn letter(code: u8) -> char
    recommends
        is_letter_code(code),
{
    if code <= 0x19 {
        top_row()[code - 0x10]
    } else if code <= 0x26 {
        home_row()[code - 0x1e]
    } else {
        bottom_row()[code - 0x2c]
    }
}

pub open spec fn is_lower(c: char) -> bool {
    'a' <= c <= 'z'
}

pub open spec fn is_upper(c: char) -> bool {
    'A' <= c <= 'Z'
}

/// The capital of a lower-case ASCII letter.
pub open spec fn upper(c: char) -> char
    recommends
        is_lower(c),
{
    ((c as int) - 32) as char
}

/// The punctuation keys: the glyph without shift, then the one with shift.
pub open spec fn punctuation(code: u8) -> Option<(char, char)> {
    if code == 0x1a {
        Some(('[', '{'))
    } else if code == 0x1b {
        Some((']', '}'))
    } else if code == 0x27 {
        Some((';', ':'))
    } else if code == 0x28 {
        Some(('\'', '"'))
    } else if code == 0x29 {
        Some(('`', '~'))
    } else if code == 0x2b {
        Some(('\\', '|'))
    } else if code == 0x33 {
        Some((',', '<'))
    } else if code == 0x34 {
        Some(('.', '>'))
    } else if code == 0x35 {
        Some(('/', '?'))
    } else {
        None
    }
}

/// The character that a key types under the given modifiers, if it types one.
///
/// Digits and punctuation follow shift alone. Letters are capitals when
/// caps lock or shift is on; the two do not cancel.
pub open spec fn glyph(code: u8, capslock: bool, shifted: bool) -> Option<char> {
    if is_digit_code(code) {
        Some(
            if shifted {
                digit_row_shifted()[code - 0x02]
            } else {
                digit_row()[code - 0x02]
            },
        )
    } else if is_letter_code(code) {
        Some(
            if capslock || shifted {
                upper(letter(code))
            } else {
                letter(code)
            },
        )
    } else {
        match punctuation(code) {
            Some((plain, alternate)) => Some(
                if shifted {
                    alternate
                } else {
                    plain
                },
            ),
            None => None,
        }
    }
}

/// What a scancode produces under the given modifiers. `None` stands for the
/// modifier keys themselves, every key release and every unassigned code.
pub open spec fn event(code: u8, capslock: bool, shifted: bool) -> Option<KeyEvent> {
    if code == 0x0e {
        Some(KeyEvent::Backspace)
    } else if code == 0x0f {
        Some(KeyEvent::Tab)
    } else if code == 0x1c {
        Some(KeyEvent::Newline)
    } else if code == 0x39 {
        Some(KeyEvent::Space)
    } else if code == 0x48 {
        Some(KeyEvent::MoveUp)
    } else if code == 0x4b {
        Some(KeyEvent::MoveLeft)
    } else if code == 0x4d {
        Some(KeyEvent::MoveRight)
    } else if code == 0x50 {
        Some(KeyEvent::MoveDown)
    } else {
        match glyph(code, capslock, shifted) {
            Some(c) => Some(KeyEvent::Character(c)),
            None => None,
        }
    }
}

/// The modifiers after a scancode has been seen.
pub open spec fn modifiers_after(keyboard: Keyboard, code: u8) -> Keyboard {
    Keyboard {
        capslock: if code == CAPSLOCK_RELEASE {
            !keyboard.capslock
        } else {
            keyboard.capslock
        },
        shifted: if code == SHIFT_PRESS || code == SHIFT_PRESS_ALT {
            true
        } else if code == SHIFT_RELEASE {
            false
        } else {
            keyboard.shifted
        },
    }
}

impl Keyboard {
    /// A keyboard with both modifiers off.
    pub fn new() -> (keyboard: Keyboard)
        ensures
            keyboard == (Keyboard { capslock: false, shifted: false }),
    {
        Keyboard { capslock: false, shifted: false }
    }

    /// Decodes one scancode. Every byte has a defined outcome; most produce
    /// nothing.
    pub fn parse(&mut self, code: u8) -> (output: Option<KeyEvent>)
        ensures
            output == event(code, old(self).capslock, old(self).shifted),
            *final(self) == modifiers_after(*old(self), code),
    {
        match (code, self.capslock, self.shifted) {
            (0x02..=0x0d, _, false) => match code {
                0x02 => Some(KeyEvent::Character('1')),
                0x03 => Some(KeyEvent::Character('2')),
                0x04 => Some(KeyEvent::Character('3')),
                0x05 => Some(KeyEvent::Character('4')),
                0x06 => Some(KeyEvent::Character('5')),
                0x07 => Some(KeyEvent::Character('6')),
                0x08 => Some(KeyEvent::Character('7')),
                0x09 => Some(KeyEvent::Character('8')),
                0x0a => Some(KeyEvent::Character('9')),
                0x0b => Some(KeyEvent::Character('0')),
                0x0c => Some(KeyEvent::Character('-')),
                _ => Some(KeyEvent::Character('=')),
            },
            (0x02..=0x0d, _, true) => match code {
                0x02 => Some(KeyEvent::Character('!')),
                0x03 => Some(KeyEvent::Character('@')),
                0x04 => Some(KeyEvent::Character('#')),
                0x05 => Some(KeyEvent::Character('$')),
                0x06 => Some(KeyEvent::Character('%')),
                0x07 => Some(KeyEvent::Character('^')),
                0x08 => Some(KeyEvent::Character('&')),
                0x09 => Some(KeyEvent::Character('*')),
                0x0a => Some(KeyEvent::Character('(')),
                0x0b => Some(KeyEvent::Character(')')),
                0x0c => Some(KeyEvent::Character('_')),
                _ => Some(KeyEvent::Character('+')),
            },
            (0x0e, _, _) => Some(KeyEvent::Backspace),
            (0x0f, _, _) => Some(KeyEvent::Tab),
            (0x1c, _, _) => Some(KeyEvent::Newline),
            (0x10..=0x19 | 0x1e..=0x26 | 0x2c..=0x32, false, false) => match code {
                0x10 => Some(KeyEvent::Character('q')),
                0x11 => Some(KeyEvent::Character('w')),
                0x12 => Some(KeyEvent::Character('e')),
                0x13 => Some(KeyEvent::Character('r')),
                0x14 => Some(KeyEvent::Character('t')),
                0x15 => Some(KeyEvent::Character('y')),
                0x16 => Some(KeyEvent::Character('u')),
                0x17 => Some(KeyEvent::Character('i')),
                0x18 => Some(KeyEvent::Character('o')),
                0x19 => Some(KeyEvent::Character('p')),
                0x1e => Some(KeyEvent::Character('a')),
                0x1f => Some(KeyEvent::Character('s')),
                0x20 => Some(KeyEvent::Character('d')),
                0x21 => Some(KeyEvent::Character('f')),
                0x22 => Some(KeyEvent::Character('g')),
                0x23 => Some(KeyEvent::Character('h')),
                0x24 => Some(KeyEvent::Character('j')),
                0x25 => Some(KeyEvent::Character('k')),
                0x26 => Some(KeyEvent::Character('l')),
                0x2c => Some(KeyEvent::Character('z')),
                0x2d => Some(KeyEvent::Character('x')),
                0x2e => Some(KeyEvent::Character('c')),
                0x2f => Some(KeyEvent::Character('v')),
                0x30 => Some(KeyEvent::Character('b')),
                0x31 => Some(KeyEvent::Character('n')),
                _ => Some(KeyEvent::Character('m')),
            },
            (0x10..=0x19 | 0x1e..=0x26 | 0x2c..=0x32, _, _) => match code {
                0x10 => Some(KeyEvent::Character('Q')),
                0x11 => Some(KeyEvent::Character('W')),
                0x12 => Some(KeyEvent::Character('E')),
                0x13 => Some(KeyEvent::Character('R')),
                0x14 => Some(KeyEvent::Character('T')),
                0x15 => Some(KeyEvent::Character('Y')),
                0x16 => Some(KeyEvent::Character('U')),
                0x17 => Some(KeyEvent::Character('I')),
                0x18 => Some(KeyEvent::Character('O')),
                0x19 => Some(KeyEvent::Character('P')),
                0x1e => Some(KeyEvent::Character('A')),
                0x1f => Some(KeyEvent::Character('S')),
                0x20 => Some(KeyEvent::Character('D')),
                0x21 => Some(KeyEvent::Character('F')),
                0x22 => Some(KeyEvent::Character('G')),
                0x23 => Some(KeyEvent::Character('H')),
                0x24 => Some(KeyEvent::Character('J')),
                0x25 => Some(KeyEvent::Character('K')),
                0x26 => Some(KeyEvent::Character('L')),
                0x2c => Some(KeyEvent::Character('Z')),
                0x2d => Some(KeyEvent::Character('X')),
                0x2e => Some(KeyEvent::Character('C')),
                0x2f => Some(KeyEvent::Character('V')),
                0x30 => Some(KeyEvent::Character('B')),
                0x31 => Some(KeyEvent::Character('N')),
                _ => Some(KeyEvent::Character('M')),
            },
            (0x1a, _, false) => Some(KeyEvent::Character('[')),
            (0x1a, _, true) => Some(KeyEvent::Character('{')),
            (0x1b, _, false) => Some(KeyEvent::Character(']')),
            (0x1b, _, true) => Some(KeyEvent::Character('}')),
            (0x33, _, false) => Some(KeyEvent::Character(',')),
            (0x33, _, true) => Some(KeyEvent::Character('<')),
            (0x34, _, false) => Some(KeyEvent::Character('.')),
            (0x34, _, true) => Some(KeyEvent::Character('>')),
            (0x27, _, false) => Some(KeyEvent::Character(';')),
            (0x27, _, true) => Some(KeyEvent::Character(':')),
            (0x28, _, false) => Some(KeyEvent::Character('\'')),
            (0x28, _, true) => Some(KeyEvent::Character('"')),
            (0x29, _, false) => Some(KeyEvent::Character('`')),
            (0x29, _, true) => Some(KeyEvent::Character('~')),
            (0x2b, _, false) => Some(KeyEvent::Character('\\')),
            (0x2b, _, true) => Some(KeyEvent::Character('|')),
            (0x35, _, false) => Some(KeyEvent::Character('/')),
            (0x35, _, true) => Some(KeyEvent::Character('?')),
            (0x39, _, _) => Some(KeyEvent::Space),
            (0x2a, _, _) | (0x36, _, _) => {
                self.shifted = true;
                None
            },
            (0xb6, _, _) => {
                self.shifted = false;
                None
            },
            (0xba, _, _) => {
                self.capslock = !self.capslock;
                None
            },
            (0x48, _, _) => Some(KeyEvent::MoveUp),
            (0x4b, _, _) => Some(KeyEvent::MoveLeft),
            (0x4d, _, _) => Some(KeyEvent::MoveRight),
            (0x50, _, _) => Some(KeyEvent::MoveDown),
            (_, _, _) => None,
        }
    }
}

/// Digit keys follow shift alone: without shift they type the plain digit
/// row, with shift its symbols, and caps lock makes no difference. They leave
/// the modifiers as they were.
pub proof fn digit_keys_follow_shift_alone(keyboard: Keyboard, code: u8)
    requires
        is_digit_code(code),
    ensures
        event(code, keyboard.capslock, keyboard.shifted) == Some(
            KeyEvent::Character(
                if keyboard.shifted {
                    digit_row_shifted()[code - 0x02]
                } else {
                    digit_row()[code - 0x02]
                },
            ),
        ),
        event(code, !keyboard.capslock, keyboard.shifted) == event(
            code,
            keyboard.capslock,
            keyboard.shifted,
        ),
        modifiers_after(keyboard, code) == keyboard,
{
}

/// Every letter key holds a lower-case letter.
pub proof fn letter_keys_hold_lower_case(code: u8)
    requires
        is_letter_code(code),
    ensures
        is_lower(letter(code)),
        is_upper(upper(letter(code))),
{
    if code <= 0x19 {
        assert(top_row().len() == 10);
        assert(forall|i: int| 0 <= i < 10 ==> is_lower(#[trigger] top_row()[i]));
    } else if code <= 0x26 {
        assert(home_row().len() == 9);
        assert(forall|i: int| 0 <= i < 9 ==> is_lower(#[trigger] home_row()[i]));
    } else {
        assert(bottom_row().len() == 7);
        assert(forall|i: int| 0 <= i < 7 ==> is_lower(#[trigger] bottom_row()[i]));
    }
}

/// A letter key types a capital exactly when caps lock or shift is on, and
/// the lower-case letter exactly when both are off. Holding shift while caps
/// lock is on still gives the capital.
pub proof fn letter_case_follows_modifiers(code: u8, capslock: bool, shifted: bool)
    requires
        is_letter_code(code),
    ensures
        event(code, capslock, shifted) matches Some(KeyEvent::Character(c)) && {
            &&& is_upper(c) <==> capslock || shifted
            &&& is_lower(c) <==> !capslock && !shifted
            &&& capslock || shifted ==> c == upper(letter(code))
            &&& !capslock && !shifted ==> c == letter(code)
        },
{
    letter_keys_hold_lower_case(code);
}

/// Pressing either shift key turns shift on, and the release code turns it
/// off again, whatever the state before. Caps lock is untouched by both.
pub proof fn shift_press_then_release(keyboard: Keyboard, press: u8)
    requires
        press == SHIFT_PRESS || press == SHIFT_PRESS_ALT,
    ensures
        modifiers_after(keyboard, press).shifted,
        !modifiers_after(modifiers_after(keyboard, press), SHIFT_RELEASE).shifted,
        modifiers_after(modifiers_after(keyboard, press), SHIFT_RELEASE).capslock
            == keyboard.capslock,
        event(press, keyboard.capslock, keyboard.shifted) is None,
        event(SHIFT_RELEASE, keyboard.capslock, true) is None,
{
}

/// Shift stays as it is under every code but the two presses and the one
/// release. In particular the second shift key's own release code, `0xaa`,
/// does not turn shift off.
pub proof fn shift_changes_on_its_codes_only(keyboard: Keyboard, code: u8)
    requires
        code != SHIFT_PRESS,
        code != SHIFT_PRESS_ALT,
        code != SHIFT_RELEASE,
    ensures
        modifiers_after(keyboard, code).shifted == keyboard.shifted,
        modifiers_after(keyboard, 0xaa) == keyboard,
{
}

/// Caps lock toggles when its key is released and at no other time: the
/// press code alone changes nothing and produces nothing.
pub proof fn capslock_toggles_on_release_only(keyboard: Keyboard, code: u8)
    ensures
        modifiers_after(keyboard, CAPSLOCK_RELEASE).capslock == !keyboard.capslock,
        code != CAPSLOCK_RELEASE ==> modifiers_after(keyboard, code).capslock == keyboard.capslock,
        modifiers_after(keyboard, CAPSLOCK_PRESS) == keyboard,
        event(CAPSLOCK_PRESS, keyboard.capslock, keyboard.shifted) is None,
        event(CAPSLOCK_RELEASE, keyboard.capslock, keyboard.shifted) is None,
{
}

/// Key releases, the codes with the high bit set, never produce an event.
pub proof fn releases_produce_nothing(code: u8, capslock: bool, shifted: bool)
    requires
        code >= 0x80,
    ensures
        event(code, capslock, shifted) is None,
{
}

/// Whatever a key types is printable ASCII.
pub proof fn glyphs_are_printable(code: u8, capslock: bool, shifted: bool)
    ensures
        glyph(code, capslock, shifted) matches Some(c) ==> 0x21 <= c as u32 <= 0x7e,
{
    if is_digit_code(code) {
        assert(digit_row().len() == 12);
        assert(forall|i: int| 0 <= i < 12 ==> 0x21 <= (#[trigger] digit_row()[i]) as u32 <= 0x7e);
        assert(digit_row_shifted().len() == 12);
        assert(forall|i: int|
            0 <= i < 12 ==> 0x21 <= (#[trigger] digit_row_shifted()[i]) as u32 <= 0x7e);
    } else if is_letter_code(code) {
        letter_keys_hold_lower_case(code);
    }
}

} // verus!
