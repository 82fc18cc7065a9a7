//! From a scancode to the grid: what each key event does to the screen.

use vstd::prelude::*;
use vstd::utf8::encode_scalar;
use crate::keyboard::{event, modifiers_after, KeyEvent, Keyboard};
use crate::screen::{is_printable, Screen, LINE_FEED, PLACEHOLDER};
use crate::upkeep::{write_all_keeps_invariant, write_keeps_invariant};
use crate::vga_buffer::Writer;

verus! {

/// The screen after a key event has been carried out.
///
/// A character is typed as the bytes of its UTF-8 form, so one that is not
/// ASCII shows as one placeholder for each of those bytes. The tab key has
/// no glyph of its own and shows as the placeholder too.
pub open spec fn carried_out(screen: Screen, event: KeyEvent) -> Screen {
    match event {
        KeyEvent::Character(c) => screen.write_all(encode_scalar(c as u32)),
        KeyEvent::Backspace => screen.backspace(),
        KeyEvent::Tab => screen.write(0x09),
        KeyEvent::Newline => screen.new_line(),
        KeyEvent::Space => screen.write(0x20),
        KeyEvent::MoveUp => screen.move_up(),
        KeyEvent::MoveDown => screen.move_down(),
        KeyEvent::MoveLeft => screen.move_left(),
        KeyEvent::MoveRight => screen.move_right(),
    }
}

/// The screen after one scancode, decoded under the given modifiers.
pub open spec fn after_scancode(screen: Screen, keyboard: Keyboard, code: u8) -> Screen {
    match event(code, keyboard.capslock, keyboard.shifted) {
        Some(e) => carried_out(screen, e),
        None => screen,
    }
}

/// Typing bytes one at a time is typing them all.
pub proof fn write_all_push(screen: Screen, bytes: Seq<u8>, byte: u8)
    ensures
        screen.write_all(bytes.push(byte)) == screen.write_all(bytes).write(byte),
        screen.write_all(Seq::empty()) == screen,
{
    assert(bytes.push(byte).drop_last() =~= bytes);
}

/// Every byte that is neither printable nor the line feed shows as the same
/// glyph.
pub proof fn unprintable_bytes_look_alike(screen: Screen, byte: u8)
    requires
        !is_printable(byte),
        byte != LINE_FEED,
    ensures
        screen.write(byte) == screen.write(PLACEHOLDER),
{
}

/// Types a character as the bytes of its UTF-8 form.
pub fn print_char(writer: &mut Writer, c: char)
    requires
        old(writer).wf(),
    ensures
        final(writer).wf(),
        final(writer)@ == old(writer)@.write_all(encode_scalar(c as u32)),
        old(writer)@.marked() ==> final(writer)@.marked(),
{
    let scalar: u32 = c as u32;
    let ghost start = writer@;
    let ghost none = Seq::<u8>::empty();
    proof {
        write_all_keeps_invariant(start, encode_scalar(scalar));
    }
    if scalar < 0x80 {
        let byte: u8 = scalar as u8;
        assert((scalar & 0x7f) as u8 == scalar) by (bit_vector)
            requires
                scalar < 0x80,
        ;
        writer.write(byte);
        proof {
            write_all_push(start, none, byte);
        }
    } else {
        let ghost low = (scalar & 0x3f) as u8;
        let ghost mid = ((scalar >> 6) & 0x3f) as u8;
        let ghost high = ((scalar >> 12) & 0x3f) as u8;
        let ghost lead2 = ((scalar >> 6) & 0x1f) as u8;
        let ghost lead3 = ((scalar >> 12) & 0x0f) as u8;
        let ghost lead4 = ((scalar >> 18) & 0x7) as u8;
        assert(0x80u8 | low >= 0x80) by (bit_vector);
        assert(0x80u8 | mid >= 0x80) by (bit_vector);
        assert(0x80u8 | high >= 0x80) by (bit_vector);
        assert(0xc0u8 | lead2 >= 0x80) by (bit_vector);
        assert(0xe0u8 | lead3 >= 0x80) by (bit_vector);
        assert(0xf0u8 | lead4 >= 0x80) by (bit_vector);
        let width: usize = if scalar < 0x800 {
            2
        } else if scalar < 0x10000 {
            3
        } else {
            4
        };
        let ghost bytes = encode_scalar(scalar);
        assert(bytes.len() == width);
        for i in 0..width
            invariant
                writer.wf(),
                bytes.len() == width,
                forall|k: int| 0 <= k < width ==> #[trigger] bytes[k] >= 0x80,
                writer@ == start.write_all(bytes.take(i as int)),
        {
            proof {
                let shown = bytes.take(i as int);
                assert(bytes.take(i + 1) =~= shown.push(bytes[i as int]));
                write_all_push(start, shown, bytes[i as int]);
                unprintable_bytes_look_alike(writer@, bytes[i as int]);
            }
            writer.write(PLACEHOLDER);
        }
        assert(bytes.take(width as int) =~= bytes);
    }
}

/// Carries out one key event on the grid.
pub fn dispatch(writer: &mut Writer, event: KeyEvent)
    requires
        old(writer).wf(),
    ensures
        final(writer).wf(),
        final(writer)@ == carried_out(old(writer)@, event),
        old(writer)@.marked() ==> final(writer)@.marked(),
{
    match event {
        KeyEvent::Character(c) => print_char(writer, c),
        KeyEvent::Backspace => writer.backspace(),
        KeyEvent::Tab => writer.write(0x09),
        KeyEvent::Newline => writer.new_line(),
        KeyEvent::Space => writer.write(0x20),
        KeyEvent::MoveUp => writer.move_up(),
        KeyEvent::MoveDown => writer.move_down(),
        KeyEvent::MoveLeft => writer.move_left(),
        KeyEvent::MoveRight => writer.move_right(),
    }
}

/// Handles one byte from the keyboard: decodes it and carries out what it
/// asks for. Codes that produce no event leave the grid as it is.
pub fn keyboard_interrupt_handler(keyboard: &mut Keyboard, writer: &mut Writer, scancode: u8)
    requires
        old(writer).wf(),
    ensures
        final(writer).wf(),
        *final(keyboard) == modifiers_after(*old(keyboard), scancode),
        final(writer)@ == after_scancode(old(writer)@, *old(keyboard), scancode),
        old(writer)@.marked() ==> final(writer)@.marked(),
{
    if let Some(key) = keyboard.parse(scancode) {
        dispatch(writer, key);
    }
}

} // verus!
