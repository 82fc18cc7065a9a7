use ros::keyboard::{KeyEvent, Keyboard};
use ros::terminal::{dispatch, keyboard_interrupt_handler, print_char};
use ros::vga_buffer::{ColorCode, ScreenChar, Writer};

const NORMAL: ColorCode = ColorCode(0x02);
const HIGHLIGHT: ColorCode = ColorCode(0x20);
const MARKER: ScreenChar = ScreenChar { ascii_character: b'\n', color_code: ColorCode(0x00) };

fn feed(keyboard: &mut Keyboard, writer: &mut Writer, codes: &[u8]) {
    for &code in codes {
        keyboard_interrupt_handler(keyboard, writer, code);
    }
}

#[test]
fn typing_a_s_enter() {
    let mut keyboard = Keyboard::new();
    let mut writer = Writer::new();
    feed(&mut keyboard, &mut writer, &[0x1e, 0x1f, 0x1c]);
    assert_eq!(writer.cell(0, 0), ScreenChar { ascii_character: b'a', color_code: NORMAL });
    assert_eq!(writer.cell(0, 1), ScreenChar { ascii_character: b's', color_code: NORMAL });
    assert_eq!(writer.cell(0, 2), MARKER);
    assert_eq!((writer.row(), writer.column()), (1, 0));
    assert_eq!(writer.cell(1, 0), ScreenChar { ascii_character: 0, color_code: HIGHLIGHT });
    assert_eq!(keyboard, Keyboard { capslock: false, shifted: false });
}

#[test]
fn typing_with_shift_held() {
    let mut keyboard = Keyboard::new();
    let mut writer = Writer::new();
    feed(&mut keyboard, &mut writer, &[0x2a, 0x1e, 0xb6]);
    assert_eq!(writer.cell(0, 0).ascii_character, b'A');
    assert_eq!((writer.row(), writer.column()), (0, 1));
    assert!(!keyboard.shifted);
    feed(&mut keyboard, &mut writer, &[0x1e]);
    assert_eq!(writer.cell(0, 1).ascii_character, b'a');
}

#[test]
fn codes_without_event_leave_the_grid_alone() {
    let mut keyboard = Keyboard::new();
    let mut writer = Writer::new();
    feed(&mut keyboard, &mut writer, &[0x1e]);
    feed(&mut keyboard, &mut writer, &[0x9e, 0x3a, 0x00, 0x2a, 0xaa, 0xba, 0xff]);
    assert_eq!((writer.row(), writer.column()), (0, 1));
    assert_eq!(writer.cell(0, 0).ascii_character, b'a');
    assert_eq!(writer.cell(0, 1), ScreenChar { ascii_character: 0, color_code: HIGHLIGHT });
    assert_eq!(keyboard, Keyboard { capslock: true, shifted: true });
}

#[test]
fn backspace_and_arrows_reach_the_grid() {
    let mut keyboard = Keyboard::new();
    let mut writer = Writer::new();
    feed(&mut keyboard, &mut writer, &[0x1e, 0x1f, 0x20, 0x0e]);
    assert_eq!((writer.row(), writer.column()), (0, 2));
    assert_eq!(writer.cell(0, 2), ScreenChar { ascii_character: 0, color_code: HIGHLIGHT });
    feed(&mut keyboard, &mut writer, &[0x50]);
    assert_eq!((writer.row(), writer.column()), (1, 2));
    feed(&mut keyboard, &mut writer, &[0x4d]);
    assert_eq!((writer.row(), writer.column()), (1, 3));
    feed(&mut keyboard, &mut writer, &[0x4b, 0x4b]);
    assert_eq!((writer.row(), writer.column()), (1, 1));
    feed(&mut keyboard, &mut writer, &[0x48]);
    assert_eq!((writer.row(), writer.column()), (0, 1));
    assert_eq!(writer.cell(0, 1), ScreenChar { ascii_character: b's', color_code: HIGHLIGHT });
}

#[test]
fn space_and_tab_keys() {
    let mut keyboard = Keyboard::new();
    let mut writer = Writer::new();
    feed(&mut keyboard, &mut writer, &[0x39, 0x0f]);
    assert_eq!(writer.cell(0, 0).ascii_character, b' ');
    assert_eq!(writer.cell(0, 1).ascii_character, 0xfe);
    assert_eq!((writer.row(), writer.column()), (0, 2));
}

#[test]
fn dispatch_carries_out_each_event() {
    let mut writer = Writer::new();
    dispatch(&mut writer, KeyEvent::Character('x'));
    dispatch(&mut writer, KeyEvent::Space);
    dispatch(&mut writer, KeyEvent::Tab);
    dispatch(&mut writer, KeyEvent::Newline);
    assert_eq!(writer.cell(0, 0).ascii_character, b'x');
    assert_eq!(writer.cell(0, 1).ascii_character, b' ');
    assert_eq!(writer.cell(0, 2).ascii_character, 0xfe);
    assert_eq!(writer.cell(0, 3), MARKER);
    assert_eq!((writer.row(), writer.column()), (1, 0));
    dispatch(&mut writer, KeyEvent::Backspace);
    assert_eq!((writer.row(), writer.column()), (0, 3));
    dispatch(&mut writer, KeyEvent::MoveDown);
    assert_eq!((writer.row(), writer.column()), (1, 3));
    dispatch(&mut writer, KeyEvent::MoveRight);
    assert_eq!((writer.row(), writer.column()), (1, 4));
    dispatch(&mut writer, KeyEvent::MoveUp);
    assert_eq!((writer.row(), writer.column()), (0, 4));
    dispatch(&mut writer, KeyEvent::MoveLeft);
    assert_eq!((writer.row(), writer.column()), (0, 3));
}

#[test]
fn print_char_writes_ascii_as_itself() {
    let mut writer = Writer::new();
    print_char(&mut writer, 'Q');
    print_char(&mut writer, '~');
    print_char(&mut writer, '\u{7f}');
    print_char(&mut writer, '\n');
    assert_eq!(writer.cell(0, 0).ascii_character, b'Q');
    assert_eq!(writer.cell(0, 1).ascii_character, b'~');
    assert_eq!(writer.cell(0, 2).ascii_character, 0xfe);
    assert_eq!(writer.cell(0, 3), MARKER);
    assert_eq!((writer.row(), writer.column()), (1, 0));
}

#[test]
fn print_char_writes_one_placeholder_per_encoded_byte() {
    for (c, width) in [('\u{80}', 2usize), ('é', 2), ('\u{7ff}', 2), ('\u{800}', 3), ('€', 3),
        ('\u{ffff}', 3), ('\u{10000}', 4), ('😀', 4), ('\u{10ffff}', 4)]
    {
        assert_eq!(c.len_utf8(), width);
        let mut writer = Writer::new();
        print_char(&mut writer, c);
        assert_eq!((writer.row(), writer.column()), (0, width));
        for col in 0..width {
            assert_eq!(writer.cell(0, col), ScreenChar { ascii_character: 0xfe, color_code: NORMAL });
        }
        let mut by_string = Writer::new();
        by_string.write_string(&c.to_string());
        for col in 0..=width {
            assert_eq!(writer.cell(0, col), by_string.cell(0, col));
        }
    }
}
