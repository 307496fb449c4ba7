use roseterm::cell::Color;
use roseterm::event::RoseEvent;
use roseterm::input::{
    ctrl_key_to_byte, encode_chars, encode_mouse, push_decimal, special_key_bytes, utf8_bytes, Key,
};
use roseterm::palette::color_to_rgb;

#[test]
fn control_codes_of_letters() {
    let letters = [
        Key::A, Key::B, Key::C, Key::D, Key::E, Key::F, Key::G, Key::H, Key::I, Key::J, Key::K,
        Key::L, Key::M, Key::N, Key::O, Key::P, Key::Q, Key::R, Key::S, Key::T, Key::U, Key::V,
        Key::W, Key::X, Key::Y, Key::Z,
    ];
    for (i, key) in letters.iter().enumerate() {
        assert_eq!(ctrl_key_to_byte(*key), Some(i as u8 + 1));
    }
    assert_eq!(ctrl_key_to_byte(Key::C), Some(0x03));
    assert_eq!(ctrl_key_to_byte(Key::Z), Some(0x1a));
}

#[test]
fn control_codes_of_brackets() {
    assert_eq!(ctrl_key_to_byte(Key::LBracket), Some(0x1b));
    assert_eq!(ctrl_key_to_byte(Key::Backslash), Some(0x1c));
    assert_eq!(ctrl_key_to_byte(Key::RBracket), Some(0x1d));
    assert_eq!(ctrl_key_to_byte(Key::Caret), Some(0x1e));
    assert_eq!(ctrl_key_to_byte(Key::Slash), Some(0x1f));
}

#[test]
fn other_keys_have_no_control_code() {
    for key in [
        Key::Return, Key::Escape, Key::Back, Key::Delete, Key::Up, Key::Down, Key::Left,
        Key::Right, Key::PageUp, Key::PageDown, Key::Home, Key::End, Key::Insert,
    ] {
        assert_eq!(ctrl_key_to_byte(key), None);
    }
}

#[test]
fn special_key_table() {
    assert_eq!(special_key_bytes(Key::Return), Some(b"\r".to_vec()));
    assert_eq!(special_key_bytes(Key::Back), Some(vec![0x7f]));
    assert_eq!(special_key_bytes(Key::Delete), Some(b"\x1b[3~".to_vec()));
    assert_eq!(special_key_bytes(Key::Escape), Some(vec![0x1b]));
    assert_eq!(special_key_bytes(Key::Up), Some(b"\x1b[A".to_vec()));
    assert_eq!(special_key_bytes(Key::Down), Some(b"\x1b[B".to_vec()));
    assert_eq!(special_key_bytes(Key::Right), Some(b"\x1b[C".to_vec()));
    assert_eq!(special_key_bytes(Key::Left), Some(b"\x1b[D".to_vec()));
    assert_eq!(special_key_bytes(Key::PageUp), Some(b"\x1b[5~".to_vec()));
    assert_eq!(special_key_bytes(Key::PageDown), Some(b"\x1b[6~".to_vec()));
    assert_eq!(special_key_bytes(Key::Home), Some(b"\x1b[H".to_vec()));
    assert_eq!(special_key_bytes(Key::End), Some(b"\x1b[F".to_vec()));
    assert_eq!(special_key_bytes(Key::Insert), None);
    assert_eq!(special_key_bytes(Key::A), None);
    assert_eq!(special_key_bytes(Key::Slash), None);
}

#[test]
fn decimal_digits() {
    let mut text = String::from("n=");
    push_decimal(&mut text, 0);
    assert_eq!(text, "n=0");
    push_decimal(&mut text, 9);
    push_decimal(&mut text, 10);
    push_decimal(&mut text, 1234567890);
    assert_eq!(text, "n=09101234567890");
    let mut text = String::new();
    push_decimal(&mut text, u128::MAX);
    assert_eq!(text, "340282366920938463463374607431768211455");
}

#[test]
fn mouse_reports() {
    assert_eq!(encode_mouse(0, 3, 7, false), "\x1b[<0;4;8M");
    assert_eq!(encode_mouse(0, 3, 7, true), "\x1b[<0;4;8m");
    assert_eq!(encode_mouse(2, 0, 0, false), "\x1b[<2;1;1M");
    assert_eq!(encode_mouse(64, 79, 23, false), "\x1b[<64;80;24M");
    assert_eq!(encode_mouse(65, 9, 99, false), "\x1b[<65;10;100M");
    assert_eq!(encode_mouse(255, 0, 0, true), "\x1b[<255;1;1m");
}

#[test]
fn mouse_report_at_the_largest_cell() {
    let expected = format!("\x1b[<0;{};{}M", usize::MAX as u128 + 1, usize::MAX as u128 + 1);
    assert_eq!(encode_mouse(0, usize::MAX, usize::MAX, false), expected);
}

#[test]
fn characters_as_utf8() {
    assert_eq!(encode_chars(&vec!['a']), b"a".to_vec());
    assert_eq!(encode_chars(&vec!['é', '→', '𝄞', 'z']), "é→𝄞z".as_bytes().to_vec());
    assert_eq!(encode_chars(&vec![]), Vec::<u8>::new());
    assert_eq!(utf8_bytes(&String::from("日本")), "日本".as_bytes().to_vec());
}

#[test]
fn palette() {
    assert_eq!(color_to_rgb(Color::Black), (0, 0, 0));
    assert_eq!(color_to_rgb(Color::Red), (205, 49, 49));
    assert_eq!(color_to_rgb(Color::Green), (13, 188, 121));
    assert_eq!(color_to_rgb(Color::Yellow), (229, 229, 16));
    assert_eq!(color_to_rgb(Color::Blue), (36, 114, 200));
    assert_eq!(color_to_rgb(Color::Magenta), (188, 63, 188));
    assert_eq!(color_to_rgb(Color::Cyan), (17, 168, 205));
    assert_eq!(color_to_rgb(Color::White), (229, 229, 229));
    assert_eq!(color_to_rgb(Color::BrightBlack), (102, 102, 102));
    assert_eq!(color_to_rgb(Color::BrightRed), (241, 76, 76));
    assert_eq!(color_to_rgb(Color::BrightGreen), (35, 209, 139));
    assert_eq!(color_to_rgb(Color::BrightYellow), (245, 245, 67));
    assert_eq!(color_to_rgb(Color::BrightBlue), (59, 142, 234));
    assert_eq!(color_to_rgb(Color::BrightMagenta), (214, 112, 214));
    assert_eq!(color_to_rgb(Color::BrightCyan), (41, 184, 219));
    assert_eq!(color_to_rgb(Color::BrightWhite), (255, 255, 255));
    assert_eq!(color_to_rgb(Color::DefaultFg), (229, 229, 229));
    assert_eq!(color_to_rgb(Color::DefaultBg), (16, 16, 24));
}

#[test]
fn events_carry_their_bytes() {
    let event = RoseEvent::PtyOutput(vec![1, 2, 3]);
    assert!(matches!(event, RoseEvent::PtyOutput(ref bytes) if bytes.len() == 3));
    assert!(matches!(RoseEvent::Exit, RoseEvent::Exit));
}
