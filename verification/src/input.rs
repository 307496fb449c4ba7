//! The input encoder: the byte sequences that keys and mouse events are
//! sent to the shell as.

use vstd::prelude::*;
use vstd::string::StrSliceExecFns;
use vstd::utf8::encode_utf8;

verus! {

/// The keys the encoder knows. Letters and brackets matter together with
/// Control; the rest are the special keys.
#[derive(Clone, Copy, Debug, PartialEq, Eq, Structural)]
pub enum Key {
    A,
    B,
    C,
    D,
    E,
    F,
    G,
    H,
    I,
    J,
    K,
    L,
    M,
    N,
    O,
    P,
    Q,
    R,
    S,
    T,
    U,
    V,
    W,
    X,
    Y,
    Z,
    LBracket,
    Backslash,
    RBracket,
    Caret,
    Slash,
    Return,
    Escape,
    Back,
    Delete,
    Up,
    Down,
    Left,
    Right,
    PageUp,
    PageDown,
    Home,
    End,
    Insert,
}

/// The control code that Control together with `key` stands for: 1 to 26
/// for the letters, 27 to 31 for the brackets and signs that follow them in
/// the code table, and none for any other key.
pub open spec fn ctrl_byte(key: Key) -> Option<u8> {
    match key {
        Key::A => Some(1u8),
        Key::B => Some(2u8),
        Key::C => Some(3u8),
        Key::D => Some(4u8),
        Key::E => Some(5u8),
        Key::F => Some(6u8),
        Key::G => Some(7u8),
        Key::H => Some(8u8),
        Key::I => Some(9u8),
        Key::J => Some(10u8),
        Key::K => Some(11u8),
        Key::L => Some(12u8),
        Key::M => Some(13u8),
        Key::N => Some(14u8),
        Key::O => Some(15u8),
        Key::P => Some(16u8),
        Key::Q => Some(17u8),
        Key::R => Some(18u8),
        Key::S => Some(19u8),
        Key::T => Some(20u8),
        Key::U => Some(21u8),
        Key::V => Some(22u8),
        Key::W => Some(23u8),
        Key::X => Some(24u8),
        Key::Y => Some(25u8),
        Key::Z => Some(26u8),
        Key::LBracket => Some(27u8),
        Key::Backslash => Some(28u8),
        Key::RBracket => Some(29u8),
        Key::Caret => Some(30u8),
        Key::Slash => Some(31u8),
        _ => None,
    }
}

/// The control code that Control together with `key` stands for.
pub fn ctrl_key_to_byte(key: Key) -> (byte: Option<u8>)
    ensures
        byte == ctrl_byte(key),
{
    match key {
        Key::A => Some(1),
        Key::B => Some(2),
        Key::C => Some(3),
        Key::D => Some(4),
        Key::E => Some(5),
        Key::F => Some(6),
        Key::G => Some(7),
        Key::H => Some(8),
        Key::I => Some(9),
        Key::J => Some(10),
        Key::K => Some(11),
        Key::L => Some(12),
        Key::M => Some(13),
        Key::N => Some(14),
        Key::O => Some(15),
        Key::P => Some(16),
        Key::Q => Some(17),
        Key::R => Some(18),
        Key::S => Some(19),
        Key::T => Some(20),
        Key::U => Some(21),
        Key::V => Some(22),
        Key::W => Some(23),
        Key::X => Some(24),
        Key::Y => Some(25),
        Key::Z => Some(26),
        Key::LBracket => Some(27),
        Key::Backslash => Some(28),
        Key::RBracket => Some(29),
        Key::Caret => Some(30),
        Key::Slash => Some(31),
        _ => None,
    }
}

/// The bytes a special key is sent as; none for a key that is not special.
pub open spec fn key_sequence(key: Key) -> Option<Seq<u8>> {
    match key {
        Key::Return => Some(seq![0x0du8]),
        Key::Escape => Some(seq![0x1bu8]),
        Key::Back => Some(seq![0x7fu8]),
        Key::Delete => Some(seq![0x1bu8, 0x5bu8, 0x33u8, 0x7eu8]),
        Key::Up => Some(seq![0x1bu8, 0x5bu8, 0x41u8]),
        Key::Down => Some(seq![0x1bu8, 0x5bu8, 0x42u8]),
        Key::Right => Some(seq![0x1bu8, 0x5bu8, 0x43u8]),
        Key::Left => Some(seq![0x1bu8, 0x5bu8, 0x44u8]),
        Key::PageUp => Some(seq![0x1bu8, 0x5bu8, 0x35u8, 0x7eu8]),
        Key::PageDown => Some(seq![0x1bu8, 0x5bu8, 0x36u8, 0x7eu8]),
        Key::Home => Some(seq![0x1bu8, 0x5bu8, 0x48u8]),
        Key::End => Some(seq![0x1bu8, 0x5bu8, 0x46u8]),
        _ => None,
    }
}

/// The bytes a special key is sent as.
pub fn special_key_bytes(key: Key) -> (bytes: Option<Vec<u8>>)
    ensures
        match bytes {
            Some(b) => key_sequence(key) == Some(b@),
            None => key_sequence(key) is None,
        },
{
    let bytes: Vec<u8> = match key {
        Key::Return => vec![0x0du8],
        Key::Escape => vec![0x1bu8],
        Key::Back => vec![0x7fu8],
        Key::Delete => vec![0x1bu8, 0x5bu8, 0x33u8, 0x7eu8],
        Key::Up => vec![0x1bu8, 0x5bu8, 0x41u8],
        Key::Down => vec![0x1bu8, 0x5bu8, 0x42u8],
        Key::Right => vec![0x1bu8, 0x5bu8, 0x43u8],
        Key::Left => vec![0x1bu8, 0x5bu8, 0x44u8],
        Key::PageUp => vec![0x1bu8, 0x5bu8, 0x35u8, 0x7eu8],
        Key::PageDown => vec![0x1bu8, 0x5bu8, 0x36u8, 0x7eu8],
        Key::Home => vec![0x1bu8, 0x5bu8, 0x48u8],
        Key::End => vec![0x1bu8, 0x5bu8, 0x46u8],
        _ => { return None; },
    };
    assert(key_sequence(key) is Some);
    assert(bytes@ =~= key_sequence(key)->0);
    Some(bytes)
}

/// The decimal digit `d` as a character.
pub open spec fn digit(d: int) -> char {
    if d == 0 {
        '0'
    } else if d == 1 {
        '1'
    } else if d == 2 {
        '2'
    } else if d == 3 {
        '3'
    } else if d == 4 {
        '4'
    } else if d == 5 {
        '5'
    } else if d == 6 {
        '6'
    } else if d == 7 {
        '7'
    } else if d == 8 {
        '8'
    } else {
        '9'
    }
}

/// `n` written in decimal, without leading zeros.
pub open spec fn decimal(n: nat) -> Seq<char>
    decreases n,
{
    if n < 10 {
        seq![digit(n as int)]
    } else {
        decimal(n / 10).push(digit((n % 10) as int))
    }
}

/// The decimal digit `d` as a character.
fn digit_char(d: u128) -> (c: char)
    requires
        d < 10,
    ensures
        c == digit(d as int),
{
    if d == 0 {
        '0'
    } else if d == 1 {
        '1'
    } else if d == 2 {
        '2'
    } else if d == 3 {
        '3'
    } else if d == 4 {
        '4'
    } else if d == 5 {
        '5'
    } else if d == 6 {
        '6'
    } else if d == 7 {
        '7'
    } else if d == 8 {
        '8'
    } else {
        '9'
    }
}

/// Appends `n` in decimal to `text`.
pub fn push_decimal(text: &mut String, n: u128)
    ensures
        final(text)@ == old(text)@ + decimal(n as nat),
    decreases n,
{
    if n >= 10 {
        push_decimal(text, n / 10);
    }
    text.push(digit_char(n % 10));
    assert(text@ =~= old(text)@ + decimal(n as nat));
}

/// The report of a mouse event in the SGR format: `ESC [ <`, the button
/// code, the one-based column and row, separated by semicolons, and `M` for
/// a press or `m` for a release.
pub open spec fn mouse_report(button: u8, x: int, y: int, release: bool) -> Seq<char> {
    seq!['\x1b', '[', '<'] + decimal(button as nat) + seq![';'] + decimal((x + 1) as nat) + seq![
        ';',
    ] + decimal((y + 1) as nat) + seq![if release { 'm' } else { 'M' }]
}

/// The report of a mouse event at the zero-based cell (`x`, `y`).
pub fn encode_mouse(button: u8, x: usize, y: usize, release: bool) -> (report: String)
    ensures
        report@ == mouse_report(button, x as int, y as int, release),
{
    let mut report = String::new();
    report.push('\x1b');
    report.push('[');
    report.push('<');
    push_decimal(&mut report, button as u128);
    report.push(';');
    push_decimal(&mut report, x as u128 + 1);
    report.push(';');
    push_decimal(&mut report, y as u128 + 1);
    report.push(if release { 'm' } else { 'M' });
    assert(report@ =~= mouse_report(button, x as int, y as int, release));
    report
}

/// The UTF-8 encoding of `text`.
pub fn utf8_bytes(text: &String) -> (bytes: Vec<u8>)
    ensures
        bytes@ == encode_utf8(text@),
{
    text.as_str().as_bytes_vec()
}

/// The UTF-8 encoding of the characters `chars`.
pub fn encode_chars(chars: &Vec<char>) -> (bytes: Vec<u8>)
    ensures
        bytes@ == encode_utf8(chars@),
{
    let mut text = String::new();
    let mut i: usize = 0;
    while i < chars.len()
        invariant
            i <= chars.len(),
            text@ == chars@.take(i as int),
        decreases chars.len() - i,
    {
        text.push(chars[i]);
        assert(chars@.take(i + 1) =~= chars@.take(i as int).push(chars@[i as int]));
        i += 1;
    }
    assert(chars@.take(i as int) =~= chars@);
    utf8_bytes(&text)
}

} // verus!
