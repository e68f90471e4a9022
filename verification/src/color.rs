//! The fixed color palette and its hex codes.

use vstd::prelude::*;

verus! {

/// A color of the fixed palette, or an arbitrary custom color given as an
/// `(r, g, b)` triple.
#[derive(Debug, PartialEq, Eq, Clone, Copy)]
pub enum Color {
    Yellow,
    Blue,
    Red,
    White,
    Black,
    Darkgray,
    Lightgray,
    Custom((u8, u8, u8)),
}

impl Default for Color {
    fn default() -> (c: Self)
        ensures
            c == Color::Black,
    {
        Color::Black
    }
}

/// The lowercase hex digit for a value below sixteen.
pub open spec fn spec_hex_digit(v: int) -> char {
    if v == 0 {
        '0'
    } else if v == 1 {
        '1'
    } else if v == 2 {
        '2'
    } else if v == 3 {
        '3'
    } else if v == 4 {
        '4'
    } else if v == 5 {
        '5'
    } else if v == 6 {
        '6'
    } else if v == 7 {
        '7'
    } else if v == 8 {
        '8'
    } else if v == 9 {
        '9'
    } else if v == 10 {
        'a'
    } else if v == 11 {
        'b'
    } else if v == 12 {
        'c'
    } else if v == 13 {
        'd'
    } else if v == 14 {
        'e'
    } else {
        'f'
    }
}

/// Two lowercase hex digits for one byte.
pub open spec fn spec_hex_byte(v: int) -> Seq<char> {
    seq![spec_hex_digit(v / 16), spec_hex_digit(v % 16)]
}

/// The hex string a color renders as: `#RRGGBB`, uppercase for the palette
/// entries, lowercase digits for custom colors.
pub open spec fn spec_hex_code(c: Color) -> Seq<char> {
    match c {
        Color::Yellow => "#FFC300"@,
        Color::Blue => "#0D84F0"@,
        Color::Red => "#FF5733"@,
        Color::White => "#FFFFFF"@,
        Color::Black => "#000000"@,
        Color::Darkgray => "#1c2833"@,
        Color::Lightgray => "#74838f"@,
        Color::Custom((r, g, b)) => seq!['#'] + spec_hex_byte(r as int) + spec_hex_byte(
            g as int,
        ) + spec_hex_byte(b as int),
    }
}

/// One lowercase hex digit as a string slice.
pub(crate) fn hex_digit_str(v: u8) -> (s: &'static str)
    requires
        v < 16,
    ensures
        s@ == seq![spec_hex_digit(v as int)],
{
    proof {
        reveal_strlit("0");
        reveal_strlit("1");
        reveal_strlit("2");
        reveal_strlit("3");
        reveal_strlit("4");
        reveal_strlit("5");
        reveal_strlit("6");
        reveal_strlit("7");
        reveal_strlit("8");
        reveal_strlit("9");
        reveal_strlit("a");
        reveal_strlit("b");
        reveal_strlit("c");
        reveal_strlit("d");
        reveal_strlit("e");
        reveal_strlit("f");
    }
    let s = match v {
        0 => "0",
        1 => "1",
        2 => "2",
        3 => "3",
        4 => "4",
        5 => "5",
        6 => "6",
        7 => "7",
        8 => "8",
        9 => "9",
        10 => "a",
        11 => "b",
        12 => "c",
        13 => "d",
        14 => "e",
        _ => "f",
    };
    proof {
        assert(s@ =~= seq![spec_hex_digit(v as int)]);
    }
    s
}

/// Appends the two hex digits of one byte.
fn push_hex_byte(out: &mut String, v: u8)
    ensures
        final(out)@ == old(out)@ + spec_hex_byte(v as int),
{
    out.append(hex_digit_str(v / 16));
    out.append(hex_digit_str(v % 16));
    proof {
        assert(out@ =~= old(out)@ + spec_hex_byte(v as int));
    }
}

impl Color {
    /// The hex code this color renders as.
    pub fn hex_code(&self) -> (s: String)
        ensures
            s@ == spec_hex_code(*self),
    {
        match *self {
            Color::Yellow => String::from_str("#FFC300"),
            Color::Blue => String::from_str("#0D84F0"),
            Color::Red => String::from_str("#FF5733"),
            Color::White => String::from_str("#FFFFFF"),
            Color::Black => String::from_str("#000000"),
            Color::Darkgray => String::from_str("#1c2833"),
            Color::Lightgray => String::from_str("#74838f"),
            Color::Custom((r, g, b)) => {
                proof {
                    reveal_strlit("#");
                }
                let mut out = String::from_str("#");
                proof {
                    assert(out@ =~= seq!['#']);
                }
                push_hex_byte(&mut out, r);
                push_hex_byte(&mut out, g);
                push_hex_byte(&mut out, b);
                proof {
                    assert(out@ =~= spec_hex_code(Color::Custom((r, g, b))));
                }
                out
            },
        }
    }
}

} // verus!
