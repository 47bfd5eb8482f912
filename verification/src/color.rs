//! RGB colors and the fixed table of eight named colors.

use vstd::prelude::*;

verus! {

/// An RGB color: three independent 8-bit channels. Every combination of
/// channel values is valid.
#[derive(Clone, Copy, Debug, PartialEq, Eq, Structural)]
pub struct Color {
    pub r: u8,
    pub g: u8,
    pub b: u8,
}

/// Failure of named-color resolution: the name is outside the fixed
/// eight-name table.
#[derive(Clone, Copy, Debug, PartialEq, Eq, Structural)]
pub enum ColorNameError {
    UnknownName,
}

impl Color {
    pub fn new(r: u8, g: u8, b: u8) -> (c: Color)
        ensures
            c == (Color { r, g, b }),
    {
        Color { r, g, b }
    }

    pub fn black() -> (c: Color)
        ensures
            c == (Color { r: 0u8, g: 0u8, b: 0u8 }),
    {
        Color { r: 0, g: 0, b: 0 }
    }

    pub fn red() -> (c: Color)
        ensures
            c == (Color { r: 255u8, g: 0u8, b: 0u8 }),
    {
        Color { r: 255, g: 0, b: 0 }
    }

    pub fn green() -> (c: Color)
        ensures
            c == (Color { r: 0u8, g: 255u8, b: 0u8 }),
    {
        Color { r: 0, g: 255, b: 0 }
    }

    pub fn blue() -> (c: Color)
        ensures
            c == (Color { r: 0u8, g: 0u8, b: 255u8 }),
    {
        Color { r: 0, g: 0, b: 255 }
    }

    pub fn yellow() -> (c: Color)
        ensures
            c == (Color { r: 255u8, g: 255u8, b: 0u8 }),
    {
        Color { r: 255, g: 255, b: 0 }
    }

    pub fn cyan() -> (c: Color)
        ensures
            c == (Color { r: 0u8, g: 255u8, b: 255u8 }),
    {
        Color { r: 0, g: 255, b: 255 }
    }

    pub fn magenta() -> (c: Color)
        ensures
            c == (Color { r: 255u8, g: 0u8, b: 255u8 }),
    {
        Color { r: 255, g: 0, b: 255 }
    }

    pub fn white() -> (c: Color)
        ensures
            c == (Color { r: 255u8, g: 255u8, b: 255u8 }),
    {
        Color { r: 255, g: 255, b: 255 }
    }
}

/// The named-color table: the color a name denotes, or `None` for a name
/// outside the fixed set. Matching is exact (lowercase names only).
pub open spec fn color_of_name(name: Seq<char>) -> Option<Color> {
    if name == "black"@ {
        Some(Color { r: 0u8, g: 0u8, b: 0u8 })
    } else if name == "red"@ {
        Some(Color { r: 255u8, g: 0u8, b: 0u8 })
    } else if name == "green"@ {
        Some(Color { r: 0u8, g: 255u8, b: 0u8 })
    } else if name == "blue"@ {
        Some(Color { r: 0u8, g: 0u8, b: 255u8 })
    } else if name == "yellow"@ {
        Some(Color { r: 255u8, g: 255u8, b: 0u8 })
    } else if name == "cyan"@ {
        Some(Color { r: 0u8, g: 255u8, b: 255u8 })
    } else if name == "magenta"@ {
        Some(Color { r: 255u8, g: 0u8, b: 255u8 })
    } else if name == "white"@ {
        Some(Color { r: 255u8, g: 255u8, b: 255u8 })
    } else {
        None
    }
}

/// Character-by-character string comparison, so that contracts can speak of
/// view equality.
fn str_eq(a: &str, b: &str) -> (r: bool)
    ensures
        r == (a@ == b@),
{
    let a_len = a.unicode_len();
    let b_len = b.unicode_len();
    if a_len != b_len {
        return false;
    }
    let mut i: usize = 0;
    while i < a_len
        invariant
            a_len == a@.len(),
            b_len == b@.len(),
            a_len == b_len,
            i <= a_len,
            forall|j: int| 0 <= j < i ==> a@[j] == b@[j],
        decreases a_len - i,
    {
        if a.get_char(i) != b.get_char(i) {
            return false;
        }
        i += 1;
    }
    proof {
        assert(a@ =~= b@);
    }
    true
}

/// Resolves one of the eight color names to its canonical color; any other
/// name is a recoverable unknown-name error.
pub fn resolve(name: &str) -> (r: Result<Color, ColorNameError>)
    ensures
        r == (match color_of_name(name@) {
            Some(c) => Ok::<Color, ColorNameError>(c),
            None => Err::<Color, ColorNameError>(ColorNameError::UnknownName),
        }),
{
    if str_eq(name, "black") {
        Ok(Color::black())
    } else if str_eq(name, "red") {
        Ok(Color::red())
    } else if str_eq(name, "green") {
        Ok(Color::green())
    } else if str_eq(name, "blue") {
        Ok(Color::blue())
    } else if str_eq(name, "yellow") {
        Ok(Color::yellow())
    } else if str_eq(name, "cyan") {
        Ok(Color::cyan())
    } else if str_eq(name, "magenta") {
        Ok(Color::magenta())
    } else if str_eq(name, "white") {
        Ok(Color::white())
    } else {
        Err(ColorNameError::UnknownName)
    }
}

} // verus!
