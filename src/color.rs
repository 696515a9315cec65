//! RGB colors: parsing from hex text and the `R;G;B` form used in escapes.
use vstd::prelude::*;

use crate::error::PokedexError;
use crate::text::{decimal, push_char, push_decimal};

verus! {

/// A 24-bit color, one byte per channel.
#[derive(Clone, Copy, Debug, PartialEq, Eq, Structural)]
pub struct Color {
    pub r: u8,
    pub g: u8,
    pub b: u8,
}

/// Whether `c` is a hexadecimal digit, in either case.
pub open spec fn is_hex_digit(c: char) -> bool {
    ('0' <= c && c <= '9') || ('a' <= c && c <= 'f') || ('A' <= c && c <= 'F')
}

/// The value of the hexadecimal digit `c`.
pub open spec fn hex_value(c: char) -> nat {
    if '0' <= c && c <= '9' {
        (c as nat - '0' as nat) as nat
    } else if 'a' <= c && c <= 'f' {
        (c as nat - 'a' as nat + 10) as nat
    } else {
        (c as nat - 'A' as nat + 10) as nat
    }
}

/// `s` is `#` followed by exactly `n` hexadecimal digits.
pub open spec fn is_hex_color(s: Seq<char>, n: int) -> bool {
    &&& s.len() == n + 1
    &&& s[0] == '#'
    &&& forall|i: int| 1 <= i <= n ==> #[trigger] is_hex_digit(s[i])
}

/// The value of the two hex digits at `i` and `i + 1`.
pub open spec fn hex_pair(s: Seq<char>, i: int) -> nat {
    16 * hex_value(s[i]) + hex_value(s[i + 1])
}

/// The color that `s` denotes, if it is `#RRGGBB` or `#RGB`; in the short
/// form each digit fills both nibbles of its byte.
pub open spec fn parse_color(s: Seq<char>) -> Option<Color> {
    if is_hex_color(s, 6) {
        Some(Color { r: hex_pair(s, 1) as u8, g: hex_pair(s, 3) as u8, b: hex_pair(s, 5) as u8 })
    } else if is_hex_color(s, 3) {
        Some(
            Color {
                r: (17 * hex_value(s[1])) as u8,
                g: (17 * hex_value(s[2])) as u8,
                b: (17 * hex_value(s[3])) as u8,
            },
        )
    } else {
        None
    }
}

/// The `R;G;B` text of a color, each channel in decimal.
pub open spec fn rgb_text(c: Color) -> Seq<char> {
    decimal(c.r as nat) + seq![';'] + decimal(c.g as nat) + seq![';'] + decimal(c.b as nat)
}

/// The value of a hexadecimal digit, or `None` for any other character.
fn hex_digit(c: char) -> (r: Option<u8>)
    ensures
        r is Some <==> is_hex_digit(c),
        r matches Some(v) ==> v as nat == hex_value(c) && v < 16,
{
    if '0' <= c && c <= '9' {
        Some(((c as u32) - ('0' as u32)) as u8)
    } else if 'a' <= c && c <= 'f' {
        Some(((c as u32) - ('a' as u32) + 10) as u8)
    } else if 'A' <= c && c <= 'F' {
        Some(((c as u32) - ('A' as u32) + 10) as u8)
    } else {
        None
    }
}

impl Color {
    /// Parses `#RRGGBB` or `#RGB` (hex digits in either case).
    pub fn from_str(s: &str) -> (r: Result<Color, PokedexError>)
        ensures
            match parse_color(s@) {
                Some(c) => r == Ok::<Color, PokedexError>(c),
                None => r matches Err(PokedexError::InvalidColorFormat(t)) && t@ == s@,
            },
    {
        let n = s.unicode_len();
        if (n != 4 && n != 7) || s.get_char(0) != '#' {
            return Err(PokedexError::InvalidColorFormat(String::from_str(s)));
        }
        let mut vals: Vec<u8> = Vec::new();
        let mut i: usize = 1;
        while i < n
            invariant
                1 <= i <= n,
                n == s@.len(),
                vals@.len() == i - 1,
                forall|j: int| 1 <= j < i ==> #[trigger] is_hex_digit(s@[j]),
                forall|j: int|
                    1 <= j < i ==> vals@[j - 1] as nat == hex_value(#[trigger] s@[j]),
                forall|j: int| 0 <= j < vals@.len() ==> #[trigger] vals@[j] < 16,
            decreases n - i,
        {
            match hex_digit(s.get_char(i)) {
                Some(v) => vals.push(v),
                None => {
                    return Err(PokedexError::InvalidColorFormat(String::from_str(s)));
                },
            }
            i = i + 1;
        }
        if n == 7 {
            assert(is_hex_color(s@, 6));
            Ok(
                Color {
                    r: 16 * vals[0] + vals[1],
                    g: 16 * vals[2] + vals[3],
                    b: 16 * vals[4] + vals[5],
                },
            )
        } else {
            assert(is_hex_color(s@, 3));
            Ok(Color { r: 17 * vals[0], g: 17 * vals[1], b: 17 * vals[2] })
        }
    }

    /// The `R;G;B` text used inside terminal escapes.
    pub fn to_string(&self) -> (r: String)
        ensures
            r@ == rgb_text(*self),
    {
        let mut out = String::new();
        push_decimal(&mut out, self.r as u32);
        push_char(&mut out, ';');
        push_decimal(&mut out, self.g as u32);
        push_char(&mut out, ';');
        push_decimal(&mut out, self.b as u32);
        assert(out@ =~= rgb_text(*self));
        out
    }
}

impl std::str::FromStr for Color {
    type Err = PokedexError;

    /// Parses `#RRGGBB` or `#RGB`, as `Color::from_str` does.
    fn from_str(s: &str) -> Result<Color, PokedexError> {
        Color::from_str(s)
    }
}

/// A hexadecimal digit is worth less than sixteen.
pub proof fn lemma_hex_value_bound(c: char)
    requires
        is_hex_digit(c),
    ensures
        hex_value(c) < 16,
{
}

/// Parsing `#RRGGBB` and writing the color back out gives the decimal value
/// of each hex pair, separated by `;`.
pub proof fn lemma_long_form_round_trip(s: Seq<char>)
    requires
        is_hex_color(s, 6),
    ensures
        parse_color(s) is Some,
        rgb_text(parse_color(s)->Some_0) == decimal(hex_pair(s, 1)) + seq![';'] + decimal(
            hex_pair(s, 3),
        ) + seq![';'] + decimal(hex_pair(s, 5)),
{
    lemma_hex_value_bound(s[1]);
    lemma_hex_value_bound(s[2]);
    lemma_hex_value_bound(s[3]);
    lemma_hex_value_bound(s[4]);
    lemma_hex_value_bound(s[5]);
    lemma_hex_value_bound(s[6]);
}

/// In `#RGB` each channel is its digit's value times seventeen: the digit
/// fills both nibbles.
pub proof fn lemma_short_form_expands(s: Seq<char>)
    requires
        is_hex_color(s, 3),
    ensures
        parse_color(s) is Some,
        parse_color(s)->Some_0.r as nat == 17 * hex_value(s[1]),
        parse_color(s)->Some_0.g as nat == 17 * hex_value(s[2]),
        parse_color(s)->Some_0.b as nat == 17 * hex_value(s[3]),
{
    lemma_hex_value_bound(s[1]);
    lemma_hex_value_bound(s[2]);
    lemma_hex_value_bound(s[3]);
}

/// Text that does not start with `#`, that has other than three or six
/// characters after it, or that holds a character that is no hex digit
/// after it, denotes no color.
pub proof fn lemma_malformed_rejected(s: Seq<char>)
    requires
        s.len() == 0 || s[0] != '#' || (s.len() != 4 && s.len() != 7) || exists|i: int|
            1 <= i < s.len() && !is_hex_digit(#[trigger] s[i]),
    ensures
        parse_color(s) is None,
{
}

} // verus!
