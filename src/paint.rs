//! Wrapping text in 24-bit ANSI color escapes.
use vstd::prelude::*;

use crate::color::{rgb_text, Color};
use crate::text::{decimal, push_char};

verus! {

/// The escape character that opens every control sequence.
pub open spec fn esc() -> char {
    '\x1b'
}

/// The SGR fragment that sets the background to `c`: `48;2;R;G;B`.
pub open spec fn bg_fragment(c: Color) -> Seq<char> {
    seq!['4', '8', ';', '2', ';'] + rgb_text(c)
}

/// The SGR fragment that sets the foreground to `c`: `38;2;R;G;B`.
pub open spec fn fg_fragment(c: Color) -> Seq<char> {
    seq!['3', '8', ';', '2', ';'] + rgb_text(c)
}

/// The SGR parameters for a background and a foreground, background first,
/// joined by one `;`.
pub open spec fn sgr_params(bg: Option<Color>, fg: Option<Color>) -> Seq<char> {
    match (bg, fg) {
        (Some(b), Some(f)) => bg_fragment(b) + seq![';'] + fg_fragment(f),
        (Some(b), None) => bg_fragment(b),
        (None, Some(f)) => fg_fragment(f),
        (None, None) => Seq::empty(),
    }
}

/// The reset sequence `ESC [ 0 m`.
pub open spec fn reset_seq() -> Seq<char> {
    seq![esc(), '[', '0', 'm']
}

/// `text` wrapped in the color escape and the reset; empty when neither
/// color is set.
pub open spec fn painted(bg: Option<Color>, fg: Option<Color>, text: Seq<char>) -> Seq<char> {
    if bg is None && fg is None {
        Seq::empty()
    } else {
        seq![esc(), '['] + sgr_params(bg, fg) + seq!['m'] + text + reset_seq()
    }
}

/// An optional background and an optional foreground color to paint with.
pub struct TermColor {
    pub bg: Option<Color>,
    pub fg: Option<Color>,
}

/// Appends an SGR color fragment `<lead>8;2;R;G;B`.
fn push_fragment(out: &mut String, lead: char, c: Color)
    ensures
        final(out)@ == old(out)@ + seq![lead, '8', ';', '2', ';'] + rgb_text(c),
{
    push_char(out, lead);
    push_char(out, '8');
    push_char(out, ';');
    push_char(out, '2');
    push_char(out, ';');
    let t = c.to_string();
    out.append(t.as_str());
    assert(out@ =~= old(out)@ + seq![lead, '8', ';', '2', ';'] + rgb_text(c));
}

impl TermColor {
    /// A painter with the given colors.
    pub fn new(bg: Option<Color>, fg: Option<Color>) -> (r: TermColor)
        ensures
            r.bg == bg,
            r.fg == fg,
    {
        TermColor { bg, fg }
    }

    /// `s` wrapped in this painter's escape, background before foreground,
    /// then the reset; the empty string when no color is set.
    pub fn paint(&self, s: &str) -> (r: String)
        ensures
            r@ == painted(self.bg, self.fg, s@),
    {
        let mut res = String::new();
        if self.bg.is_none() && self.fg.is_none() {
            return res;
        }
        push_char(&mut res, '\x1b');
        push_char(&mut res, '[');
        if let Some(bg) = self.bg {
            push_fragment(&mut res, '4', bg);
            if self.fg.is_some() {
                push_char(&mut res, ';');
            }
        }
        if let Some(fg) = self.fg {
            push_fragment(&mut res, '3', fg);
        }
        assert(res@ =~= seq![esc(), '['] + sgr_params(self.bg, self.fg));
        push_char(&mut res, 'm');
        res.append(s);
        push_char(&mut res, '\x1b');
        push_char(&mut res, '[');
        push_char(&mut res, '0');
        push_char(&mut res, 'm');
        assert(res@ =~= painted(self.bg, self.fg, s@));
        res
    }

    /// Sets the background color; returns the same painter for chaining.
    pub fn with_bg(&mut self, color: Color) -> (r: &mut TermColor)
        ensures
            r.bg == Some(color),
            r.fg == old(self).fg,
            *final(self) == *final(r),
    {
        self.bg = Some(color);
        self
    }

    /// Sets the foreground color; returns the same painter for chaining.
    pub fn with_fg(&mut self, color: Color) -> (r: &mut TermColor)
        ensures
            r.fg == Some(color),
            r.bg == old(self).bg,
            *final(self) == *final(r),
    {
        self.fg = Some(color);
        self
    }
}

/// The decimal rendering of a number ends in a digit.
pub proof fn lemma_decimal_ends_in_digit(n: nat)
    ensures
        decimal(n).len() > 0,
        '0' <= decimal(n).last() <= '9',
    decreases n,
{
    if n >= 10 {
        lemma_decimal_ends_in_digit(n / 10);
    }
}

/// With neither color set, painting yields the empty string whatever the
/// text.
pub proof fn lemma_paint_without_colors(text: Seq<char>)
    ensures
        painted(None, None, text) == Seq::<char>::empty(),
{
}

/// With only a background set, painting yields `ESC[48;2;R;G;Bm`, the text
/// and the reset, with no `;` before the `m`.
pub proof fn lemma_paint_background_only(c: Color, text: Seq<char>)
    ensures
        painted(Some(c), None, text) == seq![esc(), '[', '4', '8', ';', '2', ';'] + rgb_text(c)
            + seq!['m'] + text + reset_seq(),
        sgr_params(Some(c), None).last() != ';',
{
    lemma_decimal_ends_in_digit(c.b as nat);
    let p = sgr_params(Some(c), None);
    assert(p.last() == decimal(c.b as nat).last());
    assert(painted(Some(c), None, text) =~= seq![esc(), '[', '4', '8', ';', '2', ';']
        + rgb_text(c) + seq!['m'] + text + reset_seq());
}

/// With both colors set, the background fragment comes first, then one
/// `;`, then the foreground fragment.
pub proof fn lemma_paint_both(bg: Color, fg: Color, text: Seq<char>)
    ensures
        painted(Some(bg), Some(fg), text) == seq![esc(), '[', '4', '8', ';', '2', ';'] + rgb_text(
            bg,
        ) + seq![';', '3', '8', ';', '2', ';'] + rgb_text(fg) + seq!['m'] + text + reset_seq(),
{
    assert(painted(Some(bg), Some(fg), text) =~= seq![esc(), '[', '4', '8', ';', '2', ';']
        + rgb_text(bg) + seq![';', '3', '8', ';', '2', ';'] + rgb_text(fg) + seq!['m'] + text
        + reset_seq());
}

} // verus!
