//! Truecolor escape sequences around a piece of text.

use owo_colors::OwoColorize;
use vstd::prelude::*;

use crate::palette::Color;

verus! {

/// The decimal digit of `d` (for `d < 10`).
pub open spec fn digit(d: nat) -> char {
    if d == 0 { '0' }
    else if d == 1 { '1' }
    else if d == 2 { '2' }
    else if d == 3 { '3' }
    else if d == 4 { '4' }
    else if d == 5 { '5' }
    else if d == 6 { '6' }
    else if d == 7 { '7' }
    else if d == 8 { '8' }
    else { '9' }
}

/// The decimal writing of `n`, without leading zeros.
pub open spec fn decimal(n: nat) -> Seq<char>
    decreases n,
{
    if n < 10 {
        seq![digit(n)]
    } else {
        decimal(n / 10).push(digit(n % 10))
    }
}

/// `text` in the foreground color `c`: the escape sequence `ESC[38;2;R;G;Bm`
/// before it and `ESC[39m`, which restores the default foreground, after it.
pub open spec fn paint(c: Color, text: Seq<char>) -> Seq<char> {
    seq!['\x1b', '[', '3', '8', ';', '2', ';'] + decimal(c.r as nat) + seq![';']
        + decimal(c.g as nat) + seq![';'] + decimal(c.b as nat) + seq!['m'] + text
        + seq!['\x1b', '[', '3', '9', 'm']
}

/// Relies on owo_colors' `truecolor`, displayed through `to_string`: the
/// sequence `ESC[38;2;{r};{g};{b}m`, the text, then `ESC[39m`.
#[verifier::external_body]
pub(crate) fn paint_text(text: &str, c: Color) -> (r: String)
    ensures
        r@ == paint(c, text@),
{
    text.truecolor(c.r, c.g, c.b).to_string()
}

} // verus!
