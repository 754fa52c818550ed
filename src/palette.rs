//! Colors, color schemes and the built-in table of schemes.

use vstd::prelude::*;

verus! {

/// A 24-bit color: red, green and blue components.
#[derive(Clone, Copy, Debug, PartialEq, Eq, Structural)]
pub struct Color {
    pub r: u8,
    pub g: u8,
    pub b: u8,
}

/// The kinds of token that carry a color of their own.
#[derive(Clone, Copy, Debug, PartialEq, Eq, Structural)]
pub enum Token {
    Null,
    Bool,
    Number,
    Str,
    Key,
}

/// One color for each kind of token.
#[derive(Clone, Copy, Debug, PartialEq, Eq, Structural)]
pub struct ColorScheme {
    pub null: Color,
    pub bool: Color,
    pub number: Color,
    pub string: Color,
    pub object_key: Color,
}

impl ColorScheme {
    /// The color that this scheme gives to tokens of kind `t`.
    pub open spec fn color(self, t: Token) -> Color {
        match t {
            Token::Null => self.null,
            Token::Bool => self.bool,
            Token::Number => self.number,
            Token::Str => self.string,
            Token::Key => self.object_key,
        }
    }
}

pub open spec fn rgb(r: u8, g: u8, b: u8) -> Color {
    Color { r, g, b }
}

pub open spec fn chalk_scheme() -> ColorScheme {
    ColorScheme {
        null: rgb(80, 80, 80),
        bool: rgb(237, 169, 135),
        number: rgb(225, 163, 238),
        string: rgb(172, 194, 103),
        object_key: rgb(111, 194, 239),
    }
}

pub open spec fn greyscale_scheme() -> ColorScheme {
    ColorScheme {
        null: rgb(104, 104, 104),
        bool: rgb(185, 185, 185),
        number: rgb(160, 160, 160),
        string: rgb(227, 227, 227),
        object_key: rgb(247, 247, 247),
    }
}

pub open spec fn ocean_scheme() -> ColorScheme {
    ColorScheme {
        null: rgb(101, 115, 126),
        bool: rgb(208, 135, 112),
        number: rgb(180, 142, 173),
        string: rgb(163, 190, 140),
        object_key: rgb(143, 161, 179),
    }
}

pub open spec fn solarized_scheme() -> ColorScheme {
    ColorScheme {
        null: rgb(88, 110, 117),
        bool: rgb(203, 75, 22),
        number: rgb(211, 54, 130),
        string: rgb(133, 153, 0),
        object_key: rgb(38, 139, 210),
    }
}

/// The built-in table: the scheme of each known name, case-sensitive.
pub open spec fn scheme_named(name: Seq<char>) -> Option<ColorScheme> {
    if name == "chalk"@ {
        Some(chalk_scheme())
    } else if name == "greyscale"@ {
        Some(greyscale_scheme())
    } else if name == "ocean"@ {
        Some(ocean_scheme())
    } else if name == "solarized"@ {
        Some(solarized_scheme())
    } else {
        None
    }
}

fn same_text(a: &str, b: &str) -> (r: bool)
    ensures
        r == (a@ == b@),
{
    let n = a.unicode_len();
    if n != b.unicode_len() {
        return false;
    }
    let mut i: usize = 0;
    while i < n
        invariant
            n == a@.len(),
            n == b@.len(),
            i <= n,
            a@.take(i as int) == b@.take(i as int),
        decreases n - i,
    {
        if a.get_char(i) != b.get_char(i) {
            return false;
        }
        assert(a@.take(i + 1) == a@.take(i as int).push(a@[i as int]));
        assert(b@.take(i + 1) == b@.take(i as int).push(b@[i as int]));
        i += 1;
    }
    assert(a@ == a@.take(n as int));
    assert(b@ == b@.take(n as int));
    true
}

fn color(r: u8, g: u8, b: u8) -> (c: Color)
    ensures
        c == rgb(r, g, b),
{
    Color { r, g, b }
}

/// The scheme registered under `name`, or `None` where no scheme has that
/// exact name.
pub fn lookup(name: &str) -> (r: Option<ColorScheme>)
    ensures
        r == scheme_named(name@),
{
    if same_text(name, "chalk") {
        Some(ColorScheme {
            null: color(80, 80, 80),
            bool: color(237, 169, 135),
            number: color(225, 163, 238),
            string: color(172, 194, 103),
            object_key: color(111, 194, 239),
        })
    } else if same_text(name, "greyscale") {
        Some(ColorScheme {
            null: color(104, 104, 104),
            bool: color(185, 185, 185),
            number: color(160, 160, 160),
            string: color(227, 227, 227),
            object_key: color(247, 247, 247),
        })
    } else if same_text(name, "ocean") {
        Some(ColorScheme {
            null: color(101, 115, 126),
            bool: color(208, 135, 112),
            number: color(180, 142, 173),
            string: color(163, 190, 140),
            object_key: color(143, 161, 179),
        })
    } else if same_text(name, "solarized") {
        Some(ColorScheme {
            null: color(88, 110, 117),
            bool: color(203, 75, 22),
            number: color(211, 54, 130),
            string: color(133, 153, 0),
            object_key: color(38, 139, 210),
        })
    } else {
        None
    }
}

/// The names of the built-in schemes, each of which `lookup` knows.
pub fn scheme_names() -> (r: Vec<&'static str>)
    ensures
        r@.len() == 4,
        forall|i: int| 0 <= i < r@.len() ==> scheme_named(#[trigger] r@[i]@) is Some,
{
    let v = vec!["chalk", "greyscale", "ocean", "solarized"];
    v
}

} // verus!
