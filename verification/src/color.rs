//! Elements of the listing that take a colour, the colours themselves, and
//! the escape sequences that put a colour on a glyph.

use vstd::prelude::*;

verus! {

/// What a glyph of the listing stands for. A glyph never names a colour of
/// its own: it names an element, and a [`Palette`] decides the colour.
#[derive(Clone, Copy, Debug, PartialEq, Eq, Structural, Hash)]
pub enum Elem {
    /// A regular file.
    File,
    /// A symbolic link.
    SymLink,
    /// A directory.
    Dir,
    /// A granted read permission.
    Read,
    /// A granted write permission.
    Write,
    /// A granted execute permission with no special bit on it.
    Exec,
    /// An execute position that carries setuid, setgid or the sticky bit.
    ExecSticky,
    /// A permission that is not granted.
    NoAccess,
}

/// A foreground colour of the terminal.
#[derive(Clone, Copy, Debug, PartialEq, Eq, Structural)]
pub enum Colour {
    Black,
    Red,
    Green,
    Yellow,
    Blue,
    Purple,
    Cyan,
    White,
    /// One of the 256 colours of an extended terminal palette.
    Fixed(u8),
    /// A 24-bit colour: red, green, blue.
    RGB(u8, u8, u8),
}

/// One colour for each [`Elem`].
#[derive(Clone, Copy, Debug, PartialEq, Eq, Structural)]
pub struct Palette {
    pub file: Colour,
    pub sym_link: Colour,
    pub dir: Colour,
    pub read: Colour,
    pub write: Colour,
    pub execute: Colour,
    pub execute_sticky: Colour,
    pub no_access: Colour,
}

impl Palette {
    /// The colour that this palette gives to `elem`.
    pub open spec fn spec_colour(&self, elem: Elem) -> Colour {
        match elem {
            Elem::File => self.file,
            Elem::SymLink => self.sym_link,
            Elem::Dir => self.dir,
            Elem::Read => self.read,
            Elem::Write => self.write,
            Elem::Exec => self.execute,
            Elem::ExecSticky => self.execute_sticky,
            Elem::NoAccess => self.no_access,
        }
    }

    /// Looks up the colour of `elem`.
    #[verifier::when_used_as_spec(spec_colour)]
    pub fn colour(&self, elem: Elem) -> (colour: Colour)
        ensures
            colour == self.spec_colour(elem),
    {
        match elem {
            Elem::File => self.file,
            Elem::SymLink => self.sym_link,
            Elem::Dir => self.dir,
            Elem::Read => self.read,
            Elem::Write => self.write,
            Elem::Exec => self.execute,
            Elem::ExecSticky => self.execute_sticky,
            Elem::NoAccess => self.no_access,
        }
    }
}

/// The decimal digit `d`.
pub open spec fn digit(d: u8) -> char
    recommends
        d <= 9,
{
    seq!['0', '1', '2', '3', '4', '5', '6', '7', '8', '9'][d as int]
}

/// `n` in decimal, without leading zeros.
pub open spec fn decimal(n: u8) -> Seq<char> {
    if n < 10 {
        seq![digit(n)]
    } else if n < 100 {
        seq![digit(n / 10), digit(n % 10)]
    } else {
        seq![digit(n / 100), digit(n / 10 % 10), digit(n % 10)]
    }
}

/// The parameters of the escape sequence that selects `colour` as the
/// foreground.
pub open spec fn foreground_code(colour: Colour) -> Seq<char> {
    match colour {
        Colour::Black => seq!['3', '0'],
        Colour::Red => seq!['3', '1'],
        Colour::Green => seq!['3', '2'],
        Colour::Yellow => seq!['3', '3'],
        Colour::Blue => seq!['3', '4'],
        Colour::Purple => seq!['3', '5'],
        Colour::Cyan => seq!['3', '6'],
        Colour::White => seq!['3', '7'],
        Colour::Fixed(n) => seq!['3', '8', ';', '5', ';'] + decimal(n),
        Colour::RGB(r, g, b) => seq!['3', '8', ';', '2', ';'] + decimal(r) + seq![';'] + decimal(g)
            + seq![';'] + decimal(b),
    }
}

/// `text` in `colour`: the sequence that selects the colour, the text, and
/// the sequence that resets the terminal.
pub open spec fn painted(colour: Colour, text: Seq<char>) -> Seq<char> {
    seq!['\x1B', '['] + foreground_code(colour) + seq!['m'] + text + seq!['\x1B', '[', '0', 'm']
}

/// `ansi_term::Colour::paint`, followed by the `to_string` of the
/// `ANSIString` that it returns.
///
/// Trusted: the result is the glyph between the escape sequence for the
/// foreground colour (`ESC [ code m`, with no other style set) and the reset
/// sequence (`ESC [ 0 m`), as `ansi_term` writes them.
#[verifier::external_body]
pub(crate) fn paint(colour: Colour, glyph: char) -> (out: String)
    ensures
        out@ == painted(colour, seq![glyph]),
{
    let colour = match colour {
        Colour::Black => ansi_term::Colour::Black,
        Colour::Red => ansi_term::Colour::Red,
        Colour::Green => ansi_term::Colour::Green,
        Colour::Yellow => ansi_term::Colour::Yellow,
        Colour::Blue => ansi_term::Colour::Blue,
        Colour::Purple => ansi_term::Colour::Purple,
        Colour::Cyan => ansi_term::Colour::Cyan,
        Colour::White => ansi_term::Colour::White,
        Colour::Fixed(n) => ansi_term::Colour::Fixed(n),
        Colour::RGB(r, g, b) => ansi_term::Colour::RGB(r, g, b),
    };
    colour.paint(glyph.to_string()).to_string()
}

} // verus!
