//! The permissions of an entry: twelve flags read from its mode, and the
//! ten glyphs that show them.

use vstd::prelude::*;
use vstd::string::StringExecFns;

use crate::color::paint;
use crate::color::painted;
use crate::color::Elem;
use crate::color::Palette;
use crate::meta::filetype::FileType;
use crate::meta::modes;
use crate::meta::modes::has_bit;
use crate::meta::modes::spec_has_bit;

verus! {

/// The kind of an entry and the twelve permission flags of its mode.
#[derive(Clone, Copy, Debug, PartialEq, Eq, Structural)]
pub struct Permissions {
    pub file_type: FileType,
    pub user_read: bool,
    pub user_write: bool,
    pub user_execute: bool,
    pub group_read: bool,
    pub group_write: bool,
    pub group_execute: bool,
    pub other_read: bool,
    pub other_write: bool,
    pub other_execute: bool,
    pub sticky: bool,
    pub setgid: bool,
    pub setuid: bool,
}

/// One position of the rendered column: the glyph shown there and the
/// element that decides its colour.
#[derive(Clone, Copy, Debug, PartialEq, Eq, Structural)]
pub struct Cell {
    pub glyph: char,
    pub elem: Elem,
}

/// The leading cell, which shows the kind of the entry.
pub open spec fn type_cell(file_type: FileType) -> Cell {
    match file_type {
        FileType::Regular => Cell { glyph: '.', elem: Elem::File },
        FileType::Directory => Cell { glyph: 'd', elem: Elem::Dir },
        FileType::SymbolicLink => Cell { glyph: 'l', elem: Elem::SymLink },
    }
}

/// A read or write position: `glyph` as `elem` where the permission is
/// granted, a dash otherwise.
pub open spec fn plain_cell(granted: bool, glyph: char, elem: Elem) -> Cell {
    if granted {
        Cell { glyph, elem }
    } else {
        Cell { glyph: '-', elem: Elem::NoAccess }
    }
}

/// The execute position of the user or of the group. The special bit
/// (setuid or setgid) takes the place of the `x`, and its case tells
/// whether execute is granted beneath it.
pub open spec fn execute_cell(execute: bool, special: bool) -> Cell {
    match (execute, special) {
        (false, false) => Cell { glyph: '-', elem: Elem::NoAccess },
        (true, false) => Cell { glyph: 'x', elem: Elem::Exec },
        (false, true) => Cell { glyph: 'S', elem: Elem::ExecSticky },
        (true, true) => Cell { glyph: 's', elem: Elem::ExecSticky },
    }
}

/// The execute position of everyone else, where the sticky bit shows.
pub open spec fn other_execute_cell(execute: bool, sticky: bool) -> Cell {
    match (execute, sticky) {
        (false, false) => Cell { glyph: '-', elem: Elem::NoAccess },
        (true, false) => Cell { glyph: 'x', elem: Elem::Exec },
        (false, true) => Cell { glyph: 'T', elem: Elem::ExecSticky },
        (true, true) => Cell { glyph: 't', elem: Elem::ExecSticky },
    }
}

/// The cells in turn, each painted in the colour that `palette` gives to
/// its element.
pub open spec fn styled(cells: Seq<Cell>, palette: Palette) -> Seq<char>
    decreases cells.len(),
{
    if cells.len() == 0 {
        Seq::empty()
    } else {
        styled(cells.drop_last(), palette) + painted(
            palette.spec_colour(cells.last().elem),
            seq![cells.last().glyph],
        )
    }
}

impl Permissions {
    /// The permissions that the mode `bits` grants to an entry of kind
    /// `file_type`: each flag is one bit of the mode.
    pub open spec fn of_mode(file_type: FileType, bits: u32) -> Permissions {
        Permissions {
            file_type,
            user_read: spec_has_bit(bits, modes::USER_READ),
            user_write: spec_has_bit(bits, modes::USER_WRITE),
            user_execute: spec_has_bit(bits, modes::USER_EXECUTE),
            group_read: spec_has_bit(bits, modes::GROUP_READ),
            group_write: spec_has_bit(bits, modes::GROUP_WRITE),
            group_execute: spec_has_bit(bits, modes::GROUP_EXECUTE),
            other_read: spec_has_bit(bits, modes::OTHER_READ),
            other_write: spec_has_bit(bits, modes::OTHER_WRITE),
            other_execute: spec_has_bit(bits, modes::OTHER_EXECUTE),
            sticky: spec_has_bit(bits, modes::STICKY),
            setgid: spec_has_bit(bits, modes::SETGID),
            setuid: spec_has_bit(bits, modes::SETUID),
        }
    }

    /// The ten cells of the column: the kind, then read, write and execute
    /// for the user, for the group and for everyone else.
    pub open spec fn spec_cells(&self) -> Seq<Cell> {
        seq![
            type_cell(self.file_type),
            plain_cell(self.user_read, 'r', Elem::Read),
            plain_cell(self.user_write, 'w', Elem::Write),
            execute_cell(self.user_execute, self.setuid),
            plain_cell(self.group_read, 'r', Elem::Read),
            plain_cell(self.group_write, 'w', Elem::Write),
            execute_cell(self.group_execute, self.setgid),
            plain_cell(self.other_read, 'r', Elem::Read),
            plain_cell(self.other_write, 'w', Elem::Write),
            other_execute_cell(self.other_execute, self.sticky),
        ]
    }

    /// Reads the flags from the mode `bits` of an entry of kind
    /// `file_type`. Bits of the mode that are no permission bits are
    /// ignored.
    pub fn from_mode(file_type: FileType, bits: u32) -> (permissions: Permissions)
        ensures
            permissions == Self::of_mode(file_type, bits),
    {
        let masks = modes::platform();
        Permissions {
            file_type,
            user_read: has_bit(bits, masks.user_read),
            user_write: has_bit(bits, masks.user_write),
            user_execute: has_bit(bits, masks.user_execute),
            group_read: has_bit(bits, masks.group_read),
            group_write: has_bit(bits, masks.group_write),
            group_execute: has_bit(bits, masks.group_execute),
            other_read: has_bit(bits, masks.other_read),
            other_write: has_bit(bits, masks.other_write),
            other_execute: has_bit(bits, masks.other_execute),
            sticky: has_bit(bits, masks.sticky),
            setgid: has_bit(bits, masks.setgid),
            setuid: has_bit(bits, masks.setuid),
        }
    }

    /// The cell that shows the kind of the entry.
    pub fn type_bit(&self) -> (cell: Cell)
        ensures
            cell == type_cell(self.file_type),
    {
        match self.file_type {
            FileType::Regular => Cell { glyph: '.', elem: Elem::File },
            FileType::Directory => Cell { glyph: 'd', elem: Elem::Dir },
            FileType::SymbolicLink => Cell { glyph: 'l', elem: Elem::SymLink },
        }
    }

    /// The cell of a read or write position.
    pub fn bit(granted: bool, glyph: char, elem: Elem) -> (cell: Cell)
        ensures
            cell == plain_cell(granted, glyph, elem),
    {
        if granted {
            Cell { glyph, elem }
        } else {
            Cell { glyph: '-', elem: Elem::NoAccess }
        }
    }

    /// The cell of the user's or the group's execute position, from the
    /// execute flag and the setuid or setgid flag.
    pub fn execute_bit(execute: bool, special: bool) -> (cell: Cell)
        ensures
            cell == execute_cell(execute, special),
    {
        if special {
            Cell { glyph: if execute { 's' } else { 'S' }, elem: Elem::ExecSticky }
        } else if execute {
            Cell { glyph: 'x', elem: Elem::Exec }
        } else {
            Cell { glyph: '-', elem: Elem::NoAccess }
        }
    }

    /// The cell of the last position, from the execute flag of everyone
    /// else and the sticky flag.
    pub fn other_execute_bit(&self) -> (cell: Cell)
        ensures
            cell == other_execute_cell(self.other_execute, self.sticky),
    {
        if self.sticky {
            Cell { glyph: if self.other_execute { 't' } else { 'T' }, elem: Elem::ExecSticky }
        } else if self.other_execute {
            Cell { glyph: 'x', elem: Elem::Exec }
        } else {
            Cell { glyph: '-', elem: Elem::NoAccess }
        }
    }

    /// The column as cells, left to right.
    pub fn cells(&self) -> (cells: Vec<Cell>)
        ensures
            cells@ == self.spec_cells(),
            cells@.len() == 10,
    {
        vec![
            self.type_bit(),
            Self::bit(self.user_read, 'r', Elem::Read),
            Self::bit(self.user_write, 'w', Elem::Write),
            Self::execute_bit(self.user_execute, self.setuid),
            Self::bit(self.group_read, 'r', Elem::Read),
            Self::bit(self.group_write, 'w', Elem::Write),
            Self::execute_bit(self.group_execute, self.setgid),
            Self::bit(self.other_read, 'r', Elem::Read),
            Self::bit(self.other_write, 'w', Elem::Write),
            self.other_execute_bit(),
        ]
    }

    /// The column as text for a terminal: every glyph wrapped in the escape
    /// sequences of the colour that `palette` gives to its element.
    pub fn render(&self, palette: &Palette) -> (out: String)
        ensures
            out@ == styled(self.spec_cells(), *palette),
    {
        let cells = self.cells();
        let mut out = String::new();
        let mut i: usize = 0;
        while i < cells.len()
            invariant
                i <= cells.len(),
                out@ == styled(cells@.take(i as int), *palette),
            decreases cells.len() - i,
        {
            let cell = cells[i];
            let piece = paint(palette.colour(cell.elem), cell.glyph);
            out.append(piece.as_str());
            proof {
                assert(cells@.take(i + 1).drop_last() == cells@.take(i as int));
            }
            i += 1;
        }
        proof {
            assert(cells@.take(cells.len() as int) == cells@);
        }
        out
    }
}

} // verus!
