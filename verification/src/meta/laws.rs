//! What holds of every mode and of every set of flags.

use vstd::prelude::*;

use crate::color::Elem;
use crate::meta::filetype::FileType;
use crate::meta::modes;
use crate::meta::modes::spec_has_bit;
use crate::meta::permissions::execute_cell;
use crate::meta::permissions::other_execute_cell;
use crate::meta::permissions::plain_cell;
use crate::meta::permissions::type_cell;
use crate::meta::permissions::Cell;
use crate::meta::permissions::Permissions;

verus! {

/// Reading a mode is deterministic: whatever two calls of
/// [`Permissions::from_mode`] return for the same kind and the same mode,
/// they return the same flags.
pub proof fn from_mode_is_deterministic(
    file_type: FileType,
    bits: u32,
    first: Permissions,
    second: Permissions,
)
    requires
        call_ensures(Permissions::from_mode, (file_type, bits), first),
        call_ensures(Permissions::from_mode, (file_type, bits), second),
    ensures
        first == second,
{
}

/// `mask` where `set` holds, no bit otherwise.
pub open spec fn bit_if(set: bool, mask: u32) -> u32 {
    if set {
        mask
    } else {
        0
    }
}

/// The mode that has the bits of the given flags, and no other bit.
pub open spec fn joined(
    user_read: bool,
    user_write: bool,
    user_execute: bool,
    group_read: bool,
    group_write: bool,
    group_execute: bool,
    other_read: bool,
    other_write: bool,
    other_execute: bool,
    sticky: bool,
    setgid: bool,
    setuid: bool,
) -> u32 {
    bit_if(user_read, modes::USER_READ) | bit_if(user_write, modes::USER_WRITE)
        | bit_if(user_execute, modes::USER_EXECUTE) | bit_if(group_read, modes::GROUP_READ)
        | bit_if(group_write, modes::GROUP_WRITE) | bit_if(group_execute, modes::GROUP_EXECUTE)
        | bit_if(other_read, modes::OTHER_READ) | bit_if(other_write, modes::OTHER_WRITE)
        | bit_if(other_execute, modes::OTHER_EXECUTE) | bit_if(sticky, modes::STICKY)
        | bit_if(setgid, modes::SETGID) | bit_if(setuid, modes::SETUID)
}

/// The mode that has exactly the permission bits of the flags that are set.
pub open spec fn bits_of(permissions: Permissions) -> u32 {
    joined(
        permissions.user_read,
        permissions.user_write,
        permissions.user_execute,
        permissions.group_read,
        permissions.group_write,
        permissions.group_execute,
        permissions.other_read,
        permissions.other_write,
        permissions.other_execute,
        permissions.sticky,
        permissions.setgid,
        permissions.setuid,
    )
}

/// Flags and permission bits correspond one to one, so the flags are
/// independent of each other: every combination of flags is read back from
/// the mode that has their bits, and the bits of the flags read from a mode
/// are the permission bits of that mode.
pub proof fn flags_and_bits_correspond(permissions: Permissions, bits: u32)
    ensures
        Permissions::of_mode(permissions.file_type, bits_of(permissions)) == permissions,
        bits_of(Permissions::of_mode(permissions.file_type, bits)) == bits & modes::ALL,
{
    lemma_joined_read_back(
        permissions.user_read,
        permissions.user_write,
        permissions.user_execute,
        permissions.group_read,
        permissions.group_write,
        permissions.group_execute,
        permissions.other_read,
        permissions.other_write,
        permissions.other_execute,
        permissions.sticky,
        permissions.setgid,
        permissions.setuid,
    );
    lemma_read_then_joined(bits);
}

proof fn lemma_joined_read_back(
    user_read: bool,
    user_write: bool,
    user_execute: bool,
    group_read: bool,
    group_write: bool,
    group_execute: bool,
    other_read: bool,
    other_write: bool,
    other_execute: bool,
    sticky: bool,
    setgid: bool,
    setuid: bool,
)
    by (bit_vector)
    ensures
        ({
            let bits = joined(
                user_read,
                user_write,
                user_execute,
                group_read,
                group_write,
                group_execute,
                other_read,
                other_write,
                other_execute,
                sticky,
                setgid,
                setuid,
            );
            &&& spec_has_bit(bits, modes::USER_READ) == user_read
            &&& spec_has_bit(bits, modes::USER_WRITE) == user_write
            &&& spec_has_bit(bits, modes::USER_EXECUTE) == user_execute
            &&& spec_has_bit(bits, modes::GROUP_READ) == group_read
            &&& spec_has_bit(bits, modes::GROUP_WRITE) == group_write
            &&& spec_has_bit(bits, modes::GROUP_EXECUTE) == group_execute
            &&& spec_has_bit(bits, modes::OTHER_READ) == other_read
            &&& spec_has_bit(bits, modes::OTHER_WRITE) == other_write
            &&& spec_has_bit(bits, modes::OTHER_EXECUTE) == other_execute
            &&& spec_has_bit(bits, modes::STICKY) == sticky
            &&& spec_has_bit(bits, modes::SETGID) == setgid
            &&& spec_has_bit(bits, modes::SETUID) == setuid
        }),
{
}

proof fn lemma_read_then_joined(bits: u32)
    by (bit_vector)
    ensures
        joined(
            spec_has_bit(bits, modes::USER_READ),
            spec_has_bit(bits, modes::USER_WRITE),
            spec_has_bit(bits, modes::USER_EXECUTE),
            spec_has_bit(bits, modes::GROUP_READ),
            spec_has_bit(bits, modes::GROUP_WRITE),
            spec_has_bit(bits, modes::GROUP_EXECUTE),
            spec_has_bit(bits, modes::OTHER_READ),
            spec_has_bit(bits, modes::OTHER_WRITE),
            spec_has_bit(bits, modes::OTHER_EXECUTE),
            spec_has_bit(bits, modes::STICKY),
            spec_has_bit(bits, modes::SETGID),
            spec_has_bit(bits, modes::SETUID),
        ) == bits & modes::ALL,
{
}

/// Only the twelve permission bits of a mode are read: two modes that agree
/// on them give the same flags.
pub proof fn other_bits_are_ignored(file_type: FileType, a: u32, b: u32)
    requires
        a & modes::ALL == b & modes::ALL,
    ensures
        Permissions::of_mode(file_type, a) == Permissions::of_mode(file_type, b),
{
    flags_and_bits_correspond(Permissions::of_mode(file_type, a), a);
    flags_and_bits_correspond(Permissions::of_mode(file_type, b), b);
}

proof fn lemma_cells_by_position(permissions: Permissions)
    ensures
        permissions.spec_cells().len() == 10,
        permissions.spec_cells()[0] == type_cell(permissions.file_type),
        permissions.spec_cells()[1] == plain_cell(permissions.user_read, 'r', Elem::Read),
        permissions.spec_cells()[2] == plain_cell(permissions.user_write, 'w', Elem::Write),
        permissions.spec_cells()[3] == execute_cell(permissions.user_execute, permissions.setuid),
        permissions.spec_cells()[4] == plain_cell(permissions.group_read, 'r', Elem::Read),
        permissions.spec_cells()[5] == plain_cell(permissions.group_write, 'w', Elem::Write),
        permissions.spec_cells()[6] == execute_cell(permissions.group_execute, permissions.setgid),
        permissions.spec_cells()[7] == plain_cell(permissions.other_read, 'r', Elem::Read),
        permissions.spec_cells()[8] == plain_cell(permissions.other_write, 'w', Elem::Write),
        permissions.spec_cells()[9] == other_execute_cell(
            permissions.other_execute,
            permissions.sticky,
        ),
{
}

/// The column always has ten cells: one for the kind, three for the user,
/// three for the group and three for everyone else.
pub proof fn column_has_ten_cells(permissions: Permissions)
    ensures
        permissions.spec_cells().len() == 10,
{
}

/// The first cell shows the kind of the entry and nothing else: `.` for a
/// regular file, `d` for a directory, `l` for a symbolic link, whatever the
/// flags are.
pub proof fn first_cell_shows_the_kind(permissions: Permissions)
    ensures
        permissions.spec_cells()[0] == (match permissions.file_type {
            FileType::Regular => Cell { glyph: '.', elem: Elem::File },
            FileType::Directory => Cell { glyph: 'd', elem: Elem::Dir },
            FileType::SymbolicLink => Cell { glyph: 'l', elem: Elem::SymLink },
        }),
{
}

/// Each read position shows `r` if and only if its flag is set, each write
/// position `w` if and only if its flag is set, and a dash otherwise. The
/// element is `Read` or `Write` with the letter and `NoAccess` with the
/// dash.
pub proof fn read_and_write_positions_show_their_flags(permissions: Permissions)
    ensures
        shows(permissions.spec_cells()[1], permissions.user_read, 'r', Elem::Read),
        shows(permissions.spec_cells()[2], permissions.user_write, 'w', Elem::Write),
        shows(permissions.spec_cells()[4], permissions.group_read, 'r', Elem::Read),
        shows(permissions.spec_cells()[5], permissions.group_write, 'w', Elem::Write),
        shows(permissions.spec_cells()[7], permissions.other_read, 'r', Elem::Read),
        shows(permissions.spec_cells()[8], permissions.other_write, 'w', Elem::Write),
{
    lemma_cells_by_position(permissions);
}

/// `cell` shows `glyph` as `elem` if and only if `flag` is set, and a dash
/// as `NoAccess` if and only if it is not.
pub open spec fn shows(cell: Cell, flag: bool, glyph: char, elem: Elem) -> bool {
    &&& flag <==> cell.glyph == glyph
    &&& flag <==> cell.elem == elem
    &&& !flag <==> cell.glyph == '-'
    &&& !flag <==> cell.elem == Elem::NoAccess
}

/// The execute positions follow the table of execute flag and special flag.
/// The user's position goes by setuid and the group's by setgid, with `S`
/// and `s`; the last position goes by the sticky flag, with `T` and `t`.
/// In each, the special letter is in lower case if and only if execute is
/// granted beneath it, and it has the element `ExecSticky` either way.
pub proof fn execute_positions_follow_the_table(permissions: Permissions)
    ensures
        follows_table(
            permissions.spec_cells()[3],
            permissions.user_execute,
            permissions.setuid,
            'S',
            's',
        ),
        follows_table(
            permissions.spec_cells()[6],
            permissions.group_execute,
            permissions.setgid,
            'S',
            's',
        ),
        follows_table(
            permissions.spec_cells()[9],
            permissions.other_execute,
            permissions.sticky,
            'T',
            't',
        ),
{
    lemma_cells_by_position(permissions);
}

/// `cell` is the row that the table of an execute position has for
/// `execute` and `special`, with `upper` and `lower` as the two letters of
/// the special flag.
pub open spec fn follows_table(
    cell: Cell,
    execute: bool,
    special: bool,
    upper: char,
    lower: char,
) -> bool {
    &&& !execute && !special ==> cell == Cell { glyph: '-', elem: Elem::NoAccess }
    &&& execute && !special ==> cell == Cell { glyph: 'x', elem: Elem::Exec }
    &&& !execute && special ==> cell == Cell { glyph: upper, elem: Elem::ExecSticky }
    &&& execute && special ==> cell == Cell { glyph: lower, elem: Elem::ExecSticky }
}

} // verus!
