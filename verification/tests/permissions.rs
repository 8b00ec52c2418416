use lsd::color::Elem;
use lsd::meta::modes;
use lsd::meta::{Cell, FileType, Permissions};

const KINDS: [FileType; 3] = [FileType::Regular, FileType::Directory, FileType::SymbolicLink];

fn glyphs(permissions: &Permissions) -> String {
    permissions.cells().iter().map(|cell| cell.glyph).collect()
}

fn no_flags(file_type: FileType) -> Permissions {
    Permissions {
        file_type,
        user_read: false,
        user_write: false,
        user_execute: false,
        group_read: false,
        group_write: false,
        group_execute: false,
        other_read: false,
        other_write: false,
        other_execute: false,
        sticky: false,
        setgid: false,
        setuid: false,
    }
}

#[test]
fn regular_file_with_mode_755() {
    let permissions = Permissions::from_mode(FileType::Regular, 0o755);
    assert_eq!(glyphs(&permissions), ".rwxr-xr-x");
}

#[test]
fn directory_with_setuid_and_no_user_execute() {
    let permissions = Permissions::from_mode(FileType::Directory, 0o4400);
    assert!(permissions.setuid);
    assert!(permissions.user_read);
    assert!(!permissions.user_write);
    assert!(!permissions.user_execute);
    let cells = permissions.cells();
    assert_eq!(cells[0], Cell { glyph: 'd', elem: Elem::Dir });
    assert_eq!(&glyphs(&permissions)[..4], "dr-S");
    assert_eq!(cells[3], Cell { glyph: 'S', elem: Elem::ExecSticky });
    assert_eq!(glyphs(&permissions), "dr-S------");
}

#[test]
fn sticky_with_other_execute_is_lower_case() {
    let permissions = Permissions::from_mode(FileType::Directory, 0o1777);
    assert_eq!(glyphs(&permissions), "drwxrwxrwt");
    assert_eq!(permissions.cells()[9], Cell { glyph: 't', elem: Elem::ExecSticky });
}

#[test]
fn sticky_without_other_execute_is_upper_case() {
    let permissions = Permissions::from_mode(FileType::Directory, 0o1776);
    assert_eq!(glyphs(&permissions), "drwxrwxrwT");
    assert_eq!(permissions.cells()[9], Cell { glyph: 'T', elem: Elem::ExecSticky });
}

#[test]
fn symbolic_link_with_no_bits() {
    let permissions = Permissions::from_mode(FileType::SymbolicLink, 0);
    assert_eq!(permissions, no_flags(FileType::SymbolicLink));
    assert_eq!(glyphs(&permissions), "l---------");
    let cells = permissions.cells();
    assert_eq!(cells[0], Cell { glyph: 'l', elem: Elem::SymLink });
    for cell in &cells[1..] {
        assert_eq!(*cell, Cell { glyph: '-', elem: Elem::NoAccess });
    }
}

#[test]
fn symbolic_link_shows_its_own_bits() {
    let permissions = Permissions::from_mode(FileType::SymbolicLink, 0o777);
    assert_eq!(glyphs(&permissions), "lrwxrwxrwx");
}

#[test]
fn all_bits_set() {
    let permissions = Permissions::from_mode(FileType::Regular, 0o7777);
    assert_eq!(glyphs(&permissions), ".rwsrwsrwt");
}

#[test]
fn special_bits_alone() {
    let permissions = Permissions::from_mode(FileType::Regular, 0o7000);
    assert_eq!(glyphs(&permissions), ".--S--S--T");
}

#[test]
fn each_mask_sets_its_own_flag_and_no_other() {
    let file_type = FileType::Regular;
    let none = no_flags(file_type);
    let cases = [
        (0o400, Permissions { user_read: true, ..none }),
        (0o200, Permissions { user_write: true, ..none }),
        (0o100, Permissions { user_execute: true, ..none }),
        (0o040, Permissions { group_read: true, ..none }),
        (0o020, Permissions { group_write: true, ..none }),
        (0o010, Permissions { group_execute: true, ..none }),
        (0o004, Permissions { other_read: true, ..none }),
        (0o002, Permissions { other_write: true, ..none }),
        (0o001, Permissions { other_execute: true, ..none }),
        (0o1000, Permissions { sticky: true, ..none }),
        (0o2000, Permissions { setgid: true, ..none }),
        (0o4000, Permissions { setuid: true, ..none }),
    ];
    for (bits, expected) in cases {
        assert_eq!(Permissions::from_mode(file_type, bits), expected, "mode {:o}", bits);
    }
}

#[test]
fn named_masks_have_the_posix_values() {
    assert_eq!(modes::USER_READ, 0o400);
    assert_eq!(modes::USER_WRITE, 0o200);
    assert_eq!(modes::USER_EXECUTE, 0o100);
    assert_eq!(modes::GROUP_READ, 0o040);
    assert_eq!(modes::GROUP_WRITE, 0o020);
    assert_eq!(modes::GROUP_EXECUTE, 0o010);
    assert_eq!(modes::OTHER_READ, 0o004);
    assert_eq!(modes::OTHER_WRITE, 0o002);
    assert_eq!(modes::OTHER_EXECUTE, 0o001);
    assert_eq!(modes::STICKY, 0o1000);
    assert_eq!(modes::SETGID, 0o2000);
    assert_eq!(modes::SETUID, 0o4000);
    assert_eq!(modes::ALL, 0o7777);
}

#[test]
fn has_bit_tests_the_whole_mask() {
    assert!(modes::has_bit(0o644, 0o400));
    assert!(modes::has_bit(0o644, 0o004));
    assert!(!modes::has_bit(0o644, 0o100));
    assert!(!modes::has_bit(0, 0o400));
    assert!(modes::has_bit(0, 0));
    assert!(modes::has_bit(0o700, 0o700));
    assert!(!modes::has_bit(0o600, 0o700));
    assert!(modes::has_bit(u32::MAX, 0o7777));
}

#[test]
fn reading_a_mode_twice_gives_the_same_flags() {
    for file_type in KINDS {
        for bits in 0..=0o7777u32 {
            let first = Permissions::from_mode(file_type, bits);
            let second = Permissions::from_mode(file_type, bits);
            assert_eq!(first, second);
            assert_eq!(first.cells(), second.cells());
        }
    }
    let odd = 0xdead_beef;
    assert_eq!(
        Permissions::from_mode(FileType::Regular, odd),
        Permissions::from_mode(FileType::Regular, odd)
    );
}

#[test]
fn bits_outside_the_permissions_are_ignored() {
    assert_eq!(
        Permissions::from_mode(FileType::Regular, 0o100644),
        Permissions::from_mode(FileType::Regular, 0o644)
    );
    assert_eq!(
        Permissions::from_mode(FileType::Directory, 0o040755),
        Permissions::from_mode(FileType::Directory, 0o755)
    );
    assert_eq!(
        Permissions::from_mode(FileType::SymbolicLink, 0xffff_f000),
        no_flags(FileType::SymbolicLink)
    );
    for bits in 0..=0o7777u32 {
        assert_eq!(
            Permissions::from_mode(FileType::Regular, bits | 0xabcd_0000),
            Permissions::from_mode(FileType::Regular, bits)
        );
    }
}

#[test]
fn every_mode_gives_its_own_flags() {
    let mut seen = std::collections::HashSet::new();
    for bits in 0..=0o7777u32 {
        let p = Permissions::from_mode(FileType::Regular, bits);
        let flags = [
            p.user_read,
            p.user_write,
            p.user_execute,
            p.group_read,
            p.group_write,
            p.group_execute,
            p.other_read,
            p.other_write,
            p.other_execute,
            p.sticky,
            p.setgid,
            p.setuid,
        ];
        assert!(seen.insert(flags));
    }
    assert_eq!(seen.len(), 4096);
}

#[test]
fn the_column_always_has_ten_cells() {
    for file_type in KINDS {
        for bits in 0..=0o7777u32 {
            let permissions = Permissions::from_mode(file_type, bits);
            assert_eq!(permissions.cells().len(), 10);
            assert_eq!(glyphs(&permissions).chars().count(), 10);
        }
    }
}

#[test]
fn the_kind_decides_the_first_cell() {
    for bits in 0..=0o7777u32 {
        let file = Permissions::from_mode(FileType::Regular, bits);
        assert_eq!(file.cells()[0], Cell { glyph: '.', elem: Elem::File });
        assert_eq!(file.type_bit(), Cell { glyph: '.', elem: Elem::File });
        let dir = Permissions::from_mode(FileType::Directory, bits);
        assert_eq!(dir.cells()[0], Cell { glyph: 'd', elem: Elem::Dir });
        assert_eq!(dir.type_bit(), Cell { glyph: 'd', elem: Elem::Dir });
        let link = Permissions::from_mode(FileType::SymbolicLink, bits);
        assert_eq!(link.cells()[0], Cell { glyph: 'l', elem: Elem::SymLink });
        assert_eq!(link.type_bit(), Cell { glyph: 'l', elem: Elem::SymLink });
        assert_eq!(file.cells()[1..], dir.cells()[1..]);
        assert_eq!(file.cells()[1..], link.cells()[1..]);
    }
}

#[test]
fn read_and_write_positions_show_their_bits() {
    let positions: [(usize, u32, char, Elem); 6] = [
        (1, 0o400, 'r', Elem::Read),
        (2, 0o200, 'w', Elem::Write),
        (4, 0o040, 'r', Elem::Read),
        (5, 0o020, 'w', Elem::Write),
        (7, 0o004, 'r', Elem::Read),
        (8, 0o002, 'w', Elem::Write),
    ];
    for bits in 0..=0o7777u32 {
        let cells = Permissions::from_mode(FileType::Regular, bits).cells();
        for (index, mask, glyph, elem) in positions {
            let expected = if bits & mask != 0 {
                Cell { glyph, elem }
            } else {
                Cell { glyph: '-', elem: Elem::NoAccess }
            };
            assert_eq!(cells[index], expected, "mode {:o}, position {}", bits, index);
        }
    }
}

#[test]
fn bit_maps_a_flag_to_its_letter_or_a_dash() {
    assert_eq!(Permissions::bit(true, 'r', Elem::Read), Cell { glyph: 'r', elem: Elem::Read });
    assert_eq!(Permissions::bit(true, 'w', Elem::Write), Cell { glyph: 'w', elem: Elem::Write });
    assert_eq!(Permissions::bit(false, 'r', Elem::Read), Cell { glyph: '-', elem: Elem::NoAccess });
    assert_eq!(
        Permissions::bit(false, 'w', Elem::Write),
        Cell { glyph: '-', elem: Elem::NoAccess }
    );
}

#[test]
fn execute_bit_follows_its_table() {
    assert_eq!(
        Permissions::execute_bit(false, false),
        Cell { glyph: '-', elem: Elem::NoAccess }
    );
    assert_eq!(Permissions::execute_bit(true, false), Cell { glyph: 'x', elem: Elem::Exec });
    assert_eq!(
        Permissions::execute_bit(false, true),
        Cell { glyph: 'S', elem: Elem::ExecSticky }
    );
    assert_eq!(Permissions::execute_bit(true, true), Cell { glyph: 's', elem: Elem::ExecSticky });
}

#[test]
fn other_execute_bit_follows_its_table() {
    let none = no_flags(FileType::Regular);
    assert_eq!(none.other_execute_bit(), Cell { glyph: '-', elem: Elem::NoAccess });
    let execute = Permissions { other_execute: true, ..none };
    assert_eq!(execute.other_execute_bit(), Cell { glyph: 'x', elem: Elem::Exec });
    let sticky = Permissions { sticky: true, ..none };
    assert_eq!(sticky.other_execute_bit(), Cell { glyph: 'T', elem: Elem::ExecSticky });
    let both = Permissions { other_execute: true, sticky: true, ..none };
    assert_eq!(both.other_execute_bit(), Cell { glyph: 't', elem: Elem::ExecSticky });
}

#[test]
fn other_execute_bit_reads_no_other_flag() {
    for bits in 0..=0o7777u32 {
        let permissions = Permissions::from_mode(FileType::Regular, bits);
        let expected = match (bits & 0o001 != 0, bits & 0o1000 != 0) {
            (false, false) => Cell { glyph: '-', elem: Elem::NoAccess },
            (true, false) => Cell { glyph: 'x', elem: Elem::Exec },
            (false, true) => Cell { glyph: 'T', elem: Elem::ExecSticky },
            (true, true) => Cell { glyph: 't', elem: Elem::ExecSticky },
        };
        assert_eq!(permissions.other_execute_bit(), expected);
        assert_eq!(permissions.cells()[9], expected);
    }
}

#[test]
fn user_execute_position_goes_by_setuid() {
    for bits in 0..=0o7777u32 {
        let cells = Permissions::from_mode(FileType::Regular, bits).cells();
        let expected = match (bits & 0o100 != 0, bits & 0o4000 != 0) {
            (false, false) => Cell { glyph: '-', elem: Elem::NoAccess },
            (true, false) => Cell { glyph: 'x', elem: Elem::Exec },
            (false, true) => Cell { glyph: 'S', elem: Elem::ExecSticky },
            (true, true) => Cell { glyph: 's', elem: Elem::ExecSticky },
        };
        assert_eq!(cells[3], expected, "mode {:o}", bits);
    }
}

#[test]
fn group_execute_position_goes_by_group_execute_and_setgid() {
    for bits in 0..=0o7777u32 {
        let cells = Permissions::from_mode(FileType::Regular, bits).cells();
        let expected = match (bits & 0o010 != 0, bits & 0o2000 != 0) {
            (false, false) => Cell { glyph: '-', elem: Elem::NoAccess },
            (true, false) => Cell { glyph: 'x', elem: Elem::Exec },
            (false, true) => Cell { glyph: 'S', elem: Elem::ExecSticky },
            (true, true) => Cell { glyph: 's', elem: Elem::ExecSticky },
        };
        assert_eq!(cells[6], expected, "mode {:o}", bits);
    }
}

#[test]
fn group_execute_does_not_follow_user_execute() {
    assert_eq!(glyphs(&Permissions::from_mode(FileType::Regular, 0o010)), ".-----x---");
    assert_eq!(glyphs(&Permissions::from_mode(FileType::Regular, 0o100)), ".--x------");
    assert_eq!(glyphs(&Permissions::from_mode(FileType::Regular, 0o2100)), ".--x--S---");
    assert_eq!(glyphs(&Permissions::from_mode(FileType::Regular, 0o2010)), ".-----s---");
    assert_eq!(glyphs(&Permissions::from_mode(FileType::Regular, 0o4010)), ".--S--x---");
}

#[test]
fn common_modes() {
    assert_eq!(glyphs(&Permissions::from_mode(FileType::Regular, 0o644)), ".rw-r--r--");
    assert_eq!(glyphs(&Permissions::from_mode(FileType::Regular, 0o600)), ".rw-------");
    assert_eq!(glyphs(&Permissions::from_mode(FileType::Regular, 0o4755)), ".rwsr-xr-x");
    assert_eq!(glyphs(&Permissions::from_mode(FileType::Directory, 0o2775)), "drwxrwsr-x");
    assert_eq!(glyphs(&Permissions::from_mode(FileType::Directory, 0o700)), "drwx------");
}
