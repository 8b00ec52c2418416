//! The permission bits of a mode value, under readable names.

use vstd::prelude::*;

verus! {

pub const USER_READ: u32 = 0o400;

pub const USER_WRITE: u32 = 0o200;

pub const USER_EXECUTE: u32 = 0o100;

pub const GROUP_READ: u32 = 0o040;

pub const GROUP_WRITE: u32 = 0o020;

pub const GROUP_EXECUTE: u32 = 0o010;

pub const OTHER_READ: u32 = 0o004;

pub const OTHER_WRITE: u32 = 0o002;

pub const OTHER_EXECUTE: u32 = 0o001;

pub const STICKY: u32 = 0o1000;

pub const SETGID: u32 = 0o2000;

pub const SETUID: u32 = 0o4000;

/// Every bit that a permission flag is read from.
pub const ALL: u32 = 0o7777;

/// The masks as the platform's C library defines them, one for each flag.
pub(crate) struct Masks {
    pub user_read: u32,
    pub user_write: u32,
    pub user_execute: u32,
    pub group_read: u32,
    pub group_write: u32,
    pub group_execute: u32,
    pub other_read: u32,
    pub other_write: u32,
    pub other_execute: u32,
    pub sticky: u32,
    pub setgid: u32,
    pub setuid: u32,
}

/// The constants `S_IRUSR`, `S_IWUSR`, `S_IXUSR`, `S_IRGRP`, `S_IWGRP`,
/// `S_IXGRP`, `S_IROTH`, `S_IWOTH`, `S_IXOTH`, `S_ISVTX`, `S_ISGID` and
/// `S_ISUID` of `libc`, each as a `u32`.
///
/// Trusted: every target on which `libc` defines them gives them the values
/// that POSIX fixes, which are the constants of this module.
#[verifier::external_body]
pub(crate) fn platform() -> (masks: Masks)
    ensures
        masks.user_read == USER_READ,
        masks.user_write == USER_WRITE,
        masks.user_execute == USER_EXECUTE,
        masks.group_read == GROUP_READ,
        masks.group_write == GROUP_WRITE,
        masks.group_execute == GROUP_EXECUTE,
        masks.other_read == OTHER_READ,
        masks.other_write == OTHER_WRITE,
        masks.other_execute == OTHER_EXECUTE,
        masks.sticky == STICKY,
        masks.setgid == SETGID,
        masks.setuid == SETUID,
{
    Masks {
        user_read: libc::S_IRUSR as u32,
        user_write: libc::S_IWUSR as u32,
        user_execute: libc::S_IXUSR as u32,
        group_read: libc::S_IRGRP as u32,
        group_write: libc::S_IWGRP as u32,
        group_execute: libc::S_IXGRP as u32,
        other_read: libc::S_IROTH as u32,
        other_write: libc::S_IWOTH as u32,
        other_execute: libc::S_IXOTH as u32,
        sticky: libc::S_ISVTX as u32,
        setgid: libc::S_ISGID as u32,
        setuid: libc::S_ISUID as u32,
    }
}

/// Whether every bit of `bit` is set in `bits`.
pub open spec fn spec_has_bit(bits: u32, bit: u32) -> bool {
    bits & bit == bit
}

/// Tests `bits` against the mask `bit`.
#[verifier::when_used_as_spec(spec_has_bit)]
pub fn has_bit(bits: u32, bit: u32) -> (set: bool)
    ensures
        set == spec_has_bit(bits, bit),
{
    bits & bit == bit
}

} // verus!
