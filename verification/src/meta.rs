//! What is known of one entry of a listing.

pub mod filetype;
pub mod modes;
pub mod laws;
pub mod permissions;

pub use self::filetype::FileType;
pub use self::permissions::Cell;
pub use self::permissions::Permissions;
