//! The header shared by every extended-option structure handed across the
//! system-call boundary.

use crate::uuid::Uuid;
use vstd::prelude::*;

verus! {

/// The leading fields of every extended option: its type identifier and its
/// flag word, followed by reserved space.
#[derive(Copy, Clone, Debug, PartialEq, Eq)]
pub struct ExtendedOptionHead {
    /// The type of the option.
    pub ty: Uuid,
    /// Flag bits; bit zero is [`OPTION_FLAG_IGNORE`].
    pub flags: u32,
    /// Reserved; zero.
    pub __reserved: [u32; 3],
}

/// The kernel may ignore the option if it does not recognise the type;
/// without this flag an unrecognised option is an error.
pub const OPTION_FLAG_IGNORE: u32 = 0x00000001;

} // verus!
