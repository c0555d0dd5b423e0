use vstd::prelude::*;

verus! {

/// The value that opens every binary model.
pub const MAGIC_NUMBER: usize = 323232;

pub const XPS_VERSION_MAYOR: usize = 2;

pub const XPS_VERSION_MINOR: usize = 15;

pub const XNA_ARAL: &'static str = "XNAaraL";

pub const SETTINGS_LEN: usize = 1080;

/// A length byte at or above this value is followed by a second length byte.
pub const LIMIT: usize = 128;

/// The embedded pose text is padded to a multiple of this many bytes.
pub const ROUND_MULTIPLE: usize = 4;

pub const ENCODING_READ: &'static str = "utf-8-sig";

pub const ENCODING_WRITE: &'static str = "utf-8";

pub const FLIP_UV: bool = true;

pub const REVERSE_WINDING: bool = true;

} // verus!
