//! The `modem` log.

use vstd::prelude::*;

verus! {

/// The tag that prefixes the lines of this log.
pub const TAG: &'static str = "modem";

/// Whether this log is written.
pub const ENABLED: bool = true;

} // verus!
