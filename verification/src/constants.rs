//! Fixed geometry shared by the editor core and its renderer.

use vstd::prelude::*;

verus! {

/// Number of bytes shown per display line.
pub const LINE_LEN: usize = 16;

} // verus!
