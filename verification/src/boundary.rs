//! What the host's two entry points do to, and report of, an extension.
//!
//! The host reaches the extension through two foreign-call entry points that
//! take no argument and work on one process-wide state. Holding that state
//! behind a lock is the embedding program's part; the functions here are what
//! it calls once it holds the state.

use crate::extension::GlootieExtension;
use vstd::prelude::*;

verus! {

/// Activates the extension on the host's request.
pub fn init_extension(ext: &mut GlootieExtension)
    ensures
        final(ext)@ == old(ext)@.activated(),
{
    ext.activate();
}

/// Reports the activation flag as a byte, since the boundary carries no
/// native boolean: one when the extension is active, zero otherwise.
pub fn get_extension_status(ext: &GlootieExtension) -> (status: u8)
    ensures
        status == ext@.status(),
{
    if ext.is_active() {
        1
    } else {
        0
    }
}

} // verus!
