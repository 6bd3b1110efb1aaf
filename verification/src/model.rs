//! The mathematical model of the extension's state.

use vstd::prelude::*;

verus! {

/// The two flags of an extension as a plain value.
///
/// The flags are independent: each of the four combinations is a legal state.
pub ghost struct ExtensionState {
    /// Whether the host has activated the extension.
    pub active: bool,
    /// Whether the assistant feature is switched on.
    pub assistant_enabled: bool,
}

impl ExtensionState {
    /// The state of a freshly built extension: both flags off.
    pub open spec fn initial() -> ExtensionState {
        ExtensionState { active: false, assistant_enabled: false }
    }

    /// This state with the activation flag on.
    pub open spec fn activated(self) -> ExtensionState {
        ExtensionState { active: true, assistant_enabled: self.assistant_enabled }
    }

    /// This state with the activation flag off.
    pub open spec fn deactivated(self) -> ExtensionState {
        ExtensionState { active: false, assistant_enabled: self.assistant_enabled }
    }

    /// This state with the assistant flag negated.
    pub open spec fn assistant_toggled(self) -> ExtensionState {
        ExtensionState { active: self.active, assistant_enabled: !self.assistant_enabled }
    }

    /// The byte that stands for the activation flag at the foreign-call
    /// boundary: one when active, zero otherwise.
    pub open spec fn status(self) -> u8 {
        if self.active {
            1u8
        } else {
            0u8
        }
    }
}

} // verus!
