//! The state holder: two flags with read and write operations.

use crate::model::ExtensionState;
use vstd::prelude::*;

verus! {

/// The state of one extension.
///
/// Contracts speak of a value of this type through its view, an
/// [`ExtensionState`]. No operation can fail, and none has a precondition.
pub struct GlootieExtension {
    is_active: bool,
    assistant_enabled: bool,
}

impl View for GlootieExtension {
    type V = ExtensionState;

    closed spec fn view(&self) -> ExtensionState {
        ExtensionState { active: self.is_active, assistant_enabled: self.assistant_enabled }
    }
}

impl GlootieExtension {
    /// Builds an extension that is inactive and has its assistant off.
    pub fn new() -> (ext: Self)
        ensures
            ext@ == ExtensionState::initial(),
    {
        GlootieExtension { is_active: false, assistant_enabled: false }
    }

    /// Switches the activation flag on and leaves the assistant flag alone.
    pub fn activate(&mut self)
        ensures
            final(self)@ == old(self)@.activated(),
    {
        self.is_active = true;
    }

    /// Switches the activation flag off and leaves the assistant flag alone.
    pub fn deactivate(&mut self)
        ensures
            final(self)@ == old(self)@.deactivated(),
    {
        self.is_active = false;
    }

    /// Reads the activation flag.
    pub fn is_active(&self) -> (active: bool)
        ensures
            active == self@.active,
    {
        self.is_active
    }

    /// Reads the assistant flag.
    pub fn is_assistant_enabled(&self) -> (enabled: bool)
        ensures
            enabled == self@.assistant_enabled,
    {
        self.assistant_enabled
    }

    /// Negates the assistant flag and leaves the activation flag alone.
    pub fn toggle_assistant(&mut self)
        ensures
            final(self)@ == old(self)@.assistant_toggled(),
    {
        self.assistant_enabled = !self.assistant_enabled;
    }
}

} // verus!
