//! Laws of the operations, stated over the model and proved for every state.

use crate::model::ExtensionState;
use vstd::prelude::*;

verus! {

/// After activation the extension is active, whatever the assistant flag was.
pub proof fn lemma_activated_is_active(s: ExtensionState)
    ensures
        s.activated().active,
{
}

/// After deactivation the extension is inactive, whatever the state was; in
/// particular deactivation undoes an activation that came just before it.
pub proof fn lemma_deactivated_is_inactive(s: ExtensionState)
    ensures
        !s.deactivated().active,
        !s.activated().deactivated().active,
        s.activated().deactivated() == s.deactivated(),
{
}

/// Activating twice in a row gives the same state as activating once.
pub proof fn lemma_activate_idempotent(s: ExtensionState)
    ensures
        s.activated().activated() == s.activated(),
{
}

/// Deactivating twice in a row gives the same state as deactivating once.
pub proof fn lemma_deactivate_idempotent(s: ExtensionState)
    ensures
        s.deactivated().deactivated() == s.deactivated(),
{
}

/// One toggle negates the assistant flag.
pub proof fn lemma_toggle_negates(s: ExtensionState)
    ensures
        s.assistant_toggled().assistant_enabled == !s.assistant_enabled,
{
}

/// Toggling the assistant twice gives back the state the first toggle found.
pub proof fn lemma_toggle_involution(s: ExtensionState)
    ensures
        s.assistant_toggled().assistant_toggled() == s,
{
}

/// The two flags are independent: toggling the assistant never changes the
/// activation flag, and neither activation nor deactivation changes the
/// assistant flag.
pub proof fn lemma_flags_independent(s: ExtensionState)
    ensures
        s.assistant_toggled().active == s.active,
        s.activated().assistant_enabled == s.assistant_enabled,
        s.deactivated().assistant_enabled == s.assistant_enabled,
{
}

/// The status byte is one exactly when the extension is active and zero
/// exactly when it is not; no other value is ever reported.
pub proof fn lemma_status_encodes_activation(s: ExtensionState)
    ensures
        s.status() == 1 <==> s.active,
        s.status() == 0 <==> !s.active,
{
}

/// A freshly built extension reports zero, and any extension reports one
/// once it has been activated.
pub proof fn lemma_status_around_activation(s: ExtensionState)
    ensures
        ExtensionState::initial().status() == 0,
        s.activated().status() == 1,
{
}

} // verus!
