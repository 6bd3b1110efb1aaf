//! Serial histories of operations and what a read at their end observes.
//!
//! When several callers share one extension behind a lock, the order in which
//! they take the lock puts their operations in a sequence. This module is about
//! such sequences: it says what state a sequence of operations leads to. A
//! read that comes somewhere in the sequence sees the state that the operations
//! before it lead to, so each statement is made of a read at the end of a
//! history. The lock itself, and the claim that it serialises the callers, are
//! outside this module.

use crate::model::ExtensionState;
use vstd::prelude::*;

verus! {

/// One write operation on an extension.
pub ghost enum Operation {
    /// Switch the activation flag on.
    Activate,
    /// Switch the activation flag off.
    Deactivate,
    /// Negate the assistant flag.
    ToggleAssistant,
}

impl Operation {
    /// The value that this operation writes to the activation flag, or `None`
    /// where it does not write that flag.
    pub open spec fn written_activation(self) -> Option<bool> {
        match self {
            Operation::Activate => Some(true),
            Operation::Deactivate => Some(false),
            Operation::ToggleAssistant => None,
        }
    }
}

impl ExtensionState {
    /// The state after one operation.
    pub open spec fn apply(self, op: Operation) -> ExtensionState {
        match op {
            Operation::Activate => self.activated(),
            Operation::Deactivate => self.deactivated(),
            Operation::ToggleAssistant => self.assistant_toggled(),
        }
    }

    /// The state after the operations of `ops`, taken in order.
    pub open spec fn apply_all(self, ops: Seq<Operation>) -> ExtensionState
        decreases ops.len(),
    {
        if ops.len() == 0 {
            self
        } else {
            self.apply_all(ops.drop_last()).apply(ops.last())
        }
    }
}

/// How many operations of `ops` toggle the assistant.
pub open spec fn toggle_count(ops: Seq<Operation>) -> nat
    decreases ops.len(),
{
    if ops.len() == 0 {
        0
    } else if ops.last() is ToggleAssistant {
        toggle_count(ops.drop_last()) + 1
    } else {
        toggle_count(ops.drop_last())
    }
}

/// Where no operation of a history writes the activation flag, a read at its
/// end finds the flag as it was at the start.
pub proof fn lemma_activation_kept_without_write(s: ExtensionState, ops: Seq<Operation>)
    requires
        forall|j: int| 0 <= j < ops.len() ==> ops[j].written_activation() is None,
    ensures
        s.apply_all(ops).active == s.active,
    decreases ops.len(),
{
    if ops.len() > 0 {
        lemma_activation_kept_without_write(s, ops.drop_last());
    }
}

/// A read at the end of a history finds the activation flag as the last
/// operation that wrote it left it: operation `i` writes the flag and none
/// after it does.
pub proof fn lemma_activation_is_last_write(s: ExtensionState, ops: Seq<Operation>, i: int)
    requires
        0 <= i < ops.len(),
        ops[i].written_activation() is Some,
        forall|j: int| i < j < ops.len() ==> ops[j].written_activation() is None,
    ensures
        Some(s.apply_all(ops).active) == ops[i].written_activation(),
    decreases ops.len(),
{
    if i < ops.len() - 1 {
        lemma_activation_is_last_write(s, ops.drop_last(), i);
    }
}

/// A read at the end of a history never finds a value of the activation flag
/// that nobody wrote: it finds the value from the start, or one that an
/// operation of the history wrote.
pub proof fn lemma_activation_was_written(s: ExtensionState, ops: Seq<Operation>)
    ensures
        s.apply_all(ops).active == s.active || exists|i: int|
            0 <= i < ops.len() && #[trigger] ops[i].written_activation() == Some(
                s.apply_all(ops).active,
            ),
    decreases ops.len(),
{
    if ops.len() > 0 {
        let last = ops.len() - 1;
        if ops[last].written_activation() is Some {
            lemma_activation_is_last_write(s, ops, last);
        } else {
            let front = ops.drop_last();
            let seen = s.apply_all(front).active;
            lemma_activation_was_written(s, front);
            if seen != s.active {
                let k = choose|k: int|
                    0 <= k < front.len() && #[trigger] front[k].written_activation() == Some(seen);
                assert(ops[k] == front[k]);
            }
        }
    }
}

/// At the end of a history the assistant flag differs from its value at the
/// start exactly when the history toggles it an odd number of times.
pub proof fn lemma_assistant_follows_parity(s: ExtensionState, ops: Seq<Operation>)
    ensures
        s.apply_all(ops).assistant_enabled == (s.assistant_enabled != (toggle_count(ops) % 2 == 1)),
    decreases ops.len(),
{
    if ops.len() > 0 {
        lemma_assistant_follows_parity(s, ops.drop_last());
    }
}

/// An extension that is built and then never activated reports zero, whatever
/// else was done to it.
pub proof fn lemma_status_zero_before_activation(ops: Seq<Operation>)
    requires
        forall|j: int| 0 <= j < ops.len() ==> !(ops[j] is Activate),
    ensures
        ExtensionState::initial().apply_all(ops).status() == 0,
    decreases ops.len(),
{
    if ops.len() > 0 {
        lemma_status_zero_before_activation(ops.drop_last());
    }
}

/// Every combination of the two flags is a state that some history reaches
/// from a freshly built extension: the type rules none of them out.
pub proof fn lemma_every_state_reachable(t: ExtensionState)
    ensures
        exists|ops: Seq<Operation>| ExtensionState::initial().apply_all(ops) == t,
{
    let start = ExtensionState::initial();
    let none = Seq::<Operation>::empty();
    let first = if t.active {
        none.push(Operation::Activate)
    } else {
        none
    };
    let ops = if t.assistant_enabled {
        first.push(Operation::ToggleAssistant)
    } else {
        first
    };
    assert(start.apply_all(none) == start);
    if t.active {
        assert(first.drop_last() =~= none);
    }
    assert(start.apply_all(first).active == t.active);
    assert(!start.apply_all(first).assistant_enabled);
    if t.assistant_enabled {
        assert(ops.drop_last() =~= first);
    }
    assert(start.apply_all(ops) == t);
}

} // verus!
