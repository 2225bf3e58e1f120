//! Emergency pause state and who may act on it.

use vstd::prelude::*;

use crate::address::Address;

verus! {

/// Maximum length of a pause reason.
pub const MAX_PAUSE_REASON_LENGTH: usize = 256;

/// Maximum number of emergency contacts.
pub const MAX_EMERGENCY_CONTACTS: usize = 5;

/// Emergency pause state for the protocol.
pub struct EmergencyState {
    /// Protocol authority.
    pub authority: Address,
    /// Whether the protocol is paused.
    pub paused: bool,
    /// Reason for the pause.
    pub pause_reason: String,
    /// When the pause started.
    pub paused_at: i64,
    /// Who initiated the pause.
    pub paused_by: Address,
    /// Emergency contacts, who may unpause.
    pub emergency_contacts: Vec<Address>,
    /// How many times the protocol has been paused.
    pub pause_count: u32,
}

impl EmergencyState {
    /// The caller may take emergency actions: the authority always, and
    /// any listed emergency contact.
    pub open spec fn spec_can_emergency_action(&self, caller: Address) -> bool {
        caller == self.authority || self.emergency_contacts@.contains(caller)
    }

    /// Whether the caller can execute emergency actions.
    pub fn can_emergency_action(&self, caller: &Address) -> (r: bool)
        ensures
            r == self.spec_can_emergency_action(*caller),
    {
        if *caller == self.authority {
            return true;
        }
        let mut i: usize = 0;
        while i < self.emergency_contacts.len()
            invariant
                i <= self.emergency_contacts.len(),
                forall|j: int| 0 <= j < i ==> self.emergency_contacts@[j] != *caller,
            decreases self.emergency_contacts.len() - i,
        {
            if self.emergency_contacts[i] == *caller {
                return true;
            }
            i += 1;
        }
        false
    }
}

} // verus!
