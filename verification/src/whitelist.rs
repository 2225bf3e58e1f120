//! Destination allow-lists. A disabled list allows every address: the
//! fail-open default is deliberate and preserved as specified.

use vstd::prelude::*;

use crate::address::Address;
use crate::errors::DimmError;

verus! {

/// What a whitelist's entries stand for.
#[derive(Clone, Copy, Debug, PartialEq, Eq, Structural)]
pub enum WhitelistType {
    /// Allowed transfer destinations.
    Destinations,
    /// Allowed programs to call.
    Programs,
    /// Allowed token mints.
    Tokens,
    /// Allowed NFT collections.
    Collections,
}

/// Maximum number of entries a whitelist can hold.
pub const MAX_WHITELIST_ADDRESSES: usize = 100;

/// A bounded allow-list of addresses, owned by an agent or by the protocol.
pub struct Whitelist {
    /// Protocol or agent this whitelist belongs to.
    pub owner: Address,
    /// Whitelisted addresses, at most `MAX_WHITELIST_ADDRESSES`.
    pub addresses: Vec<Address>,
    /// Whether the whitelist is enabled; a disabled list allows everything.
    pub enabled: bool,
    /// What the entries stand for.
    pub whitelist_type: WhitelistType,
    /// Last updated timestamp.
    pub last_updated: i64,
}

impl Whitelist {
    /// The address passes the list: every address does while the list is
    /// disabled, otherwise exactly the members.
    pub open spec fn spec_is_whitelisted(&self, address: Address) -> bool {
        !self.enabled || self.addresses@.contains(address)
    }

    /// The entries after removing an address: every other entry, in order.
    pub open spec fn spec_remove(entries: Seq<Address>, address: Address) -> Seq<Address> {
        entries.filter(|entry: Address| entry != address)
    }

    /// Whether the address is allowed: `true` unconditionally when the list
    /// is disabled, otherwise membership.
    pub fn is_whitelisted(&self, address: &Address) -> (r: bool)
        ensures
            r == self.spec_is_whitelisted(*address),
    {
        if !self.enabled {
            return true;
        }
        self.contains(address)
    }

    /// Whether the address is among the entries.
    pub fn contains(&self, address: &Address) -> (r: bool)
        ensures
            r == self.addresses@.contains(*address),
    {
        let mut i: usize = 0;
        while i < self.addresses.len()
            invariant
                i <= self.addresses.len(),
                forall|j: int| 0 <= j < i ==> self.addresses@[j] != *address,
            decreases self.addresses.len() - i,
        {
            if self.addresses[i] == *address {
                return true;
            }
            i += 1;
        }
        false
    }

    /// Add an address: fails when the list is at its cap, and inserting a
    /// duplicate is a no-op.
    pub fn add_address(&mut self, address: Address) -> (r: Result<(), DimmError>)
        ensures
            old(self).addresses@.len() >= MAX_WHITELIST_ADDRESSES ==> r == Err::<(), DimmError>(
                DimmError::MaxAgentsReached,
            ) && *final(self) == *old(self),
            old(self).addresses@.len() < MAX_WHITELIST_ADDRESSES ==> r == Ok::<(), DimmError>(())
                && final(self).addresses@ == (if old(self).addresses@.contains(address) {
                old(self).addresses@
            } else {
                old(self).addresses@.push(address)
            }),
            final(self).owner == old(self).owner,
            final(self).enabled == old(self).enabled,
            final(self).whitelist_type == old(self).whitelist_type,
            final(self).last_updated == old(self).last_updated,
            old(self).addresses@.len() <= MAX_WHITELIST_ADDRESSES ==> final(self).addresses@.len()
                <= MAX_WHITELIST_ADDRESSES,
    {
        if self.addresses.len() >= MAX_WHITELIST_ADDRESSES {
            return Err(DimmError::MaxAgentsReached);
        }
        if !self.contains(&address) {
            self.addresses.push(address);
        }
        Ok(())
    }

    /// Remove an address from the list; removing an absent address is a
    /// no-op.
    pub fn remove_address(&mut self, address: &Address) -> (r: Result<(), DimmError>)
        ensures
            r == Ok::<(), DimmError>(()),
            final(self).addresses@ == Self::spec_remove(old(self).addresses@, *address),
            final(self).owner == old(self).owner,
            final(self).enabled == old(self).enabled,
            final(self).whitelist_type == old(self).whitelist_type,
            final(self).last_updated == old(self).last_updated,
    {
        let ghost entries = self.addresses@;
        let mut kept: Vec<Address> = Vec::new();
        let mut i: usize = 0;
        proof {
            reveal(Seq::filter);
            assert(entries.take(0) =~= Seq::<Address>::empty());
        }
        while i < self.addresses.len()
            invariant
                i <= self.addresses.len(),
                self.addresses@ == entries,
                kept@ == Self::spec_remove(entries.take(i as int), *address),
            decreases self.addresses.len() - i,
        {
            proof {
                broadcast use Seq::lemma_filter_push;

                assert(entries.take(i + 1) =~= entries.take(i as int).push(entries[i as int]));
            }
            if self.addresses[i] != *address {
                kept.push(self.addresses[i]);
            }
            i += 1;
        }
        proof {
            assert(entries.take(entries.len() as int) =~= entries);
        }
        self.addresses = kept;
        Ok(())
    }
}

} // verus!
