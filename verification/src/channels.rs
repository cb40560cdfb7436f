//! The set of push channels that are open right now.

use vstd::prelude::*;
use std::collections::HashSet;
use vstd::std_specs::hash::spec_hash_keys_iter;
use vstd::std_specs::iter::IteratorSpec;

verus! {

broadcast use vstd::std_specs::hash::group_hash_axioms;

/// The identifiers of the channels that are open. Nothing about a channel is
/// kept but its identifier, and the set is never persisted.
#[derive(Debug)]
pub struct ChannelRegistry {
    ids: HashSet<u32>,
}

impl View for ChannelRegistry {
    type V = Set<u32>;

    closed spec fn view(&self) -> Set<u32> {
        self.ids@
    }
}

impl Clone for ChannelRegistry {
    fn clone(&self) -> (copy: ChannelRegistry)
        ensures
            copy@ == self@,
    {
        let members = self.members();
        let mut copy = ChannelRegistry::new();
        let mut i: usize = 0;
        while i < members.len()
            invariant
                i <= members.len(),
                copy@ == members@.take(i as int).to_set(),
            decreases members.len() - i,
        {
            copy.register(members[i]);
            proof {
                assert(members@.take(i + 1) == members@.take(i as int).push(members@[i as int]));
                members@.take(i as int).lemma_push_to_set_commute(members@[i as int]);
            }
            i += 1;
        }
        assert(members@.take(members.len() as int) == members@);
        copy
    }
}

impl PartialEq for ChannelRegistry {
    fn eq(&self, other: &ChannelRegistry) -> (same: bool) {
        if self.len() != other.len() {
            return false;
        }
        let members = self.members();
        let mut i: usize = 0;
        while i < members.len()
            invariant
                i <= members.len(),
                members@.to_set() == self@,
                forall|j: int| 0 <= j < i ==> other@.contains(#[trigger] members@[j]),
            decreases members.len() - i,
        {
            if !other.contains(members[i]) {
                assert(self@.contains(members@[i as int]));
                return false;
            }
            i += 1;
        }
        proof {
            assert forall|c: u32| self@.contains(c) implies other@.contains(c) by {
                let j = choose|j: int| 0 <= j < members@.len() && members@[j] == c;
                assert(other@.contains(members@[j]));
            }
            vstd::set_lib::lemma_subset_equality(self@, other@);
        }
        true
    }
}

impl vstd::std_specs::cmp::PartialEqSpecImpl for ChannelRegistry {
    open spec fn obeys_eq_spec() -> bool {
        true
    }

    open spec fn eq_spec(&self, other: &ChannelRegistry) -> bool {
        self@ == other@
    }
}

impl ChannelRegistry {
    /// A registry without channels.
    pub fn new() -> (registry: ChannelRegistry)
        ensures
            registry@ == Set::<u32>::empty(),
    {
        ChannelRegistry { ids: HashSet::new() }
    }

    /// Adds a channel; a channel that is present already stays, once.
    pub fn register(&mut self, channel_id: u32)
        ensures
            final(self)@ == old(self)@.insert(channel_id),
    {
        self.ids.insert(channel_id);
    }

    /// Removes a channel; removing one that is absent changes nothing.
    pub fn unregister(&mut self, channel_id: u32)
        ensures
            final(self)@ == old(self)@.remove(channel_id),
    {
        self.ids.remove(&channel_id);
    }

    /// Whether the channel is registered.
    pub fn contains(&self, channel_id: u32) -> (present: bool)
        ensures
            present == self@.contains(channel_id),
    {
        self.ids.contains(&channel_id)
    }

    /// The number of registered channels, which are finitely many.
    pub fn len(&self) -> (n: usize)
        ensures
            self@.finite(),
            n == self@.len(),
    {
        proof {
            let walk = spec_hash_keys_iter(&self.ids).remaining().unref();
            vstd::seq_lib::seq_to_set_is_finite(walk);
        }
        self.ids.len()
    }

    /// Every registered channel, each exactly once, in no particular order.
    pub fn members(&self) -> (ids: Vec<u32>)
        ensures
            ids@.no_duplicates(),
            ids@.to_set() == self@,
    {
        let mut ids: Vec<u32> = Vec::new();
        for id in it: self.ids.iter()
            invariant
                it.seq() == spec_hash_keys_iter(&self.ids).remaining(),
                ids@.len() == it.index(),
                forall|j: int| 0 <= j < it.index() ==> ids@[j] == *(#[trigger] it.seq()[j]),
        {
            ids.push(*id);
        }
        proof {
            let walk = spec_hash_keys_iter(&self.ids).remaining();
            assert(ids@ =~= walk.unref());
        }
        ids
    }
}

} // verus!
