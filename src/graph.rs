use std::collections::BTreeMap;
use vstd::prelude::*;

use crate::event::{descriptors_view, DescriptorView, NodeDescriptor, ParticipantId};

verus! {

/// What each remote participant last announced about its nodes.
pub struct NodeTable {
    table: BTreeMap<ParticipantId, Vec<NodeDescriptor>>,
}

impl View for NodeTable {
    type V = Map<ParticipantId, Seq<DescriptorView>>;

    closed spec fn view(&self) -> Map<ParticipantId, Seq<DescriptorView>> {
        Map::new(
            |k: ParticipantId| self.table@.contains_key(k),
            |k: ParticipantId| descriptors_view(self.table@[k]@),
        )
    }
}

impl NodeTable {
    pub fn new() -> (r: NodeTable)
        ensures
            r@ == Map::<ParticipantId, Seq<DescriptorView>>::empty(),
    {
        let r = NodeTable { table: BTreeMap::new() };
        assert(r@ =~= Map::<ParticipantId, Seq<DescriptorView>>::empty());
        r
    }

    /// Replaces wholesale what is known of `participant` by `nodes`.
    pub fn update(&mut self, participant: ParticipantId, nodes: Vec<NodeDescriptor>)
        ensures
            final(self)@ == old(self)@.insert(participant, descriptors_view(nodes@)),
    {
        let ghost ns = descriptors_view(nodes@);
        self.table.insert(participant, nodes);
        assert(self@ =~= old(self)@.insert(participant, ns));
    }

    /// The nodes last announced by `participant`, if it announced any.
    pub fn get(&self, participant: ParticipantId) -> (r: Option<&Vec<NodeDescriptor>>)
        ensures
            r matches Some(v) ==> self@.contains_key(participant) && descriptors_view(v@) == self@[participant],
            r is None ==> !self@.contains_key(participant),
    {
        self.table.get(&participant)
    }

    /// How many participants announced something.
    pub fn len(&self) -> (r: usize)
        ensures
            r == self@.len(),
    {
        proof {
            assert(self@.dom() =~= self.table@.dom());
        }
        self.table.len()
    }
}

/// A later snapshot of a participant supersedes an earlier one: nothing
/// of the first survives.
pub proof fn lemma_snapshot_replaces(
    table: Map<ParticipantId, Seq<DescriptorView>>,
    participant: ParticipantId,
    first: Seq<DescriptorView>,
    second: Seq<DescriptorView>,
)
    ensures
        table.insert(participant, first).insert(participant, second) == table.insert(
            participant,
            second,
        ),
        table.insert(participant, first).insert(participant, second)[participant] == second,
{
    assert(table.insert(participant, first).insert(participant, second) =~= table.insert(
        participant,
        second,
    ));
}

} // verus!
