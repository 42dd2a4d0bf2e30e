use vstd::prelude::*;

verus! {

/// Identifier of a single reader or writer endpoint (the 16 bytes of a
/// transport GUID, read big-endian).
pub type EndpointId = u128;

/// Identifier of a remote participant (process) in the graph.
pub type ParticipantId = u128;

/// A match-status notification coming from the transport.
#[derive(Clone, Debug, PartialEq, Eq)]
pub enum MatchEvent {
    /// A remote writer matched one of our readers.
    RemoteWriterMatched { local_reader: EndpointId, remote_writer: EndpointId },
    /// A remote reader matched one of our writers.
    RemoteReaderMatched { local_writer: EndpointId, remote_reader: EndpointId },
    /// A remote writer went away.
    WriterLost { remote_writer: EndpointId },
    /// A remote reader went away.
    ReaderLost { remote_reader: EndpointId },
    /// Any other transport status, kept as its textual rendering.
    Other { detail: String },
}

/// Summary of the endpoints owned by one node.
#[derive(Clone, Debug, PartialEq, Eq)]
pub struct NodeDescriptor {
    pub name: String,
    pub namespace: String,
    pub reader_ids: Vec<EndpointId>,
    pub writer_ids: Vec<EndpointId>,
}

/// The plain content of a descriptor: name, namespace, reader ids,
/// writer ids.
pub type DescriptorView = (Seq<char>, Seq<char>, Seq<EndpointId>, Seq<EndpointId>);

pub open spec fn descriptor_view(d: NodeDescriptor) -> DescriptorView {
    (d.name@, d.namespace@, d.reader_ids@, d.writer_ids@)
}

pub open spec fn descriptors_view(ds: Seq<NodeDescriptor>) -> Seq<DescriptorView> {
    ds.map_values(|d: NodeDescriptor| descriptor_view(d))
}

/// A copy of an id vector.
pub fn copy_ids(v: &Vec<EndpointId>) -> (r: Vec<EndpointId>)
    ensures
        r@ == v@,
{
    let mut r: Vec<EndpointId> = Vec::new();
    let mut i: usize = 0;
    while i < v.len()
        invariant
            0 <= i <= v.len(),
            r@ == v@.subrange(0, i as int),
        decreases v.len() - i,
    {
        r.push(v[i]);
        i = i + 1;
        assert(r@ =~= v@.subrange(0, i as int));
    }
    assert(r@ =~= v@);
    r
}

impl NodeDescriptor {
    /// A copy with the same content.
    pub fn copy(&self) -> (r: NodeDescriptor)
        ensures
            descriptor_view(r) == descriptor_view(*self),
    {
        NodeDescriptor {
            name: self.name.clone(),
            namespace: self.namespace.clone(),
            reader_ids: copy_ids(&self.reader_ids),
            writer_ids: copy_ids(&self.writer_ids),
        }
    }
}

/// A copy of a descriptor vector with the same content.
pub fn copy_descriptors(v: &Vec<NodeDescriptor>) -> (r: Vec<NodeDescriptor>)
    ensures
        descriptors_view(r@) == descriptors_view(v@),
{
    let mut r: Vec<NodeDescriptor> = Vec::new();
    let mut i: usize = 0;
    while i < v.len()
        invariant
            0 <= i <= v.len(),
            r@.len() == i,
            forall|j: int| 0 <= j < i ==> descriptor_view(#[trigger] r@[j]) == descriptor_view(v@[j]),
        decreases v.len() - i,
    {
        r.push(v[i].copy());
        i = i + 1;
    }
    assert(descriptors_view(r@) =~= descriptors_view(v@));
    r
}

/// A snapshot of the nodes that one remote participant announced.
#[derive(Clone, Debug, PartialEq, Eq)]
pub struct ParticipantInfo {
    pub participant_id: ParticipantId,
    pub nodes: Vec<NodeDescriptor>,
}

/// A discovery event as handed to consumers, tagged by where it came from.
#[derive(Clone, Debug, PartialEq, Eq)]
pub enum NodeEvent {
    /// A transport match-status event.
    DDS(MatchEvent),
    /// A graph snapshot of a remote participant.
    ROS(ParticipantInfo),
}

} // verus!
