use async_channel::Receiver;
use vstd::prelude::*;
use vstd::string::StringExecFns;

use crate::event::{
    copy_descriptors, descriptors_view, DescriptorView, EndpointId, MatchEvent, NodeDescriptor,
    NodeEvent, ParticipantInfo,
};
use crate::graph::NodeTable;
use crate::channel::{Delivery, Offer};
use crate::hub::{keep_open, outcomes_of, EventHub};
use crate::options::NodeOptions;
use crate::registry::{descriptor_writers, insert_sorted, sorted, EntityRegistry};
use crate::tracker::{count_of, has_match, with_match, without_remote, MatchTracker};

verus! {

/// How many events a consumer's queue holds before further ones are
/// dropped for it.
pub const STATUS_QUEUE_CAPACITY: usize = 8;

/// The reader-side match table after the transport event `e`.
pub open spec fn readers_after(m: Map<EndpointId, Set<EndpointId>>, e: MatchEvent) -> Map<
    EndpointId,
    Set<EndpointId>,
> {
    match e {
        MatchEvent::RemoteWriterMatched { local_reader, remote_writer } => with_match(
            m,
            local_reader,
            remote_writer,
        ),
        MatchEvent::WriterLost { remote_writer } => without_remote(m, remote_writer),
        _ => m,
    }
}

/// The writer-side match table after the transport event `e`.
pub open spec fn writers_after(m: Map<EndpointId, Set<EndpointId>>, e: MatchEvent) -> Map<
    EndpointId,
    Set<EndpointId>,
> {
    match e {
        MatchEvent::RemoteReaderMatched { local_writer, remote_reader } => with_match(
            m,
            local_writer,
            remote_reader,
        ),
        MatchEvent::ReaderLost { remote_reader } => without_remote(m, remote_reader),
        _ => m,
    }
}

/// Whether `e` announces a remote writer matched with `reader`.
pub open spec fn announces_writer_for(reader: EndpointId, e: NodeEvent) -> bool {
    match e {
        NodeEvent::DDS(MatchEvent::RemoteWriterMatched { local_reader, .. }) => local_reader
            == reader,
        _ => false,
    }
}

/// Whether `e` announces a remote reader matched with `writer`.
pub open spec fn announces_reader_for(writer: EndpointId, e: NodeEvent) -> bool {
    match e {
        NodeEvent::DDS(MatchEvent::RemoteReaderMatched { local_writer, .. }) => local_writer
            == writer,
        _ => false,
    }
}

/// The count reported for an endpoint: its number of matches, zero when
/// it is unknown.
pub open spec fn reported_count(m: Map<EndpointId, Set<EndpointId>>, local: EndpointId) -> nat {
    match count_of(m, local) {
        Some(n) => n,
        None => 0,
    }
}

/// One input of the discovery loop.
pub enum SpinInput {
    /// The request to stop.
    Stop,
    /// An item of the remote graph feed: a snapshot, or the text of a
    /// failure to receive one.
    Graph(Result<ParticipantInfo, String>),
    /// A transport status event.
    Status(MatchEvent),
}

/// The state of the discovery loop.
#[derive(Clone, Copy, Debug, PartialEq, Eq, Structural)]
pub enum SpinState {
    Running,
    Stopped,
}

/// What one step of the discovery loop did.
pub struct SpinReport {
    /// The state after the step.
    pub state: SpinState,
    /// The offer made to each consumer listed before the step, in list
    /// order; empty when nothing was broadcast.
    pub offers: Vec<Offer>,
}

/// Whether `offers` holds exactly one offer of `event` to each of
/// `consumers`, in their order.
pub open spec fn offered_to_all(
    offers: Seq<Offer>,
    consumers: Seq<async_channel::Sender<NodeEvent>>,
    event: NodeEvent,
) -> bool {
    &&& offers.len() == consumers.len()
    &&& forall|i: int|
        0 <= i < offers.len() ==> #[trigger] offers[i].sender_view() == consumers[i]
            && offers[i].event_view() == event
}

impl SpinReport {
    /// What came of each offer, in order.
    pub fn outcomes(&self) -> (r: Vec<Delivery>)
        ensures
            r@ == outcomes_of(self.offers@),
    {
        let mut r: Vec<Delivery> = Vec::new();
        let mut i: usize = 0;
        while i < self.offers.len()
            invariant
                0 <= i <= self.offers.len(),
                r@ == outcomes_of(self.offers@.subrange(0, i as int)),
            decreases self.offers.len() - i,
        {
            r.push(self.offers[i].outcome());
            i = i + 1;
            assert(r@ =~= outcomes_of(self.offers@.subrange(0, i as int)));
        }
        assert(self.offers@.subrange(0, i as int) =~= self.offers@);
        r
    }
}

/// A node: the endpoints it created, the remote endpoints matched with
/// them, what remote participants announced, and the consumers of its
/// discovery events.
pub struct Node {
    registry: EntityRegistry,
    options: NodeOptions,
    domain_id: u16,
    rosout_reader: Option<EndpointId>,
    readers_to_remote_writers: MatchTracker,
    writers_to_remote_readers: MatchTracker,
    external_nodes: NodeTable,
    status_event_senders: EventHub,
    state: SpinState,
}

impl Node {
    pub closed spec fn registry_view(&self) -> EntityRegistry {
        self.registry
    }

    pub closed spec fn options_view(&self) -> NodeOptions {
        self.options
    }

    pub closed spec fn domain_id_view(&self) -> u16 {
        self.domain_id
    }

    pub closed spec fn rosout_reader_view(&self) -> Option<EndpointId> {
        self.rosout_reader
    }

    /// Local readers and the remote writers matched with each.
    pub closed spec fn readers_matched(&self) -> Map<EndpointId, Set<EndpointId>> {
        self.readers_to_remote_writers@
    }

    /// Local writers and the remote readers matched with each.
    pub closed spec fn writers_matched(&self) -> Map<EndpointId, Set<EndpointId>> {
        self.writers_to_remote_readers@
    }

    /// Remote participants and the nodes each last announced.
    pub closed spec fn external_nodes_view(&self) -> Map<u128, Seq<DescriptorView>> {
        self.external_nodes@
    }

    /// The sending sides of the consumers' channels.
    pub closed spec fn consumers(&self) -> Seq<async_channel::Sender<NodeEvent>> {
        self.status_event_senders@
    }

    pub closed spec fn state_view(&self) -> SpinState {
        self.state
    }

    /// The registry is well formed (its id lists sorted), the log writer
    /// and log reader exist exactly when the options ask for them, and the
    /// match tables are well formed.
    pub open spec fn wf(&self) -> bool {
        &&& self.registry_view().wf()
        &&& self.registry_view().rosout_writer_view().is_some()
            == self.options_view().rosout_spec()
        &&& self.rosout_reader_view().is_some() == self.options_view().rosout_reading_spec()
        &&& self.tables_wf()
    }

    pub closed spec fn tables_wf(&self) -> bool {
        &&& self.readers_to_remote_writers.wf()
        &&& self.writers_to_remote_readers.wf()
    }

    /// A node with no user endpoints, no matches, no consumers, and its
    /// discovery loop running. `parameter_events_writer` and
    /// `rosout_writer` are its built-in writers, `rosout_reader` its log
    /// reader, present exactly when the options enable log writing and log
    /// reading.
    pub fn new(
        name: &str,
        namespace: &str,
        options: NodeOptions,
        domain_id: u16,
        parameter_events_writer: EndpointId,
        rosout_writer: Option<EndpointId>,
        rosout_reader: Option<EndpointId>,
    ) -> (r: Node)
        requires
            rosout_writer.is_some() == options.rosout_spec(),
            rosout_reader.is_some() == options.rosout_reading_spec(),
        ensures
            r.wf(),
            r.registry_view().name_view() == name@,
            r.registry_view().namespace_view() == namespace@,
            r.registry_view().parameter_events_writer_view() == parameter_events_writer,
            r.registry_view().rosout_writer_view() == rosout_writer,
            r.registry_view().readers_view() == Seq::<EndpointId>::empty(),
            r.registry_view().writers_view() == Seq::<EndpointId>::empty(),
            r.options_view() == options,
            r.domain_id_view() == domain_id,
            r.rosout_reader_view() == rosout_reader,
            r.readers_matched() == Map::<EndpointId, Set<EndpointId>>::empty(),
            r.writers_matched() == Map::<EndpointId, Set<EndpointId>>::empty(),
            r.external_nodes_view() == Map::<u128, Seq<DescriptorView>>::empty(),
            r.consumers() == Seq::<async_channel::Sender<NodeEvent>>::empty(),
            r.state_view() == SpinState::Running,
    {
        Node {
            registry: EntityRegistry::new(
                name.to_owned(),
                namespace.to_owned(),
                parameter_events_writer,
                rosout_writer,
            ),
            options,
            domain_id,
            rosout_reader,
            readers_to_remote_writers: MatchTracker::new(),
            writers_to_remote_readers: MatchTracker::new(),
            external_nodes: NodeTable::new(),
            status_event_senders: EventHub::new(),
            state: SpinState::Running,
        }
    }

    pub fn name(&self) -> (r: &str)
        ensures
            r@ == self.registry_view().name_view(),
    {
        self.registry.name()
    }

    pub fn namespace(&self) -> (r: &str)
        ensures
            r@ == self.registry_view().namespace_view(),
    {
        self.registry.namespace()
    }

    /// The namespace followed by the name.
    pub fn fully_qualified_name(&self) -> (r: String)
        ensures
            r@ == self.registry_view().namespace_view() + self.registry_view().name_view(),
    {
        let mut nn = self.registry.namespace().to_owned();
        nn.append(self.registry.name());
        nn
    }

    pub fn options(&self) -> (r: &NodeOptions)
        ensures
            *r == self.options_view(),
    {
        &self.options
    }

    pub fn domain_id(&self) -> (r: u16)
        ensures
            r == self.domain_id_view(),
    {
        self.domain_id
    }

    /// The local reader of the log topic, when the options asked for one.
    pub fn rosout_reader(&self) -> (r: Option<EndpointId>)
        ensures
            r == self.rosout_reader_view(),
    {
        self.rosout_reader
    }

    /// The descriptor that the node announces: every reader it created,
    /// its built-in writers and every writer it created.
    pub fn generate_node_info(&self) -> (r: NodeDescriptor)
        requires
            self.wf(),
        ensures
            sorted(r.reader_ids@),
            sorted(self.registry_view().writers_view()),
            self.registry_view().rosout_writer_view().is_some() == self.options_view().rosout_spec(),
            r.name@ == self.registry_view().name_view(),
            r.namespace@ == self.registry_view().namespace_view(),
            r.reader_ids@ == self.registry_view().readers_view(),
            r.writer_ids@ == descriptor_writers(
                self.registry_view().parameter_events_writer_view(),
                self.registry_view().rosout_writer_view(),
                self.registry_view().writers_view(),
            ),
    {
        self.registry.generate_node_info()
    }

    /// Records a reader created through this node and returns the
    /// descriptor to announce. Registering an id twice changes nothing.
    pub fn add_reader(&mut self, reader: EndpointId) -> (r: NodeDescriptor)
        requires
            old(self).wf(),
        ensures
            final(self).wf(),
            final(self).registry_view().readers_view() == insert_sorted(
                old(self).registry_view().readers_view(),
                reader,
            ),
            final(self).registry_view().writers_view() == old(self).registry_view().writers_view(),
            final(self).registry_view().name_view() == old(self).registry_view().name_view(),
            final(self).registry_view().namespace_view() == old(
                self,
            ).registry_view().namespace_view(),
            final(self).registry_view().parameter_events_writer_view() == old(
                self,
            ).registry_view().parameter_events_writer_view(),
            final(self).registry_view().rosout_writer_view() == old(
                self,
            ).registry_view().rosout_writer_view(),
            r.name@ == final(self).registry_view().name_view(),
            r.namespace@ == final(self).registry_view().namespace_view(),
            r.reader_ids@ == final(self).registry_view().readers_view(),
            r.writer_ids@ == descriptor_writers(
                final(self).registry_view().parameter_events_writer_view(),
                final(self).registry_view().rosout_writer_view(),
                final(self).registry_view().writers_view(),
            ),
            final(self).readers_matched() == old(self).readers_matched(),
            final(self).writers_matched() == old(self).writers_matched(),
            final(self).consumers() == old(self).consumers(),
            final(self).state_view() == old(self).state_view(),
            final(self).options_view() == old(self).options_view(),
            sorted(r.reader_ids@),
    {
        self.registry.add_reader(reader);
        self.registry.generate_node_info()
    }

    /// Records a writer created through this node and returns the
    /// descriptor to announce. Registering an id twice changes nothing.
    pub fn add_writer(&mut self, writer: EndpointId) -> (r: NodeDescriptor)
        requires
            old(self).wf(),
        ensures
            final(self).wf(),
            final(self).registry_view().writers_view() == insert_sorted(
                old(self).registry_view().writers_view(),
                writer,
            ),
            final(self).registry_view().readers_view() == old(self).registry_view().readers_view(),
            final(self).registry_view().name_view() == old(self).registry_view().name_view(),
            final(self).registry_view().namespace_view() == old(
                self,
            ).registry_view().namespace_view(),
            final(self).registry_view().parameter_events_writer_view() == old(
                self,
            ).registry_view().parameter_events_writer_view(),
            final(self).registry_view().rosout_writer_view() == old(
                self,
            ).registry_view().rosout_writer_view(),
            r.name@ == final(self).registry_view().name_view(),
            r.namespace@ == final(self).registry_view().namespace_view(),
            r.reader_ids@ == final(self).registry_view().readers_view(),
            r.writer_ids@ == descriptor_writers(
                final(self).registry_view().parameter_events_writer_view(),
                final(self).registry_view().rosout_writer_view(),
                final(self).registry_view().writers_view(),
            ),
            final(self).readers_matched() == old(self).readers_matched(),
            final(self).writers_matched() == old(self).writers_matched(),
            final(self).consumers() == old(self).consumers(),
            final(self).state_view() == old(self).state_view(),
            final(self).options_view() == old(self).options_view(),
            sorted(final(self).registry_view().writers_view()),
    {
        self.registry.add_writer(writer);
        self.registry.generate_node_info()
    }

    /// A new live feed of discovery events: its channel is listed last
    /// among the consumers.
    pub fn status_receiver(&mut self) -> (r: Receiver<NodeEvent>)
        ensures
            final(self).consumers().len() == old(self).consumers().len() + 1,
            final(self).consumers().drop_last() == old(self).consumers(),
            final(self).registry_view() == old(self).registry_view(),
            final(self).readers_matched() == old(self).readers_matched(),
            final(self).writers_matched() == old(self).writers_matched(),
            final(self).external_nodes_view() == old(self).external_nodes_view(),
            final(self).state_view() == old(self).state_view(),
            final(self).options_view() == old(self).options_view(),
            final(self).rosout_reader_view() == old(self).rosout_reader_view(),
            final(self).wf() == old(self).wf(),
    {
        self.status_event_senders.subscribe(STATUS_QUEUE_CAPACITY)
    }

    /// Offers `event` to every consumer and drops those found closed.
    fn send_status_event(&mut self, event: &NodeEvent) -> (r: Vec<Offer>)
        ensures
            offered_to_all(r@, old(self).consumers(), *event),
            final(self).consumers() == keep_open(old(self).consumers(), outcomes_of(r@)),
            final(self).options_view() == old(self).options_view(),
            final(self).rosout_reader_view() == old(self).rosout_reader_view(),
            final(self).registry_view() == old(self).registry_view(),
            final(self).readers_matched() == old(self).readers_matched(),
            final(self).writers_matched() == old(self).writers_matched(),
            final(self).external_nodes_view() == old(self).external_nodes_view(),
            final(self).state_view() == old(self).state_view(),
            final(self).wf() == old(self).wf(),
    {
        self.status_event_senders.broadcast(event)
    }

    /// Applies a transport event to the match tables.
    fn apply_status(&mut self, e: &MatchEvent)
        requires
            old(self).wf(),
        ensures
            final(self).wf(),
            final(self).readers_matched() == readers_after(old(self).readers_matched(), *e),
            final(self).writers_matched() == writers_after(old(self).writers_matched(), *e),
            final(self).consumers() == old(self).consumers(),
            final(self).registry_view() == old(self).registry_view(),
            final(self).external_nodes_view() == old(self).external_nodes_view(),
            final(self).state_view() == old(self).state_view(),
            final(self).options_view() == old(self).options_view(),
            final(self).rosout_reader_view() == old(self).rosout_reader_view(),
    {
        match e {
            MatchEvent::RemoteReaderMatched { local_writer, remote_reader } => {
                self.writers_to_remote_readers.add_match(*local_writer, *remote_reader);
            },
            MatchEvent::RemoteWriterMatched { local_reader, remote_writer } => {
                self.readers_to_remote_writers.add_match(*local_reader, *remote_writer);
            },
            MatchEvent::ReaderLost { remote_reader } => {
                self.writers_to_remote_readers.remove_everywhere(*remote_reader);
            },
            MatchEvent::WriterLost { remote_writer } => {
                self.readers_to_remote_writers.remove_everywhere(*remote_writer);
            },
            MatchEvent::Other { .. } => {},
        }
    }

    /// One step of the discovery loop. A stop request ends the loop for
    /// good; a graph snapshot replaces what its participant announced
    /// before and is broadcast; a failure on the graph feed changes
    /// nothing; a transport event updates the match tables and is
    /// broadcast, whatever its kind. A stopped loop ignores its input.
    pub fn spin_once(&mut self, input: SpinInput) -> (r: SpinReport)
        requires
            old(self).wf(),
        ensures
            final(self).wf(),
            final(self).registry_view() == old(self).registry_view(),
            final(self).options_view() == old(self).options_view(),
            r.state == final(self).state_view(),
            old(self).state_view() == SpinState::Stopped ==> {
                &&& r.state == SpinState::Stopped
                &&& r.offers@.len() == 0
                &&& final(self).readers_matched() == old(self).readers_matched()
                &&& final(self).writers_matched() == old(self).writers_matched()
                &&& final(self).external_nodes_view() == old(self).external_nodes_view()
                &&& final(self).consumers() == old(self).consumers()
            },
            old(self).state_view() == SpinState::Running ==> match input {
                SpinInput::Stop => {
                    &&& r.state == SpinState::Stopped
                    &&& r.offers@.len() == 0
                    &&& final(self).readers_matched() == old(self).readers_matched()
                    &&& final(self).writers_matched() == old(self).writers_matched()
                    &&& final(self).external_nodes_view() == old(self).external_nodes_view()
                    &&& final(self).consumers() == old(self).consumers()
                },
                SpinInput::Graph(Ok(info)) => {
                    &&& r.state == SpinState::Running
                    &&& offered_to_all(r.offers@, old(self).consumers(), NodeEvent::ROS(info))
                    &&& final(self).consumers() == keep_open(
                        old(self).consumers(),
                        outcomes_of(r.offers@),
                    )
                    &&& final(self).readers_matched() == old(self).readers_matched()
                    &&& final(self).writers_matched() == old(self).writers_matched()
                    &&& final(self).external_nodes_view() == old(
                        self,
                    ).external_nodes_view().insert(
                        info.participant_id,
                        descriptors_view(info.nodes@),
                    )
                },
                SpinInput::Graph(Err(_)) => {
                    &&& r.state == SpinState::Running
                    &&& r.offers@.len() == 0
                    &&& final(self).readers_matched() == old(self).readers_matched()
                    &&& final(self).writers_matched() == old(self).writers_matched()
                    &&& final(self).external_nodes_view() == old(self).external_nodes_view()
                    &&& final(self).consumers() == old(self).consumers()
                },
                SpinInput::Status(e) => {
                    &&& r.state == SpinState::Running
                    &&& offered_to_all(r.offers@, old(self).consumers(), NodeEvent::DDS(e))
                    &&& final(self).consumers() == keep_open(
                        old(self).consumers(),
                        outcomes_of(r.offers@),
                    )
                    &&& final(self).readers_matched() == readers_after(
                        old(self).readers_matched(),
                        e,
                    )
                    &&& final(self).writers_matched() == writers_after(
                        old(self).writers_matched(),
                        e,
                    )
                    &&& final(self).external_nodes_view() == old(self).external_nodes_view()
                },
            },
    {
        if self.state == SpinState::Stopped {
            return SpinReport { state: SpinState::Stopped, offers: Vec::new() };
        }
        match input {
            SpinInput::Stop => {
                self.state = SpinState::Stopped;
                SpinReport { state: SpinState::Stopped, offers: Vec::new() }
            },
            SpinInput::Graph(Ok(info)) => {
                self.external_nodes.update(info.participant_id, copy_descriptors(&info.nodes));
                let offers = self.send_status_event(&NodeEvent::ROS(info));
                SpinReport { state: SpinState::Running, offers }
            },
            SpinInput::Graph(Err(_)) => {
                SpinReport { state: SpinState::Running, offers: Vec::new() }
            },
            SpinInput::Status(e) => {
                self.apply_status(&e);
                let offers = self.send_status_event(&NodeEvent::DDS(e));
                SpinReport { state: SpinState::Running, offers }
            },
        }
    }

    /// The start of a wait for a remote writer of `reader`: first a new
    /// event feed is listed, and only then the match table is read. When
    /// the result's flag is set, a writer is already matched; otherwise
    /// the caller reads the feed until `ends_wait_for_writer` accepts an
    /// event.
    pub fn begin_wait_for_writer(&mut self, reader: EndpointId) -> (r: (Receiver<NodeEvent>, bool))
        requires
            old(self).wf(),
        ensures
            final(self).wf(),
            final(self).consumers().len() == old(self).consumers().len() + 1,
            final(self).consumers().drop_last() == old(self).consumers(),
            r.1 == has_match(final(self).readers_matched(), reader),
            final(self).readers_matched() == old(self).readers_matched(),
            final(self).writers_matched() == old(self).writers_matched(),
            final(self).external_nodes_view() == old(self).external_nodes_view(),
            final(self).registry_view() == old(self).registry_view(),
            final(self).state_view() == old(self).state_view(),
            final(self).options_view() == old(self).options_view(),
    {
        let receiver = self.status_receiver();
        let already_present = self.readers_to_remote_writers.has_match(reader);
        (receiver, already_present)
    }

    /// The start of a wait for a remote reader of `writer`; see
    /// `begin_wait_for_writer`.
    pub fn begin_wait_for_reader(&mut self, writer: EndpointId) -> (r: (Receiver<NodeEvent>, bool))
        requires
            old(self).wf(),
        ensures
            final(self).wf(),
            final(self).consumers().len() == old(self).consumers().len() + 1,
            final(self).consumers().drop_last() == old(self).consumers(),
            r.1 == has_match(final(self).writers_matched(), writer),
            final(self).readers_matched() == old(self).readers_matched(),
            final(self).writers_matched() == old(self).writers_matched(),
            final(self).external_nodes_view() == old(self).external_nodes_view(),
            final(self).registry_view() == old(self).registry_view(),
            final(self).state_view() == old(self).state_view(),
            final(self).options_view() == old(self).options_view(),
    {
        let receiver = self.status_receiver();
        let already_present = self.writers_to_remote_readers.has_match(writer);
        (receiver, already_present)
    }

    /// Whether `event` ends a wait for a remote writer of `reader`.
    pub fn ends_wait_for_writer(reader: EndpointId, event: &NodeEvent) -> (r: bool)
        ensures
            r == announces_writer_for(reader, *event),
    {
        match event {
            NodeEvent::DDS(MatchEvent::RemoteWriterMatched { local_reader, .. }) => *local_reader
                == reader,
            _ => false,
        }
    }

    /// Whether `event` ends a wait for a remote reader of `writer`.
    pub fn ends_wait_for_reader(writer: EndpointId, event: &NodeEvent) -> (r: bool)
        ensures
            r == announces_reader_for(writer, *event),
    {
        match event {
            NodeEvent::DDS(MatchEvent::RemoteReaderMatched { local_writer, .. }) => *local_writer
                == writer,
            _ => false,
        }
    }

    /// The number of remote writers matched with the local reader
    /// `subscription`; `None` when no event ever named it.
    pub fn match_count_for_reader(&self, subscription: EndpointId) -> (r: Option<usize>)
        requires
            self.wf(),
        ensures
            r matches Some(n) ==> count_of(self.readers_matched(), subscription) == Some(n as nat),
            r is None ==> count_of(self.readers_matched(), subscription) is None,
    {
        self.readers_to_remote_writers.count(subscription)
    }

    /// The number of remote readers matched with the local writer
    /// `publisher`; `None` when no event ever named it.
    pub fn match_count_for_writer(&self, publisher: EndpointId) -> (r: Option<usize>)
        requires
            self.wf(),
        ensures
            r matches Some(n) ==> count_of(self.writers_matched(), publisher) == Some(n as nat),
            r is None ==> count_of(self.writers_matched(), publisher) is None,
    {
        self.writers_to_remote_readers.count(publisher)
    }

    /// The number of remote writers matched with `subscription`, zero for
    /// an unknown reader.
    pub fn get_publisher_count(&self, subscription: EndpointId) -> (r: usize)
        requires
            self.wf(),
        ensures
            r == reported_count(self.readers_matched(), subscription),
    {
        match self.match_count_for_reader(subscription) {
            Some(n) => n,
            None => 0,
        }
    }

    /// The number of remote readers matched with `publisher`, zero for an
    /// unknown writer.
    pub fn get_subscription_count(&self, publisher: EndpointId) -> (r: usize)
        requires
            self.wf(),
        ensures
            r == reported_count(self.writers_matched(), publisher),
    {
        match self.match_count_for_writer(publisher) {
            Some(n) => n,
            None => 0,
        }
    }

    /// The nodes that `participant` last announced.
    pub fn external_nodes_of(&self, participant: u128) -> (r: Option<&Vec<NodeDescriptor>>)
        ensures
            r matches Some(v) ==> self.external_nodes_view().contains_key(participant)
                && descriptors_view(v@) == self.external_nodes_view()[participant],
            r is None ==> !self.external_nodes_view().contains_key(participant),
    {
        self.external_nodes.get(participant)
    }

    /// The number of consumers currently listed.
    pub fn consumer_count(&self) -> (r: usize)
        ensures
            r == self.consumers().len(),
    {
        self.status_event_senders.len()
    }

    pub fn is_running(&self) -> (r: bool)
        ensures
            r == (self.state_view() == SpinState::Running),
    {
        self.state == SpinState::Running
    }
}

/// Losing a remote writer clears it from every reader: a reader whose only
/// match it was, alone or shared with a second reader, counts zero after
/// the loss.
pub proof fn lemma_loss_is_symmetric(
    readers: Map<EndpointId, Set<EndpointId>>,
    r1: EndpointId,
    r2: EndpointId,
    w: EndpointId,
)
    requires
        readers.contains_key(r1) ==> readers[r1].subset_of(set![w]),
        readers.contains_key(r2) ==> readers[r2].subset_of(set![w]),
    ensures
        count_of(
            readers_after(
                readers_after(readers, MatchEvent::RemoteWriterMatched { local_reader: r1, remote_writer: w }),
                MatchEvent::WriterLost { remote_writer: w },
            ),
            r1,
        ) == Some(0nat),
        ({
            let both = readers_after(
                readers_after(readers, MatchEvent::RemoteWriterMatched { local_reader: r1, remote_writer: w }),
                MatchEvent::RemoteWriterMatched { local_reader: r2, remote_writer: w },
            );
            let lost = readers_after(both, MatchEvent::WriterLost { remote_writer: w });
            count_of(lost, r1) == Some(0nat) && count_of(lost, r2) == Some(0nat)
        }),
{
    let one = with_match(readers, r1, w);
    assert(one[r1].remove(w) =~= Set::<EndpointId>::empty());
    let both = with_match(one, r2, w);
    assert(both[r1].remove(w) =~= Set::<EndpointId>::empty());
    assert(both[r2].remove(w) =~= Set::<EndpointId>::empty());
}

/// A wait that lists its feed before it reads the match table misses no
/// match for `reader`. A match applied before the read makes the read
/// find it. A match broadcast after the read is offered, as it is, to
/// every listed consumer, the waiter's feed among them (listed last); the
/// waiter accepts that event, and its feed stays listed unless it was
/// found closed.
pub proof fn lemma_match_not_lost(
    readers: Map<EndpointId, Set<EndpointId>>,
    consumers: Seq<async_channel::Sender<NodeEvent>>,
    offers: Seq<Offer>,
    reader: EndpointId,
    writer: EndpointId,
)
    requires
        consumers.len() > 0,
        offered_to_all(
            offers,
            consumers,
            NodeEvent::DDS(MatchEvent::RemoteWriterMatched { local_reader: reader, remote_writer: writer }),
        ),
    ensures
        has_match(
            readers_after(readers, MatchEvent::RemoteWriterMatched { local_reader: reader, remote_writer: writer }),
            reader,
        ),
        offers.last().sender_view() == consumers.last(),
        announces_writer_for(reader, offers.last().event_view()),
        offers.last().outcome_view() != Delivery::Closed ==> keep_open(
            consumers,
            outcomes_of(offers),
        ).last() == consumers.last(),
{
    let after = with_match(readers, reader, writer);
    assert(after[reader].contains(writer));
    let last = offers.len() - 1;
    assert(offers[last].sender_view() == consumers[last]);
    if offers.last().outcome_view() != Delivery::Closed {
        crate::hub::lemma_open_consumer_stays(consumers, outcomes_of(offers));
    }
}

} // verus!
