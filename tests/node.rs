use async_channel::TryRecvError;
use ros2_node::event::{MatchEvent, NodeDescriptor, NodeEvent, ParticipantInfo};
use ros2_node::channel::Delivery;
use ros2_node::node::{Node, SpinInput, SpinState, STATUS_QUEUE_CAPACITY};
use ros2_node::options::NodeOptions;

const PARAM_WRITER: u128 = 0x10;
const ROSOUT_WRITER: u128 = 0x11;

fn node() -> Node {
    Node::new("talker", "/demo/", NodeOptions::new(), 7, PARAM_WRITER, Some(ROSOUT_WRITER), None)
}

fn writer_matched(r: u128, w: u128) -> SpinInput {
    SpinInput::Status(MatchEvent::RemoteWriterMatched { local_reader: r, remote_writer: w })
}

fn reader_matched(w: u128, r: u128) -> SpinInput {
    SpinInput::Status(MatchEvent::RemoteReaderMatched { local_writer: w, remote_reader: r })
}

fn descriptor(name: &str, readers: Vec<u128>) -> NodeDescriptor {
    NodeDescriptor {
        name: name.to_string(),
        namespace: "/".to_string(),
        reader_ids: readers,
        writer_ids: vec![],
    }
}

#[test]
fn options_defaults_and_builders() {
    let o = NodeOptions::new();
    assert!(o.rosout_enabled());
    assert!(!o.rosout_reading_enabled());
    let o = o.enable_rosout(false).read_rosout(true);
    assert!(!o.rosout_enabled());
    assert!(o.rosout_reading_enabled());
    let d = NodeOptions::default();
    assert!(d.rosout_enabled());
    assert!(!d.rosout_reading_enabled());
}

#[test]
fn node_accessors() {
    let n = node();
    assert_eq!(n.name(), "talker");
    assert_eq!(n.namespace(), "/demo/");
    assert_eq!(n.fully_qualified_name(), "/demo/talker");
    assert_eq!(n.domain_id(), 7);
    assert!(n.options().rosout_enabled());
    assert_eq!(n.rosout_reader(), None);
    assert!(n.is_running());
    assert_eq!(n.consumer_count(), 0);
}

#[test]
fn descriptor_lists_builtin_writers_first() {
    let mut n = node();
    n.add_writer(0x40);
    n.add_writer(0x30);
    let d = n.add_reader(0x22);
    assert_eq!(d.name, "talker");
    assert_eq!(d.namespace, "/demo/");
    assert_eq!(d.reader_ids, vec![0x22]);
    assert_eq!(d.writer_ids, vec![PARAM_WRITER, ROSOUT_WRITER, 0x30, 0x40]);
}

#[test]
fn descriptor_without_rosout_writer() {
    let opts = NodeOptions::new().enable_rosout(false).read_rosout(true);
    let mut n = Node::new("quiet", "/", opts, 0, PARAM_WRITER, None, Some(0x99));
    assert_eq!(n.rosout_reader(), Some(0x99));
    let d = n.add_writer(0x05);
    assert_eq!(d.writer_ids, vec![PARAM_WRITER, 0x05]);
    assert!(d.reader_ids.is_empty());
}

#[test]
fn registration_is_idempotent() {
    let mut n = node();
    n.add_reader(0x3);
    n.add_reader(0x1);
    let first = n.add_reader(0x2);
    let second = n.add_reader(0x2);
    assert_eq!(first, second);
    assert_eq!(second.reader_ids, vec![0x1, 0x2, 0x3]);
    let w1 = n.add_writer(0x8);
    let w2 = n.add_writer(0x8);
    assert_eq!(w1, w2);
    assert_eq!(n.generate_node_info(), w2);
}

#[test]
fn match_then_loss_returns_to_zero() {
    let mut n = node();
    n.spin_once(writer_matched(1, 100));
    assert_eq!(n.get_publisher_count(1), 1);
    n.spin_once(SpinInput::Status(MatchEvent::WriterLost { remote_writer: 100 }));
    assert_eq!(n.get_publisher_count(1), 0);
    assert_eq!(n.match_count_for_reader(1), Some(0));
}

#[test]
fn loss_clears_writer_from_every_reader() {
    let mut n = node();
    n.spin_once(writer_matched(1, 100));
    n.spin_once(writer_matched(2, 100));
    n.spin_once(writer_matched(2, 101));
    assert_eq!(n.get_publisher_count(1), 1);
    assert_eq!(n.get_publisher_count(2), 2);
    n.spin_once(SpinInput::Status(MatchEvent::WriterLost { remote_writer: 100 }));
    assert_eq!(n.get_publisher_count(1), 0);
    assert_eq!(n.get_publisher_count(2), 1);
}

#[test]
fn reader_side_matches_and_loss() {
    let mut n = node();
    n.spin_once(reader_matched(5, 200));
    n.spin_once(reader_matched(5, 201));
    n.spin_once(reader_matched(6, 200));
    n.spin_once(reader_matched(5, 200));
    assert_eq!(n.get_subscription_count(5), 2);
    assert_eq!(n.get_subscription_count(6), 1);
    n.spin_once(SpinInput::Status(MatchEvent::ReaderLost { remote_reader: 200 }));
    assert_eq!(n.get_subscription_count(5), 1);
    assert_eq!(n.match_count_for_writer(6), Some(0));
    // the reader side is untouched by writer-side events
    assert_eq!(n.match_count_for_reader(5), None);
}

#[test]
fn unknown_endpoint_counts_zero() {
    let n = node();
    assert_eq!(n.get_publisher_count(42), 0);
    assert_eq!(n.get_subscription_count(42), 0);
    // the unknown case is told apart from a known zero
    assert_eq!(n.match_count_for_reader(42), None);
    assert_eq!(n.match_count_for_writer(42), None);
}

#[test]
fn three_consumers_each_get_one_copy() {
    let mut n = node();
    let a = n.status_receiver();
    let b = n.status_receiver();
    let c = n.status_receiver();
    assert_eq!(n.consumer_count(), 3);
    let report = n.spin_once(writer_matched(1, 100));
    assert_eq!(report.outcomes(), vec![Delivery::Sent, Delivery::Sent, Delivery::Sent]);
    let expected = NodeEvent::DDS(MatchEvent::RemoteWriterMatched { local_reader: 1, remote_writer: 100 });
    for r in [&a, &b, &c] {
        assert_eq!(r.try_recv(), Ok(expected.clone()));
        assert_eq!(r.try_recv(), Err(TryRecvError::Empty));
    }
}

#[test]
fn closed_consumer_is_dropped_on_next_broadcast() {
    let mut n = node();
    let a = n.status_receiver();
    let b = n.status_receiver();
    let c = n.status_receiver();
    drop(b);
    // still listed until something is broadcast
    assert_eq!(n.consumer_count(), 3);
    let report = n.spin_once(writer_matched(1, 100));
    assert_eq!(report.outcomes(), vec![Delivery::Sent, Delivery::Closed, Delivery::Sent]);
    assert_eq!(n.consumer_count(), 2);
    assert!(a.try_recv().is_ok());
    assert!(c.try_recv().is_ok());
    let report = n.spin_once(writer_matched(2, 100));
    assert_eq!(report.outcomes(), vec![Delivery::Sent, Delivery::Sent]);
    assert!(a.try_recv().is_ok());
    assert!(c.try_recv().is_ok());
}

#[test]
fn full_consumer_is_skipped_not_dropped() {
    let mut n = node();
    let a = n.status_receiver();
    for i in 0..STATUS_QUEUE_CAPACITY {
        let report = n.spin_once(writer_matched(1, i as u128));
        assert_eq!(report.outcomes(), vec![Delivery::Sent]);
    }
    let report = n.spin_once(writer_matched(1, 999));
    assert_eq!(report.outcomes(), vec![Delivery::Full]);
    assert_eq!(n.consumer_count(), 1);
    assert_eq!(n.get_publisher_count(1), STATUS_QUEUE_CAPACITY + 1);
    assert_eq!(a.len(), STATUS_QUEUE_CAPACITY);
}

#[test]
fn graph_snapshot_replaces_previous() {
    let mut n = node();
    let rx = n.status_receiver();
    let d1 = vec![descriptor("a", vec![1]), descriptor("b", vec![2])];
    let d2 = vec![descriptor("c", vec![3])];
    n.spin_once(SpinInput::Graph(Ok(ParticipantInfo { participant_id: 9, nodes: d1.clone() })));
    assert_eq!(n.external_nodes_of(9), Some(&d1));
    n.spin_once(SpinInput::Graph(Ok(ParticipantInfo { participant_id: 9, nodes: d2.clone() })));
    assert_eq!(n.external_nodes_of(9), Some(&d2));
    assert_eq!(n.external_nodes_of(8), None);
    assert_eq!(rx.try_recv(), Ok(NodeEvent::ROS(ParticipantInfo { participant_id: 9, nodes: d1 })));
    assert_eq!(rx.try_recv(), Ok(NodeEvent::ROS(ParticipantInfo { participant_id: 9, nodes: d2 })));
}

#[test]
fn graph_failure_changes_nothing() {
    let mut n = node();
    let rx = n.status_receiver();
    let report = n.spin_once(SpinInput::Graph(Err("decode".to_string())));
    assert_eq!(report.state, SpinState::Running);
    assert!(report.offers.is_empty());
    assert_eq!(n.external_nodes_of(9), None);
    assert_eq!(rx.try_recv(), Err(TryRecvError::Empty));
}

#[test]
fn other_status_is_broadcast_without_table_change() {
    let mut n = node();
    let rx = n.status_receiver();
    let other = MatchEvent::Other { detail: "TopicDetected".to_string() };
    let report = n.spin_once(SpinInput::Status(other.clone()));
    assert_eq!(report.outcomes(), vec![Delivery::Sent]);
    assert_eq!(rx.try_recv(), Ok(NodeEvent::DDS(other)));
    assert_eq!(n.match_count_for_reader(1), None);
}

#[test]
fn stop_is_terminal() {
    let mut n = node();
    let rx = n.status_receiver();
    let report = n.spin_once(SpinInput::Stop);
    assert_eq!(report.state, SpinState::Stopped);
    assert!(!n.is_running());
    let report = n.spin_once(writer_matched(1, 100));
    assert_eq!(report.state, SpinState::Stopped);
    assert!(report.offers.is_empty());
    assert_eq!(n.match_count_for_reader(1), None);
    assert_eq!(rx.try_recv(), Err(TryRecvError::Empty));
    let report = n.spin_once(SpinInput::Stop);
    assert_eq!(report.state, SpinState::Stopped);
}

#[test]
fn wait_sees_match_arriving_after_subscription() {
    let mut n = node();
    let (rx, already) = n.begin_wait_for_writer(1);
    assert!(!already);
    // a match processed right after the subscription, before any read
    n.spin_once(writer_matched(2, 100));
    n.spin_once(writer_matched(1, 101));
    let first = rx.try_recv().unwrap();
    assert!(!Node::ends_wait_for_writer(1, &first));
    let second = rx.try_recv().unwrap();
    assert!(Node::ends_wait_for_writer(1, &second));
}

#[test]
fn wait_returns_at_once_when_already_matched() {
    let mut n = node();
    n.spin_once(writer_matched(1, 100));
    let (_rx, already) = n.begin_wait_for_writer(1);
    assert!(already);
    assert_eq!(n.consumer_count(), 1);
}

#[test]
fn wait_after_loss_is_not_satisfied() {
    let mut n = node();
    n.spin_once(writer_matched(1, 100));
    n.spin_once(SpinInput::Status(MatchEvent::WriterLost { remote_writer: 100 }));
    let (_rx, already) = n.begin_wait_for_writer(1);
    assert!(!already);
}

#[test]
fn wait_for_reader_filters_by_writer() {
    let mut n = node();
    let (rx, already) = n.begin_wait_for_reader(5);
    assert!(!already);
    n.spin_once(writer_matched(5, 100));
    n.spin_once(reader_matched(6, 200));
    n.spin_once(reader_matched(5, 201));
    let e1 = rx.try_recv().unwrap();
    let e2 = rx.try_recv().unwrap();
    let e3 = rx.try_recv().unwrap();
    assert!(!Node::ends_wait_for_reader(5, &e1));
    assert!(!Node::ends_wait_for_reader(5, &e2));
    assert!(Node::ends_wait_for_reader(5, &e3));
    let (_rx2, already) = n.begin_wait_for_reader(5);
    assert!(already);
}

#[test]
fn descriptor_copy_keeps_content() {
    let d = NodeDescriptor {
        name: "n".to_string(),
        namespace: "/ns/".to_string(),
        reader_ids: vec![3, 1],
        writer_ids: vec![7],
    };
    assert_eq!(d.copy(), d);
    let v = vec![d.clone(), descriptor("m", vec![])];
    assert_eq!(ros2_node::event::copy_descriptors(&v), v);
}
