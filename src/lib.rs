//! Node-level discovery bookkeeping for a publish/subscribe middleware:
//! which endpoints a node owns, which remote endpoints matched them, what
//! remote participants announced, and the fan-out of discovery events to
//! any number of consumers.

pub mod event;
pub mod tracker;
pub mod registry;
pub mod graph;
pub mod channel;
pub mod hub;
pub mod options;
pub mod node;
pub mod names;
