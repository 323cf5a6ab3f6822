//! Command pipeline of a remote-controlled image display: the catalog of
//! selectable images, the decisions of the control protocol, and the one-shot
//! handoff and ordered channel that carry selections to the render thread.

pub mod names;
pub mod order;
pub mod catalog;
pub mod paths;
pub mod channel;
pub mod handoff;
pub mod response;
pub mod listing;
pub mod service;
