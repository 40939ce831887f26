//! The decision core of a headers relay: what to ask of a source node and of a
//! target node, and what to tell the queue of headers that travels between them.

pub mod clients;
pub mod failure;
pub mod handling;
pub mod laws;
pub mod number;
pub mod progress;
pub mod queue;
pub mod selection;
pub mod stall;
pub mod state;
pub mod sync_loop;
pub mod timing;
pub mod types;
