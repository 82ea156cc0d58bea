//! Native-shell core of a desktop phylogenetic-tree viewer.
//!
//! The library models the menu/command state-synchronization subsystem:
//! a registry of menu commands, a context snapshot of application facts,
//! the availability policy that maps a context to the set of enabled
//! commands, the menu tree the native shell materializes, the event
//! forwarder that relays activated command ids to the presentation
//! layer, and the decision logic behind the native file picker.

pub mod bridge;
pub mod context;
pub mod forwarder;
pub mod menu;
pub mod policy;
pub mod registry;
mod seqs;
