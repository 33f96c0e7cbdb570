//! Verified core logic of a PipeWire mixer: channel pairing, configuration
//! rules, match conditions and object-list navigation.
pub mod area;
pub mod channel_pairing;
pub mod config;
pub mod hidden_state;
pub mod layout;
pub mod meter;
pub mod node_widget;
pub mod object_list;
