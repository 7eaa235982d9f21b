//! Core of an OPC UA server: typed protocol values, the address space of
//! nodes, variables and references with its read, write and browse surface,
//! the binary codec of structured types, transport negotiation, the secure
//! channel state machine, and the publishing decisions of subscriptions and
//! their monitored items.

pub mod types;
pub mod node;
pub mod variable;
pub mod messages;
pub mod secure_channel;
pub mod secure_channel_service;
pub mod codec;
pub mod trust_list;
pub mod hello;
pub mod address_space;
pub mod subscription;
pub mod platform;
pub mod browse;
pub mod monitored_item;
pub mod chunker;
pub mod session;
