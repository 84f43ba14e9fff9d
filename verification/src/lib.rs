//! Small, self-contained models of a network-connection configuration
//! object, each written in a different idiom: a consuming builder, a
//! clone-on-write builder, a closed tagged union of connection kinds, a
//! trait-based polymorphic design, and a hybrid that pairs the closed
//! kind tag with pluggable behavior.
//!
//! No networking is performed: establishing a connection is simulated by
//! returning the log line that a real transport would emit, so that every
//! operation is a pure function with an exact contract.

pub mod connection_builder_a;
pub mod connection_builder_b;
pub mod connection_enum;
pub mod connection_hybrid;
pub mod connection_traits;
pub mod text;
