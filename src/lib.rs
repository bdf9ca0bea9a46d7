//! Replication function layer: codecs, entity-reference mapping, marker-driven
//! dispatch of write and remove appliers, and wraparound-aware tick ordering.

pub mod codec;
pub mod command_markers;
pub mod entity_map;
pub mod registry;
pub mod test_fns;
pub mod tick;
pub mod world;
