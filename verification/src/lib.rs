//! A read-only registry of the resources that a chain carries in its genesis
//! block, the bootstrap peers of each network, and the byte costs of the
//! parts of a block, found by measuring.

pub mod blockchain;
pub mod bootnodes;
pub mod builder;
pub mod codec;
pub mod error;
pub mod nesting;
pub mod serialized;
pub mod system_deps;
pub mod text;

pub use crate::bootnodes::BootNodes;
pub use crate::serialized::{BaseSerializedSize, BaseStruct};
pub use crate::system_deps::{DepGroup, SpecHashes, SystemCell, SystemDeps};
