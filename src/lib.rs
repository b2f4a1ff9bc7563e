//! Molecular-structure processing around a native chemistry engine: typed
//! results of conversions, the layout of the descriptor vector, and the
//! policy of the substructure matcher.
pub mod conversion;
pub mod descriptors;
pub mod substruct_match;

pub use conversion::{from_engine, ROMolError};
pub use descriptors::{label_values, Descriptor, DescriptorError, DescriptorVector, DESCRIPTOR_COUNT};
pub use substruct_match::{SubstructMatchParameters, DEFAULT_MAX_MATCHES};
