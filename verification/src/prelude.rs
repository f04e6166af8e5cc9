//! The traits of the library, to import together.

pub use crate::channel::{OwnedChannel, ReadOnlyChannel, ReadWriteChannel, WriteOnlyChannel};
pub use crate::serializer::Serializer;
