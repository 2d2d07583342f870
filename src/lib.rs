//! Buffer sizing for bulk data transfers: picks a per-call buffer size from the
//! amount of data, the kind of transfer and the degree of parallelism, bounded
//! by fixed limits and by a share of the estimated available memory.

pub mod buffer;
pub mod laws;

pub use buffer::BufferSizer;
