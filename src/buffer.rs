//! Buffer sizing policy tuned for saturating a 10-gigabit link.

use parking_lot::lock_api;
use parking_lot::Mutex;
use vstd::prelude::*;

verus! {

/// Smallest buffer a sizer hands out for a single transfer.
pub const MIN_BUFFER_SIZE: usize = 1024 * 1024;

/// Largest buffer a sizer hands out for a single transfer.
pub const MAX_BUFFER_SIZE: usize = 16 * 1024 * 1024;

/// Buffer for a medium-sized local transfer.
pub const LOCAL_BASE_SIZE: usize = 4 * 1024 * 1024;

/// Buffer for a medium-sized network transfer.
pub const NETWORK_BASE_SIZE: usize = 8 * 1024 * 1024;

/// Files below this many bytes get the smallest buffer.
pub const SMALL_FILE_LIMIT: u64 = 10 * 1024 * 1024;

/// Files of at least this many bytes get the largest buffer.
pub const LARGE_FILE_LIMIT: u64 = 100 * 1024 * 1024;

/// Representative transfer size used to size buffers of parallel transfers.
pub const PARALLEL_REFERENCE_FILE_SIZE: u64 = 100 * 1024 * 1024;

/// Floor on the buffer of each of several parallel transfers.
pub const MIN_PARALLEL_BUFFER_SIZE: usize = 256 * 1024;

/// Conservative estimate of the memory available to transfers.
pub const FALLBACK_AVAILABLE_MEMORY: u64 = 4 * 1024 * 1024 * 1024;

/// Only this fraction (one in `MEMORY_SHARE_DIVISOR`) of the available memory
/// may go to one buffer.
pub const MEMORY_SHARE_DIVISOR: u64 = 10;

#[verifier::external_type_specification]
#[verifier::external_body]
#[verifier::reject_recursive_types(R)]
#[verifier::reject_recursive_types(T)]
pub struct ExLockApiMutex<R, T: ?Sized>(lock_api::Mutex<R, T>);

#[verifier::external_type_specification]
#[verifier::external_body]
pub struct ExRawMutex(parking_lot::RawMutex);

/// The available-memory estimate, as a value that can only hold the figure
/// the estimator produces; what the cache stores is therefore always that figure.
#[derive(Clone, Copy)]
struct MemoryEstimate {
    bytes: u64,
}

impl MemoryEstimate {
    #[verifier::type_invariant]
    spec fn is_estimate(self) -> bool {
        self.bytes == FALLBACK_AVAILABLE_MEMORY
    }

    fn current() -> (r: MemoryEstimate) {
        MemoryEstimate { bytes: BufferSizer::get_available_memory() }
    }

    fn bytes(&self) -> (r: u64)
        ensures
            r == FALLBACK_AVAILABLE_MEMORY,
    {
        proof {
            use_type_invariant(self);
        }
        self.bytes
    }
}

/// The base buffer of a medium-sized transfer: network transfers get the larger one.
pub open spec fn base_size(is_network: bool) -> nat {
    if is_network {
        NETWORK_BASE_SIZE as nat
    } else {
        LOCAL_BASE_SIZE as nat
    }
}

/// The buffer a transfer of `file_size` bytes asks for before the memory
/// ceiling: the smallest for small files, the base size for medium files and
/// the largest for large files.
pub open spec fn tier_size(min: nat, max: nat, file_size: nat, is_network: bool) -> nat {
    if file_size < SMALL_FILE_LIMIT {
        min
    } else if file_size < LARGE_FILE_LIMIT {
        base_size(is_network)
    } else {
        max
    }
}

/// The most that one buffer may take of `available_memory` bytes.
pub open spec fn memory_ceiling(available_memory: nat) -> nat {
    available_memory / (MEMORY_SHARE_DIVISOR as nat)
}

/// `optimal` capped at `ceiling`, then raised to `floor`: the floor wins over
/// the ceiling.
pub open spec fn clamp_size(optimal: nat, ceiling: nat, floor: nat) -> nat {
    let capped = if optimal <= ceiling {
        optimal
    } else {
        ceiling
    };
    if capped >= floor {
        capped
    } else {
        floor
    }
}

/// The buffer size for one transfer, given the sizer's bounds and an estimate
/// of the available memory.
pub open spec fn sized_buffer(
    min: nat,
    max: nat,
    available_memory: nat,
    file_size: nat,
    is_network: bool,
) -> nat {
    clamp_size(tier_size(min, max, file_size, is_network), memory_ceiling(available_memory), min)
}

/// A single-transfer buffer of `single` bytes shared among `thread_count`
/// transfers (no threads counts as one), floored at the parallel minimum.
pub open spec fn parallel_share(single: nat, thread_count: nat) -> nat {
    let threads = if thread_count == 0 {
        1
    } else {
        thread_count
    };
    let share = single / threads;
    if share >= MIN_PARALLEL_BUFFER_SIZE {
        share
    } else {
        MIN_PARALLEL_BUFFER_SIZE as nat
    }
}

/// Relies on parking_lot's `Mutex::new`: a mutex around the empty cache.
#[verifier::external_body]
fn empty_cache() -> (r: Mutex<Option<MemoryEstimate>>) {
    Mutex::new(None)
}

/// Relies on parking_lot's `Mutex::lock`: copies out what the cache holds,
/// under the lock. Other threads may fill the cache at any time, so nothing
/// is stated of which value comes out; any estimate in it was built by this
/// module and keeps its invariant.
#[verifier::external_body]
fn load_cache(cache: &Mutex<Option<MemoryEstimate>>) -> (r: Option<MemoryEstimate>) {
    *cache.lock()
}

/// Relies on parking_lot's `Mutex::lock`: stores an estimate in the cache,
/// under the lock.
#[verifier::external_body]
fn store_cache(cache: &Mutex<Option<MemoryEstimate>>, estimate: MemoryEstimate) {
    *cache.lock() = Some(estimate);
}

/// Picks an I/O buffer size for transfers.
pub struct BufferSizer {
    max_buffer_size: usize,
    min_buffer_size: usize,
    cached_available_memory: Mutex<Option<MemoryEstimate>>,
}

impl BufferSizer {
    /// Largest size this sizer hands out for one transfer.
    pub closed spec fn max_size(&self) -> nat {
        self.max_buffer_size as nat
    }

    /// Smallest size this sizer hands out for one transfer.
    pub closed spec fn min_size(&self) -> nat {
        self.min_buffer_size as nat
    }

    /// The bounds of the sizer leave every tier inside them.
    #[verifier::type_invariant]
    pub open spec fn wf(&self) -> bool {
        &&& self.min_size() <= LOCAL_BASE_SIZE
        &&& NETWORK_BASE_SIZE <= self.max_size()
    }

    /// The buffer size this sizer picks for one transfer.
    pub open spec fn buffer_size(&self, file_size: nat, is_network: bool) -> nat {
        sized_buffer(
            self.min_size(),
            self.max_size(),
            FALLBACK_AVAILABLE_MEMORY as nat,
            file_size,
            is_network,
        )
    }

    /// The buffer size this sizer picks for each of `thread_count` parallel
    /// transfers.
    pub open spec fn parallel_buffer_size(&self, thread_count: nat, is_network: bool) -> nat {
        parallel_share(
            self.buffer_size(PARALLEL_REFERENCE_FILE_SIZE as nat, is_network),
            thread_count,
        )
    }

    /// A sizer with a 1 MiB floor, a 16 MiB ceiling and an empty memory cache.
    pub fn new() -> (r: Self)
        ensures
            r.min_size() == MIN_BUFFER_SIZE,
            r.max_size() == MAX_BUFFER_SIZE,
            r.wf(),
    {
        BufferSizer {
            max_buffer_size: MAX_BUFFER_SIZE,
            min_buffer_size: MIN_BUFFER_SIZE,
            cached_available_memory: empty_cache(),
        }
    }

    /// A fixed, conservative estimate of available memory, the same on every
    /// platform.
    fn get_available_memory() -> (r: u64)
        ensures
            r == FALLBACK_AVAILABLE_MEMORY,
    {
        FALLBACK_AVAILABLE_MEMORY
    }

    /// Buffer size for a transfer of `file_size` bytes, larger for network
    /// transfers of medium size, and never more than a tenth of the available
    /// memory unless that is below the minimum.
    pub fn calculate_buffer_size(&self, file_size: u64, is_network: bool) -> (r: usize)
        ensures
            r == self.buffer_size(file_size as nat, is_network),
            self.min_size() <= r <= self.max_size(),
    {
        proof {
            use_type_invariant(self);
        }
        let available_memory: u64 = match load_cache(&self.cached_available_memory) {
            Some(estimate) => estimate.bytes(),
            None => {
                let estimate = MemoryEstimate::current();
                store_cache(&self.cached_available_memory, estimate);
                estimate.bytes()
            },
        };

        let base_size: usize = if is_network {
            NETWORK_BASE_SIZE
        } else {
            LOCAL_BASE_SIZE
        };

        let optimal_size: usize = if file_size < SMALL_FILE_LIMIT {
            self.min_buffer_size
        } else if file_size < LARGE_FILE_LIMIT {
            base_size
        } else {
            self.max_buffer_size
        };

        let memory_limit: usize = (available_memory / MEMORY_SHARE_DIVISOR) as usize;
        optimal_size.min(memory_limit).max(self.min_buffer_size)
    }

    /// Buffer size for each of `thread_count` parallel transfers: the buffer of
    /// one large transfer divided among the threads, never below the parallel
    /// minimum.
    pub fn calculate_parallel_buffer_size(&self, thread_count: usize, is_network: bool) -> (r: usize)
        ensures
            r == self.parallel_buffer_size(thread_count as nat, is_network),
            MIN_PARALLEL_BUFFER_SIZE <= r <= self.max_size(),
    {
        proof {
            use_type_invariant(self);
        }
        let single_buffer = self.calculate_buffer_size(PARALLEL_REFERENCE_FILE_SIZE, is_network);
        let threads = thread_count.max(1);
        (single_buffer / threads).max(MIN_PARALLEL_BUFFER_SIZE)
    }
}

impl Default for BufferSizer {
    fn default() -> (r: Self)
        ensures
            r.min_size() == MIN_BUFFER_SIZE,
            r.max_size() == MAX_BUFFER_SIZE,
    {
        Self::new()
    }
}

} // verus!
