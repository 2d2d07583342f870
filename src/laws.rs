//! Laws that relate several calls of a sizer.

use crate::buffer::{
    sized_buffer, BufferSizer, FALLBACK_AVAILABLE_MEMORY, PARALLEL_REFERENCE_FILE_SIZE,
};
use vstd::arithmetic::div_mod::lemma_div_is_ordered_by_denominator;
use vstd::prelude::*;

verus! {

/// For every file size, a network transfer gets a buffer at least as large as
/// a local transfer of the same size.
pub proof fn lemma_network_not_smaller(s: &BufferSizer, file_size: nat)
    ensures
        s.buffer_size(file_size, true) >= s.buffer_size(file_size, false),
{
}

/// Zero threads are sized as one thread.
pub proof fn lemma_zero_threads_as_one(s: &BufferSizer, is_network: bool)
    ensures
        s.parallel_buffer_size(0, is_network) == s.parallel_buffer_size(1, is_network),
{
}

/// More threads never give a larger buffer per thread.
pub proof fn lemma_parallel_non_increasing(
    s: &BufferSizer,
    fewer: nat,
    more: nat,
    is_network: bool,
)
    requires
        fewer <= more,
    ensures
        s.parallel_buffer_size(more, is_network) <= s.parallel_buffer_size(fewer, is_network),
{
    let single = s.buffer_size(PARALLEL_REFERENCE_FILE_SIZE as nat, is_network);
    let low: int = if fewer == 0 {
        1
    } else {
        fewer as int
    };
    let high: int = if more == 0 {
        1
    } else {
        more as int
    };
    lemma_div_is_ordered_by_denominator(single as int, low, high);
}

/// Two calls on one sizer, for any file sizes and transfer kinds, size against
/// one and the same memory estimate.
pub proof fn lemma_one_memory_estimate(
    s: &BufferSizer,
    first_size: nat,
    first_network: bool,
    second_size: nat,
    second_network: bool,
)
    ensures
        exists|available_memory: nat|
            {
                &&& s.buffer_size(first_size, first_network) == #[trigger] sized_buffer(
                    s.min_size(),
                    s.max_size(),
                    available_memory,
                    first_size,
                    first_network,
                )
                &&& s.buffer_size(second_size, second_network) == sized_buffer(
                    s.min_size(),
                    s.max_size(),
                    available_memory,
                    second_size,
                    second_network,
                )
            },
{
    let available_memory: nat = FALLBACK_AVAILABLE_MEMORY as nat;
    assert(s.buffer_size(first_size, first_network) == sized_buffer(
        s.min_size(),
        s.max_size(),
        available_memory,
        first_size,
        first_network,
    ));
}

/// Calls with the same inputs on the same sizer give the same results.
pub proof fn lemma_repeated_calls_agree(
    s: &BufferSizer,
    file_size: u64,
    thread_count: usize,
    is_network: bool,
    first: usize,
    second: usize,
    first_parallel: usize,
    second_parallel: usize,
)
    requires
        first == s.buffer_size(file_size as nat, is_network),
        second == s.buffer_size(file_size as nat, is_network),
        first_parallel == s.parallel_buffer_size(thread_count as nat, is_network),
        second_parallel == s.parallel_buffer_size(thread_count as nat, is_network),
    ensures
        first == second,
        first_parallel == second_parallel,
{
}

} // verus!
