use vstd::prelude::*;

verus! {

/// Number of logical sub-channels multiplexed per connection: every
/// connection owns `CHANNEL_CNT` consecutive poller tokens.
pub const CHANNEL_CNT: usize = 2;

/// Sub-channel slot of the front (client-facing) registration.
pub const CHANNEL_PROXY: usize = 0;

/// Sub-channel slot of the backend-transport registration.
pub const CHANNEL_BACKEND: usize = 1;

/// Smallest index handed out for connections; values below it are
/// reserved for control and administrative registrations.
pub const MIN_INDEX: usize = 2;

/// Largest index handed out before the allocator wraps back to
/// `MIN_INDEX`, keeping tokens bounded in a long-running process.
pub const MAX_INDEX: usize = 1048576;

pub open spec fn spec_encode_token(index: usize, slot: usize) -> usize {
    (index * CHANNEL_CNT + slot) as usize
}

pub open spec fn spec_token2index(token: usize) -> usize {
    (token as int / CHANNEL_CNT as int) as usize
}

/// Poller registration key of sub-channel `slot` of connection `index`.
pub fn encode_token(index: usize, slot: usize) -> (token: usize)
    requires
        index <= MAX_INDEX,
        slot < CHANNEL_CNT,
    ensures
        token == spec_encode_token(index, slot),
{
    index * CHANNEL_CNT + slot
}

/// Connection index of a poller registration key; the sub-channel slot
/// is discarded.
pub fn token2index(token: usize) -> (index: usize)
    ensures
        index == spec_token2index(token),
{
    token / CHANNEL_CNT
}

/// Decoding a token yields back the index it was encoded from, for any
/// valid index and sub-channel slot.
pub proof fn lemma_token_round_trip(index: usize, slot: usize)
    requires
        index <= MAX_INDEX,
        slot < CHANNEL_CNT,
    ensures
        spec_token2index(spec_encode_token(index, slot)) == index,
{
    assert((index * CHANNEL_CNT + slot) / (CHANNEL_CNT as int) == index) by (nonlinear_arith)
        requires
            slot < CHANNEL_CNT,
            0 < CHANNEL_CNT,
            0 <= index,
    ;
}

/// Allocator of logical connection indices: a bounded counter that starts
/// at `MIN_INDEX` and wraps back to it after handing out `MAX_INDEX`.
pub struct IndexAllocator {
    next_id: usize,
}

impl IndexAllocator {
    pub closed spec fn next_spec(self) -> usize {
        self.next_id
    }

    pub open spec fn wf(self) -> bool {
        MIN_INDEX <= self.next_spec() <= MAX_INDEX
    }

    pub fn new() -> (a: IndexAllocator)
        ensures
            a.wf(),
            a.next_spec() == MIN_INDEX,
    {
        IndexAllocator { next_id: MIN_INDEX }
    }

    /// Hand out the current index and advance, wrapping past `MAX_INDEX`
    /// back to `MIN_INDEX`.
    pub fn next_index(&mut self) -> (index: usize)
        requires
            old(self).wf(),
        ensures
            final(self).wf(),
            index == old(self).next_spec(),
            MIN_INDEX <= index <= MAX_INDEX,
            final(self).next_spec() == if old(self).next_spec() + 1 > MAX_INDEX {
                MIN_INDEX as usize
            } else {
                (old(self).next_spec() + 1) as usize
            },
    {
        let index = self.next_id;
        self.next_id = self.next_id + 1;
        if self.next_id > MAX_INDEX {
            self.next_id = MIN_INDEX;
        }
        index
    }
}

} // verus!
