use tls_reactor::token::CHANNEL_BACKEND;
use tls_reactor::token::CHANNEL_CNT;
use tls_reactor::token::CHANNEL_PROXY;
use tls_reactor::token::IndexAllocator;
use tls_reactor::token::MAX_INDEX;
use tls_reactor::token::MIN_INDEX;
use tls_reactor::token::encode_token;
use tls_reactor::token::token2index;

#[test]
fn token_encode_concrete() {
    assert_eq!(encode_token(2, CHANNEL_PROXY), 2 * CHANNEL_CNT + CHANNEL_PROXY);
    assert_eq!(encode_token(2, CHANNEL_BACKEND), 2 * CHANNEL_CNT + CHANNEL_BACKEND);
    assert_eq!(encode_token(MIN_INDEX, CHANNEL_PROXY), 4);
}

#[test]
fn token_round_trip_small() {
    for index in MIN_INDEX..100 {
        for slot in 0..CHANNEL_CNT {
            assert_eq!(token2index(encode_token(index, slot)), index);
        }
    }
}

#[test]
fn token_round_trip_extremes() {
    assert_eq!(token2index(encode_token(MIN_INDEX, 0)), MIN_INDEX);
    assert_eq!(token2index(encode_token(MIN_INDEX, CHANNEL_CNT - 1)), MIN_INDEX);
    assert_eq!(token2index(encode_token(MAX_INDEX, 0)), MAX_INDEX);
    assert_eq!(token2index(encode_token(MAX_INDEX, CHANNEL_CNT - 1)), MAX_INDEX);
}

#[test]
fn allocator_starts_at_minimum() {
    let mut alloc = IndexAllocator::new();
    assert_eq!(alloc.next_index(), MIN_INDEX);
    assert_eq!(alloc.next_index(), MIN_INDEX + 1);
}

#[test]
fn allocator_wraps_back_to_minimum() {
    let mut alloc = IndexAllocator::new();
    // Hand out every index of the range once.
    for expected in MIN_INDEX..=MAX_INDEX {
        assert_eq!(alloc.next_index(), expected);
    }
    // The next allocation wraps back to the minimum bound.
    assert_eq!(alloc.next_index(), MIN_INDEX);
    assert_eq!(alloc.next_index(), MIN_INDEX + 1);
}
