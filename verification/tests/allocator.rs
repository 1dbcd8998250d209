use naga::memory::allocator::{sum_chunk_lengths, Allocator};

#[test]
fn alloc_value_hands_back_the_value() {
    let arena = Allocator::new();
    let x = arena.alloc_value(42u64);
    assert_eq!(*x, 42);
    *x = 7;
    assert_eq!(*x, 7);
    let y = arena.alloc_value((1u8, 2u16));
    assert_eq!(*y, (1, 2));
}

#[test]
fn alloc_str_copies_the_text() {
    let arena = Allocator::new();
    let s = arena.alloc_str("hello, wgsl");
    assert_eq!(&*s, "hello, wgsl");
    let e = arena.alloc_str("");
    assert_eq!(&*e, "");
}

#[test]
fn new_arena_is_empty() {
    let mut arena = Allocator::new();
    assert_eq!(arena.capacity(), 0);
    assert_eq!(arena.used_bytes(), 0);
}

#[test]
fn default_arena_is_empty() {
    let mut arena = Allocator::default();
    assert_eq!(arena.capacity(), 0);
    assert_eq!(arena.used_bytes(), 0);
}

#[test]
fn with_capacity_reserves_room() {
    let mut arena = Allocator::with_capacity(1000);
    assert!(arena.capacity() >= 1000);
    assert_eq!(arena.used_bytes(), 0);
}

#[test]
fn used_bytes_counts_allocations() {
    let mut arena = Allocator::new();
    arena.alloc_value(1u64);
    arena.alloc_value(2u64);
    arena.alloc_value(3u64);
    assert_eq!(arena.used_bytes(), 24);
    assert!(arena.capacity() >= 24);
}

#[test]
fn used_bytes_spans_several_chunks() {
    let mut arena = Allocator::new();
    for i in 0..10_000u32 {
        arena.alloc_value(i);
    }
    assert_eq!(arena.used_bytes(), 40_000);
    assert!(arena.capacity() >= 40_000);
}

#[test]
fn reset_frees_everything() {
    let mut arena = Allocator::new();
    for i in 0..1000u64 {
        arena.alloc_value(i);
    }
    assert!(arena.used_bytes() > 0);
    arena.reset();
    assert_eq!(arena.used_bytes(), 0);
    let x = arena.alloc_value(5u32);
    assert_eq!(*x, 5);
    assert_eq!(arena.used_bytes(), 4);
}

#[test]
fn reset_of_an_empty_arena() {
    let mut arena = Allocator::new();
    arena.reset();
    assert_eq!(arena.capacity(), 0);
    assert_eq!(arena.used_bytes(), 0);
}

#[test]
fn reset_keeps_at_most_the_current_chunk() {
    let mut arena = Allocator::new();
    for i in 0..10_000u64 {
        arena.alloc_value(i);
    }
    let before = arena.capacity();
    arena.reset();
    assert!(arena.capacity() <= before);
}

#[test]
fn bump_is_the_underlying_arena() {
    let arena = Allocator::new();
    arena.alloc_value(9u16);
    assert_eq!(arena.bump().allocated_bytes(), arena.capacity());
}

#[test]
fn sum_of_chunk_lengths() {
    assert_eq!(sum_chunk_lengths(&[]), 0);
    assert_eq!(sum_chunk_lengths(&[3, 0, 7]), 10);
    assert_eq!(sum_chunk_lengths(&[usize::MAX]), usize::MAX);
}
