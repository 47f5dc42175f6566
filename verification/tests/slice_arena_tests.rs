use xjbutil::slice_arena::{SliceArena, SliceRef};

#[test]
fn basic_test() {
    let mut arena: SliceArena<u8, 1024> = SliceArena::new();
    let slice1: SliceRef = arena.make(&[0, 1, 2, 3, 4, 5, 6, 7, 8, 9]);
    let mut arena2: SliceArena<u16, 1024> = SliceArena::new();
    let slice2: SliceRef = arena2.make_from_iter(&[1u16, 3, 1, 4, 2, 3, 3], 7);
    assert_eq!(arena.get(slice1), &[0, 1, 2, 3, 4, 5, 6, 7, 8, 9]);
    assert_eq!(arena2.get(slice2), &[1, 3, 1, 4, 2, 3, 3]);
}

#[test]
fn slice_arena_threshold_routes_to_free_blocks() {
    let mut arena: SliceArena<u8, 8> = SliceArena::new();

    let below: SliceRef = arena.make(&[1, 2, 3]);
    assert_eq!(arena.free_count(), 0);
    assert_eq!(arena.get(below), &[1, 2, 3]);

    let at: SliceRef = arena.make(&[4, 5, 6, 7]);
    assert_eq!(arena.free_count(), 1);
    assert_eq!(arena.get(at), &[4, 5, 6, 7]);

    let above: SliceRef = arena.make(&[8, 9, 10, 11, 12]);
    assert_eq!(arena.free_count(), 2);
    assert_eq!(arena.get(above), &[8, 9, 10, 11, 12]);

    assert_eq!(arena.get(below), &[1, 2, 3]);
    assert_eq!(arena.get(at), &[4, 5, 6, 7]);
}

#[test]
fn slice_arena_reuses_recent_block() {
    let mut arena: SliceArena<u8, 8> = SliceArena::new();
    assert_eq!(arena.debris_count(), 1);

    let a: SliceRef = arena.make(&[1, 2, 3]);
    let b: SliceRef = arena.make(&[4, 5, 6]);
    assert_eq!(arena.debris_count(), 1);

    let c: SliceRef = arena.make(&[7, 8, 9]);
    assert_eq!(arena.debris_count(), 2);

    let d: SliceRef = arena.make(&[10]);
    assert_eq!(arena.debris_count(), 2);

    assert_eq!(arena.get(a), &[1, 2, 3]);
    assert_eq!(arena.get(b), &[4, 5, 6]);
    assert_eq!(arena.get(c), &[7, 8, 9]);
    assert_eq!(arena.get(d), &[10]);
}

#[test]
fn slice_arena_contents_always_match_source() {
    let mut arena: SliceArena<u64, 16> = SliceArena::new();
    let mut refs: Vec<SliceRef> = Vec::new();
    let mut sources: Vec<Vec<u64>> = Vec::new();

    for n in 0..12 {
        let src: Vec<u64> = (0..n).map(|i| (i as u64) * 10 + n as u64).collect();
        refs.push(arena.make(src.as_slice()));
        sources.push(src);
    }

    for i in 0..12 {
        assert_eq!(arena.get(refs[i]), sources[i].as_slice());
    }
}
