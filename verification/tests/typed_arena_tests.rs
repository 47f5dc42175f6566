use xjbutil::typed_arena::{ArenaPtr, IntoArenaPtr, TypedArena};

fn next_random(seed: &mut u64) -> u64 {
    *seed = seed.wrapping_mul(19260817).wrapping_add(19660813);
    *seed
}

fn random_string(seed: &mut u64, count: usize) -> String {
    let mut ret: Vec<u8> = Vec::with_capacity(count);
    for _ in 0..count {
        match next_random(seed) % 3 {
            0 => ret.push(b'a' + (next_random(seed) % 26) as u8),
            1 => ret.push(b'A' + (next_random(seed) % 26) as u8),
            2 => ret.push(b'0' + (next_random(seed) % 10) as u8),
            _ => unreachable!(),
        }
    }
    String::from_utf8(ret).unwrap()
}

#[test]
fn typed_arena_test() {
    let mut arena: TypedArena<String, 16> = TypedArena::new(0);
    let mut vec_source: Vec<String> = Vec::new();
    let mut arena_ptr: Vec<ArenaPtr<String>> = Vec::new();
    let mut seed: u64 = 0x5bd1e995;

    for _ in 0..40 {
        let s: String = random_string(&mut seed, 32);
        vec_source.push(s.clone());
        arena_ptr.push(arena.make(s));
    }

    for i in 0..40 {
        let s: &String = arena_ptr[i].get(&arena);
        assert_eq!(s, &vec_source[i]);
    }
}

#[test]
fn test2() {
    let mut arena: TypedArena<String, 16> = TypedArena::new(0);
    let ptr1: ArenaPtr<String> = arena.make(String::from("hello"));
    let ptr2: ArenaPtr<String> = arena.make(String::from("world"));

    let r1: &String = ptr1.get(&arena);
    let r2: &String = ptr2.get(&arena);

    println!("{:?}", r1);
    println!("{:?}", r2);

    let r1: &mut String = ptr1.get_mut(&mut arena);
    *r1 = String::from("hello world");

    let r1: &String = ptr1.get(&arena);
    let r2: &String = ptr2.get(&arena);
    println!("{:?}", r1);
    println!("{:?}", r2);
    assert_eq!(r1, "hello world");
    assert_eq!(r2, "world");
}

#[test]
fn typed_arena_grows_across_three_blocks() {
    let mut arena: TypedArena<String, 16> = TypedArena::new(0);
    let mut ptrs: Vec<ArenaPtr<String>> = Vec::new();
    let mut sources: Vec<String> = Vec::new();

    for i in 0..40 {
        let s: String = format!("value number {}", i);
        sources.push(s.clone());
        ptrs.push(arena.make(s));
    }

    assert_eq!(arena.debris_count(), 3);
    for i in 0..40 {
        assert_eq!(ptrs[i].get(&arena), &sources[i]);
    }
}

#[test]
fn typed_arena_pointers_survive_later_makes() {
    let mut arena: TypedArena<u64, 4> = TypedArena::new(0);
    let early: ArenaPtr<u64> = arena.make(12345);
    for i in 0..100 {
        arena.make(i);
    }
    assert_eq!(*early.get(&arena), 12345);

    let r: &mut u64 = early.get_mut(&mut arena);
    *r = 54321;
    assert_eq!(*early.get(&arena), 54321);

    let other: ArenaPtr<u64> = arena.make(777);
    assert_eq!(*early.get(&arena), 54321);
    assert_eq!(*other.get(&arena), 777);
}

#[test]
fn typed_arena_unchecked_variants_agree() {
    let mut arena: TypedArena<u32, 2> = TypedArena::new(0);
    let p: ArenaPtr<u32> = arena.make(11);
    assert_eq!(*p.get(&arena), 11);
    assert_eq!(*p.get_unchecked(&arena), 11);
    assert_eq!(*p.get_tricky(&arena), 11);

    *p.get_unchecked_mut(&mut arena) = 22;
    assert_eq!(*p.get(&arena), 22);
    *p.get_tricky_mut(&mut arena) = 33;
    assert_eq!(*p.get(&arena), 33);
}

#[test]
fn arena_ptr_origin_is_checked_at_run_time() {
    let mut arena_a: TypedArena<u32, 4> = TypedArena::new(1);
    let mut arena_b: TypedArena<u32, 4> = TypedArena::new(2);
    let pa: ArenaPtr<u32> = arena_a.make(10);
    let pb: ArenaPtr<u32> = arena_b.make(20);

    assert_eq!(*pa.try_get(&arena_a).unwrap(), 10);
    assert_eq!(*pb.try_get(&arena_b).unwrap(), 20);

    assert!(pa.try_get(&arena_b).is_none());
    assert!(pb.try_get(&arena_a).is_none());
    assert!(pa.try_get_mut(&mut arena_b).is_none());

    *pa.try_get_mut(&mut arena_a).unwrap() = 30;
    assert_eq!(*pa.try_get(&arena_a).unwrap(), 30);
    assert_eq!(*pb.try_get(&arena_b).unwrap(), 20);

    assert_eq!(arena_a.origin_token(), 1);
    assert_eq!(arena_b.origin_token(), 2);
}
