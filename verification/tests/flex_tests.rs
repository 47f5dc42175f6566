use xjbutil::flex::{FLARef, FLARefMut, FlexArray};

#[test]
fn test_zero_length() {
    let flex_array: FlexArray<String, u64> = FlexArray::new("为有牺牲多壮志".into(), &[]);
    let arr_ref: FLARef<String, u64> = flex_array.as_ref();
    assert_eq!(arr_ref.fixed, "为有牺牲多壮志");
    assert_eq!(arr_ref.flex, &[]);
}

#[test]
fn flex_test() {
    let flex_array: FlexArray<String, u64> = FlexArray::new("foo".into(), &[1, 2, 3, 4, 5]);
    let arr_ref: FLARef<String, u64> = flex_array.as_ref();
    assert_eq!(arr_ref.fixed, "foo");
    assert_eq!(arr_ref.flex, &[1, 2, 3, 4, 5]);
}

#[test]
fn test_mutate() {
    let mut flex_array: FlexArray<String, i32> = FlexArray::new(
        "ウルトラマンエース, 宇宙のエース!".into(),
        &[1, 1, 4, 5, 1, 4],
    );
    let arr_mut_ref: FLARefMut<String, i32> = flex_array.as_mut();
    assert_eq!(arr_mut_ref.fixed, "ウルトラマンエース, 宇宙のエース!");
    assert_eq!(arr_mut_ref.flex, &[1, 1, 4, 5, 1, 4]);

    *arr_mut_ref.fixed = "ultraman Ace, u ch u no Ace!".into();
    arr_mut_ref.flex[2] = 114514;

    let arr_ref: FLARef<String, i32> = flex_array.as_ref();
    assert_eq!(arr_ref.fixed, "ultraman Ace, u ch u no Ace!");
    assert_eq!(arr_ref.flex, &[1, 1, 114514, 5, 1, 4]);
}

#[test]
fn flex_accessors_return_what_was_given() {
    let flex_array: FlexArray<u32, u8> = FlexArray::new(7, &[10, 20, 30]);
    assert_eq!(*flex_array.fixed(), 7);
    assert_eq!(flex_array.flex(), &[10, 20, 30]);

    let empty: FlexArray<u32, u8> = FlexArray::new_empty(9);
    assert_eq!(*empty.fixed(), 9);
    assert_eq!(empty.flex(), &[]);
}

#[test]
fn flex_new_with_iter_matches_new() {
    let from_slice: FlexArray<String, u64> = FlexArray::new("hdr".into(), &[1, 2, 3, 4, 5]);
    let from_iter: FlexArray<String, u64> =
        FlexArray::new_with_iter("hdr".into(), vec![1, 2, 3, 4, 5]);
    assert_eq!(from_slice.fixed(), from_iter.fixed());
    assert_eq!(from_slice.flex(), from_iter.flex());

    let empty_slice: FlexArray<String, u64> = FlexArray::new("e".into(), &[]);
    let empty_iter: FlexArray<String, u64> = FlexArray::new_with_iter("e".into(), vec![]);
    assert_eq!(empty_slice.fixed(), empty_iter.fixed());
    assert_eq!(empty_slice.flex(), empty_iter.flex());
}

#[test]
fn flex_mut_and_fixed_mut_are_visible() {
    let mut flex_array: FlexArray<String, u64> = FlexArray::new("foo".into(), &[1, 2, 3, 4, 5]);
    assert_eq!(flex_array.fixed(), "foo");
    assert_eq!(flex_array.flex(), &[1, 2, 3, 4, 5]);

    flex_array.flex_mut()[2] = 114514;
    *flex_array.fixed_mut() = "bar".into();

    assert_eq!(flex_array.fixed(), "bar");
    assert_eq!(flex_array.flex(), &[1, 2, 114514, 4, 5]);
}
