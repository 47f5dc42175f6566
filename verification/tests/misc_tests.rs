use xjbutil::mem::move_to_heap;
use xjbutil::unchecked::{UncheckedSend, UncheckedSendSync};

#[test]
fn move_to_heap_keeps_the_value() {
    let boxed: Box<u64> = move_to_heap(114514);
    assert_eq!(*boxed, 114514);

    let boxed_str: Box<String> = move_to_heap("on the heap".to_string());
    assert_eq!(boxed_str.as_str(), "on the heap");
}

#[test]
fn unchecked_send_accessors() {
    let mut wrapped: UncheckedSend<String> = UncheckedSend::new("payload".to_string());
    assert_eq!(wrapped.as_ref(), "payload");
    wrapped.as_mut().push_str(" extended");
    assert_eq!(wrapped.as_ref(), "payload extended");
    assert_eq!(wrapped.into_inner(), "payload extended");
}

#[test]
fn unchecked_send_sync_accessors() {
    let mut wrapped: UncheckedSendSync<Vec<i32>> = UncheckedSendSync::new(vec![1, 2]);
    assert_eq!(wrapped.as_ref(), &[1, 2]);
    wrapped.as_mut().push(3);
    assert_eq!(wrapped.as_ref(), &[1, 2, 3]);
    assert_eq!(wrapped.into_inner(), vec![1, 2, 3]);
}
