use atlas::buffer::Slice;

#[test]
fn round_trip_returns_the_same_bytes() {
    let bytes = vec![0x10u8, 0x00, 0x40, 0x20];
    let handle = Slice::from_vec(bytes.clone());
    assert_eq!(handle.len, 4);
    let back = handle.into_boxed_slice().expect("a fresh handle is valid");
    assert_eq!(back.into_vec(), bytes);
}

#[test]
fn round_trip_of_empty_buffer() {
    let handle: Slice<u8> = Slice::from_vec(Vec::new());
    let back = handle.into_boxed_slice().expect("an empty handle is valid");
    assert!(back.is_empty());
}

#[test]
fn round_trip_through_boxed_slice() {
    let handle = Slice::from_boxed_slice(vec![1u8, 2, 3].into_boxed_slice());
    assert_eq!(handle.into_boxed_slice().unwrap().into_vec(), vec![1u8, 2, 3]);
}

#[test]
fn null_handle_fails_the_gate() {
    let handle: Slice<u8> = Slice::null();
    assert!(!handle.is_valid_handle());
    assert!(handle.into_boxed_slice().is_none());
}

#[test]
fn null_pointer_with_length_fails_the_gate() {
    let handle: Slice<u8> = Slice { ptr: None, len: 7 };
    assert!(handle.into_boxed_slice().is_none());
}

#[test]
fn length_mismatch_fails_the_gate() {
    let mut handle = Slice { ptr: Some(vec![1u8, 2]), len: 3 };
    assert!(handle.as_mut_slice().is_none());
    assert!(handle.into_boxed_slice().is_none());
}

#[test]
fn mutable_view_writes_through() {
    let mut handle = Slice::from_vec(vec![1u8, 2, 3]);
    {
        let view = handle.as_mut_slice().expect("valid");
        view[0] = 9;
    }
    assert_eq!(handle.into_boxed_slice().unwrap().into_vec(), vec![9u8, 2, 3]);
}

#[test]
fn take_leaves_a_null_handle() {
    let mut handle = Slice::from_vec(vec![5u8]);
    let taken = handle.take();
    assert!(handle.ptr.is_none());
    assert_eq!(handle.len, 0);
    assert_eq!(taken.into_boxed_slice().unwrap().into_vec(), vec![5u8]);
}
