use untyped_bytes::FixedBytes;
use untyped_bytes::UntypedBytes;

#[test]
fn new_is_empty() {
    let s = UntypedBytes::new();
    assert!(s.is_empty());
    assert_eq!(s.len(), 0);
    assert_eq!(s.as_slice(), &[] as &[u8]);
}

#[test]
fn with_capacity_is_empty() {
    let s = UntypedBytes::with_capacity(64);
    assert!(s.is_empty());
    assert_eq!(s.len(), 0);
}

#[test]
fn default_is_empty() {
    let s = UntypedBytes::default();
    assert!(s.is_empty());
}

#[test]
fn round_trip_u8() {
    for v in [0u8, 1, 0x7f, 0xff] {
        let s = UntypedBytes::from_value(v);
        assert_eq!(s.len(), 1);
        assert_eq!(s.cast::<u8>(), v);
    }
}

#[test]
fn round_trip_i8() {
    for v in [0i8, 1, -1, i8::MIN, i8::MAX] {
        let s = UntypedBytes::from_value(v);
        assert_eq!(s.len(), 1);
        assert_eq!(s.cast::<i8>(), v);
    }
}

#[test]
fn round_trip_u16() {
    for v in [0u16, 1, 0x1234, u16::MAX] {
        let s = UntypedBytes::from_value(v);
        assert_eq!(s.len(), 2);
        assert_eq!(s.cast::<u16>(), v);
    }
}

#[test]
fn round_trip_i16() {
    for v in [0i16, 1, -1, -12345, i16::MIN, i16::MAX] {
        let s = UntypedBytes::from_value(v);
        assert_eq!(s.len(), 2);
        assert_eq!(s.cast::<i16>(), v);
    }
}

#[test]
fn round_trip_u32() {
    for v in [0u32, 1, 0xdead_beef, u32::MAX] {
        let s = UntypedBytes::from_value(v);
        assert_eq!(s.len(), 4);
        assert_eq!(s.cast::<u32>(), v);
    }
}

#[test]
fn round_trip_i32() {
    for v in [0i32, 42, -42, i32::MIN, i32::MAX] {
        let s = UntypedBytes::from_value(v);
        assert_eq!(s.len(), 4);
        assert_eq!(s.cast::<i32>(), v);
    }
}

#[test]
fn round_trip_u64() {
    for v in [0u64, 1, 0x0123_4567_89ab_cdef, u64::MAX] {
        let s = UntypedBytes::from_value(v);
        assert_eq!(s.len(), 8);
        assert_eq!(s.cast::<u64>(), v);
    }
}

#[test]
fn round_trip_i64() {
    for v in [0i64, 7, -7, i64::MIN, i64::MAX] {
        let s = UntypedBytes::from_value(v);
        assert_eq!(s.len(), 8);
        assert_eq!(s.cast::<i64>(), v);
    }
}

#[test]
fn byte_image_is_native_layout() {
    // On a little-endian host, the byte image equals the native memory image.
    let s = UntypedBytes::from_value(0x0102_0304u32);
    assert_eq!(s.as_slice(), &0x0102_0304u32.to_ne_bytes());
    assert_eq!(s.as_slice(), &[4u8, 3, 2, 1]);
}

#[test]
fn length_law_from_slice() {
    let empty: [u32; 0] = [];
    assert_eq!(UntypedBytes::from_slice(&empty).len(), 0);
    assert_eq!(UntypedBytes::from_slice(&[9u8; 5]).len(), 5);
    assert_eq!(UntypedBytes::from_slice(&[9u16; 5]).len(), 10);
    assert_eq!(UntypedBytes::from_slice(&[9u32; 5]).len(), 20);
    assert_eq!(UntypedBytes::from_slice(&[9u64; 5]).len(), 40);
    assert_eq!(UntypedBytes::from_slice(&[-9i64; 3]).len(), 24);
}

#[test]
fn push_matches_bulk_append() {
    let values = [3u16, 1, 4, 1, 5, 9, 2, 6];
    let mut one_at_a_time = UntypedBytes::new();
    for v in values {
        one_at_a_time.push(v);
    }
    let mut bulk = UntypedBytes::new();
    bulk.extend_from_slice(&values);
    assert_eq!(one_at_a_time.as_slice(), bulk.as_slice());
    assert_eq!(one_at_a_time.len(), values.len() * 2);
}

#[test]
fn extend_matches_extend_from_slice() {
    let values = vec![10i32, -20, 30, -40];
    let mut consumed = UntypedBytes::new();
    consumed.extend(values.clone());
    let mut borrowed = UntypedBytes::new();
    borrowed.extend_from_slice(&values);
    assert_eq!(consumed.as_slice(), borrowed.as_slice());
}

#[test]
fn clear_empties_regardless_of_content() {
    let mut s = UntypedBytes::from_slice(&[1u64, 2, 3]);
    assert!(!s.is_empty());
    s.clear();
    assert!(s.is_empty());
    assert_eq!(s.len(), 0);

    let mut fresh = UntypedBytes::new();
    fresh.clear();
    assert!(fresh.is_empty());
    assert_eq!(fresh.len(), 0);
}

#[test]
fn growth_keeps_every_byte() {
    // Start with no reserved space so the buffer must grow many times; the
    // view stays the concatenation of everything appended.
    let mut s = UntypedBytes::with_capacity(0);
    let count: usize = 1000;
    for i in 0..count {
        s.push(i as u32);
    }
    assert_eq!(s.len(), count * 4);
    let bytes = s.as_slice();
    for i in 0..count {
        let chunk: [u8; 4] = bytes[i * 4..i * 4 + 4].try_into().unwrap();
        assert_eq!(u32::from_ne_bytes(chunk), i as u32);
    }
}

#[test]
fn two_pushed_i32_read_back() {
    let mut s = UntypedBytes::with_capacity(0);
    s.push(42_i32);
    s.push(7_i32);
    assert_eq!(s.len(), 8);
    let bytes = s.as_slice();
    let first = <i32 as FixedBytes>::from_bytes(&bytes[0..4]);
    let second = <i32 as FixedBytes>::from_bytes(&bytes[4..8]);
    assert_eq!(first, 42);
    assert_eq!(second, 7);
}

#[test]
fn four_bytes_bulk_copied() {
    let s = UntypedBytes::from_slice(&[1_u8, 2, 3, 4]);
    assert_eq!(s.len(), 4);
    let mut destination = [0u8; 4];
    destination.copy_from_slice(s.as_slice());
    assert_eq!(destination, [1, 2, 3, 4]);
}

#[test]
fn owned_sequence_of_three_doubles() {
    // Three 8-byte values enter by ownership transfer: `from_vec` consumes
    // the typed buffer, so using it afterwards is a compile-time error.
    let values: Vec<u64> = vec![1.0f64.to_bits(), (-2.5f64).to_bits(), 3.25f64.to_bits()];
    let s = UntypedBytes::from_vec(values);
    assert_eq!(s.len(), 24);
    let bytes = s.as_slice();
    let first = f64::from_bits(<u64 as FixedBytes>::from_bytes(&bytes[0..8]));
    let second = f64::from_bits(<u64 as FixedBytes>::from_bytes(&bytes[8..16]));
    let third = f64::from_bits(<u64 as FixedBytes>::from_bytes(&bytes[16..24]));
    assert_eq!(first, 1.0);
    assert_eq!(second, -2.5);
    assert_eq!(third, 3.25);
}

#[test]
fn from_vec_matches_from_slice() {
    let values = [11u16, 22, 33];
    let owned = UntypedBytes::from_vec(values.to_vec());
    let copied = UntypedBytes::from_slice(&values);
    assert_eq!(owned.as_slice(), copied.as_slice());
    assert_eq!(owned.len(), 6);
}

#[test]
fn clone_keeps_bytes() {
    let s = UntypedBytes::from_slice(&[5u32, 6, 7]);
    let t = s.clone();
    assert_eq!(t.as_slice(), s.as_slice());
    assert_eq!(t.len(), 12);
}

#[test]
fn mixed_types_concatenate_in_order() {
    // The store keeps no type metadata: values of different types land back
    // to back, and the caller tracks which range came from which type.
    let mut s = UntypedBytes::new();
    s.push(0xabu8);
    s.push(0x1234u16);
    s.push(-1i32);
    assert_eq!(s.len(), 7);
    let bytes = s.as_slice();
    assert_eq!(bytes[0], 0xab);
    assert_eq!(<u16 as FixedBytes>::from_bytes(&bytes[1..3]), 0x1234);
    assert_eq!(<i32 as FixedBytes>::from_bytes(&bytes[3..7]), -1);
}
