use rusty_php::zend::array::{ZArray, ZendArray, ZendArrayData, ZendBucket};
use rusty_php::zend::file::ZFileHandle;
use rusty_php::zend::llist::{ZLlist, ZendLlist};
use rusty_php::zend::string::{ZStr, ZendString};
use rusty_php::zend::{
    Value, ZendRefCounted, ZendRefCountedH, ZendValue, Zval, HASH_FLAG_PACKED, IS_ARRAY,
    IS_DOUBLE, IS_LONG, IS_NULL, IS_OBJECT, IS_STRING,
};

fn gc() -> ZendRefCountedH {
    ZendRefCountedH { ref_count: 1, type_info: 0 }
}

fn long_cell(value: i64) -> Zval {
    Zval { value: ZendValue::Long(value), type_info: IS_LONG, u2: 0 }
}

fn double_cell(value: f64) -> Zval {
    Zval { value: ZendValue::Double(value.to_bits()), type_info: IS_DOUBLE, u2: 0 }
}

fn string_cell(text: &str) -> Zval {
    Zval {
        value: ZendValue::Str(ZendString { gc: gc(), h: 0, bytes: text.as_bytes().to_vec() }),
        type_info: IS_STRING,
        u2: 0,
    }
}

#[test]
fn long() {
    let cell = long_cell(1234500000 + 67890);
    assert!(matches!(Value::decode(&cell), Value::Long(1234567890)));
}

#[test]
fn double() {
    let cell = double_cell(1.234 + 5.678);
    match Value::decode(&cell) {
        Value::Double(bits) => {
            assert!((f64::from_bits(bits) - 6.912).abs() < 1e-9);
        }
        other => panic!("expected a double, decoded {:?}", other),
    }
}

#[test]
fn string() {
    let cell = string_cell("Hello, world!");
    match Value::decode(&cell) {
        Value::Str(s) => {
            assert_eq!(s.bytes(), "Hello, world!".as_bytes());
        }
        other => panic!("expected a string view, decoded {:?}", other),
    }
}

#[test]
fn long_max_int() {
    let cell = long_cell(i64::MAX);
    assert!(matches!(Value::decode(&cell), Value::Long(i64::MAX)));
}

#[test]
fn unsupported_tag_is_reported() {
    let cell = Zval { value: ZendValue::Undef, type_info: IS_NULL, u2: 0 };
    assert!(matches!(Value::decode(&cell), Value::Unsupported));
    let object = Zval { value: ZendValue::Undef, type_info: IS_OBJECT, u2: 0 };
    assert!(matches!(Value::decode(&object), Value::Unsupported));
}

#[test]
fn mismatched_payload_is_never_misread() {
    let cell = Zval { value: ZendValue::Long(7), type_info: IS_DOUBLE, u2: 0 };
    assert!(matches!(Value::decode(&cell), Value::Unsupported));
}

#[test]
fn tag_reads_low_bits_only() {
    let cell = Zval { value: ZendValue::Long(11), type_info: 0x100 | IS_LONG, u2: 0 };
    assert!(matches!(Value::decode(&cell), Value::Long(11)));
}

fn sample_cells() -> Vec<Zval> {
    vec![long_cell(123), double_cell(4.56), string_cell("Hello")]
}

fn packed_array() -> ZendArray {
    ZendArray {
        gc: ZendRefCounted { gc: gc() },
        flags: HASH_FLAG_PACKED,
        n_table_mask: 0,
        array_data: ZendArrayData::Packed(sample_cells()),
        n_num_used: 3,
        n_num_of_elements: 3,
        n_table_size: 8,
    }
}

fn bucketed_array() -> ZendArray {
    let buckets = sample_cells()
        .into_iter()
        .map(|val| ZendBucket { val, h: 0, key: None })
        .collect::<Vec<_>>();
    ZendArray {
        gc: ZendRefCounted { gc: gc() },
        flags: 0,
        n_table_mask: 0,
        array_data: ZendArrayData::Bucketed(buckets),
        n_num_used: 3,
        n_num_of_elements: 3,
        n_table_size: 8,
    }
}

fn check_sample_iteration(raw: &ZendArray) {
    let view = ZArray::over(raw);
    assert_eq!(view.len(), 3);
    let mut iter = view.iter();

    let first = iter.next().expect("first element");
    assert!(first.key().is_none());
    assert!(matches!(first.value(), Value::Long(123)));

    let second = iter.next().expect("second element");
    assert!(second.key().is_none());
    match second.value() {
        Value::Double(bits) => assert!((f64::from_bits(bits) - 4.56).abs() < 1e-9),
        other => panic!("expected a double, decoded {:?}", other),
    }

    let third = iter.next().expect("third element");
    match third.value() {
        Value::Str(s) => assert_eq!(s.bytes(), b"Hello"),
        other => panic!("expected a string view, decoded {:?}", other),
    }

    assert!(iter.next().is_none());
    assert!(iter.next().is_none());
}

#[test]
fn packed_array_iteration() {
    let raw = packed_array();
    assert!(ZArray::over(&raw).is_packed());
    check_sample_iteration(&raw);
}

#[test]
fn bucketed_array_iteration() {
    let raw = bucketed_array();
    assert!(!ZArray::over(&raw).is_packed());
    check_sample_iteration(&raw);
}

#[test]
fn array_cell_decodes_to_array_view() {
    let raw = packed_array();
    let cell = Zval { value: ZendValue::Arr(Box::new(raw)), type_info: IS_ARRAY, u2: 0 };
    match Value::decode(&cell) {
        Value::Array(view) => assert_eq!(view.len(), 3),
        other => panic!("expected an array view, decoded {:?}", other),
    }
}

#[test]
fn bucket_keys_are_exposed() {
    let buckets = vec![
        ZendBucket {
            val: long_cell(1),
            h: 0,
            key: Some(ZendString { gc: gc(), h: 0, bytes: b"alpha".to_vec() }),
        },
        ZendBucket { val: long_cell(2), h: 0, key: None },
    ];
    let raw = ZendArray {
        gc: ZendRefCounted { gc: gc() },
        flags: 0,
        n_table_mask: 0,
        array_data: ZendArrayData::Bucketed(buckets),
        n_num_used: 2,
        n_num_of_elements: 2,
        n_table_size: 8,
    };
    let view = ZArray::over(&raw);
    let mut iter = view.iter();
    let first = iter.next().unwrap();
    assert_eq!(first.key().unwrap().bytes(), b"alpha");
    let second = iter.next().unwrap();
    assert!(second.key().is_none());
}

#[test]
fn zstr_equality_is_by_bytes() {
    let left = b"same bytes".to_vec();
    let right = b"same bytes".to_vec();
    let a = ZStr::new(&left);
    let b = ZStr::new(&right);
    assert!(a.eq_bytes(&b));
    assert_eq!(a.len(), 10);
    let other = b"other bytes".to_vec();
    assert!(!a.eq_bytes(&ZStr::new(&other)));
}

#[test]
fn zstr_to_string_keeps_bytes() {
    let bytes = "Hello, world!".as_bytes().to_vec();
    let s = ZStr::new(&bytes);
    assert_eq!(s.to_string(), "Hello, world!");
}

#[test]
fn zend_string_view() {
    let zs = ZendString { gc: gc(), h: 0, bytes: b"abc".to_vec() };
    assert_eq!(zs.len(), 3);
    assert_eq!(zs.as_zstr().bytes(), b"abc");
}

#[test]
fn empty_array_iteration_yields_nothing() {
    let raw = ZendArray {
        gc: ZendRefCounted { gc: gc() },
        flags: HASH_FLAG_PACKED,
        n_table_mask: 0,
        array_data: ZendArrayData::Packed(vec![]),
        n_num_used: 0,
        n_num_of_elements: 0,
        n_table_size: 8,
    };
    let view = ZArray::over(&raw);
    assert_eq!(view.len(), 0);
    assert!(view.iter().next().is_none());
}

#[test]
fn file_handle_marks_the_primary_script() {
    let mut handle = ZFileHandle::for_path(b"index.php".to_vec());
    assert!(!handle.primary_script);
    handle.set_primary_script(true);
    assert!(handle.primary_script);
    assert_eq!(handle.filename, b"index.php".to_vec());
}

#[test]
fn llist_traversal_empty() {
    let raw: ZendLlist<i32> = ZendLlist { elements: vec![], persistent: 0 };
    let view = ZLlist::over(&raw);
    assert!(view.is_empty());
    assert_eq!(view.len(), 0);
    assert!(view.head().is_none());
    assert_eq!(view.traverse_count(), 0);
    let mut iter = view.iter();
    assert!(iter.next().is_none());
}

#[test]
fn llist_traversal_yields_each_element_once() {
    let raw = ZendLlist { elements: vec![10, 20, 30, 40], persistent: 0 };
    let view = ZLlist::over(&raw);
    assert!(!view.is_empty());
    assert_eq!(view.len(), 4);

    // One "get first", then "get next" until none remains.
    let mut seen = Vec::new();
    let mut cursor = view.head();
    while let Some(element) = cursor {
        seen.push(*element.data());
        cursor = element.next();
    }
    assert_eq!(seen, vec![10, 20, 30, 40]);

    assert_eq!(view.traverse_count(), 4);

    let mut iter = view.iter();
    let mut from_iter = Vec::new();
    while let Some(element) = iter.next() {
        from_iter.push(*element.data());
    }
    assert_eq!(from_iter, vec![10, 20, 30, 40]);
}
