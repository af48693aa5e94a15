use openssl_provider_forge::bindings::{
    OSSL_PARAM_INTEGER, OSSL_PARAM_OCTET_STRING, OSSL_PARAM_UNMODIFIED,
    OSSL_PARAM_UNSIGNED_INTEGER, OSSL_PARAM_UTF8_PTR, OSSL_PARAM_UTF8_STRING,
};
use openssl_provider_forge::osslparams::{
    CStrBytes, IntData, OSSLParam, OSSLParamData, OSSLParamIterator, OctetStringData, UIntData, Utf8PtrData,
    TypedOSSLParamData, Utf8StringData, OSSL_PARAM, OSSL_PARAM_END,
};

fn utf8_record(key: &str, data: &str, data_type: u32) -> OSSL_PARAM {
    let mut bytes = data.as_bytes().to_vec();
    bytes.push(0);
    let dl = bytes.len();
    OSSL_PARAM {
        key: Some(key.to_string()),
        data: Some(bytes),
        data_type,
        return_size: 0,
        data_size: dl,
    }
}

#[test]
fn test_basic_usage() {
    let mut ossl_param = OSSL_PARAM {
        data: None,
        data_type: OSSL_PARAM_INTEGER,
        data_size: std::mem::size_of::<i32>(),
        return_size: OSSL_PARAM_UNMODIFIED,
        key: None,
    };
    let result = IntData::try_from(&mut ossl_param);
    // Check that the result is Ok and properly returns IntData
    assert!(result.is_ok());

    ossl_param.data_type = 0;
    let result = IntData::try_from(&mut ossl_param);
    assert!(result.is_err());

    let k = "test_key";
    let mut op_utf8str = OSSLParam::new_const_utf8string(k, Some("test_value"));
    let result = Utf8StringData::try_from(&mut op_utf8str);
    // Check that the result is Ok
    assert!(result.is_ok());

    let op = OSSLParam::try_from(&mut op_utf8str);
    assert!(op.is_ok());
    let op = op.unwrap();
    assert_eq!(op.get_data_type().unwrap(), OSSL_PARAM_UTF8_STRING);
    assert_eq!(op.get_key().unwrap(), k);
    assert_eq!(op.get::<String>(), Some("test_value".to_string()));
}

#[test]
fn test_variant_name_simple() {
    let mut param = OSSLParam::new_const_int("some_key", Some(&42i64));
    let param: OSSLParam = OSSLParam::try_from(&mut param).unwrap();

    let variant = param.variant_name();

    println!("Variant name: {variant}"); // Outputs: "Int"
    assert_eq!(variant, "Int");
}

#[test]
fn test_variant_name_list() {
    // NOTE: it's very important valid lists of parameters are ALWAYS terminated by END item
    let mut params_list = [
        OSSLParam::new_const_int("foo", Some(&1i32)), // This is an Int
        OSSLParam::new_const_uint("bar", Some(&42u64)), // This is a UInt
        OSSLParam::new_const_utf8string("baz", Some("a string")), // This is a Utf8String
        OSSL_PARAM::END(),
    ];

    let n = params_list.len();
    let mut params = OSSLParamIterator::new(&mut params_list);

    let mut counter = 0;
    while let Some(p) = params.next() {
        let key = p.get_key();
        assert!(key.is_some());

        let variant = p.variant_name();

        match counter {
            0 => {
                assert_eq!(variant, "Int");
            }
            1 => {
                assert_eq!(variant, "UInt");
            }
            2 => {
                assert_eq!(variant, "Utf8String");
            }
            _ => unreachable!(),
        }
        counter += 1;
    }

    assert_eq!(counter, 3);
    assert_eq!(counter, n - 1);
}

#[test]
fn test_params_iterator() {
    let mut a = [
        utf8_record("AnArbitraryKey", "an arbitrary string", OSSL_PARAM_UTF8_PTR),
        utf8_record("B", "more data", OSSL_PARAM_UTF8_PTR),
        OSSL_PARAM_END(),
    ];
    let types: Vec<u32> = a.iter().map(|r| r.data_type).collect();
    let mut params_iter = OSSLParamIterator::new(&mut a);

    let mut i = 0;
    while let Some(p) = params_iter.next() {
        println!("{p:?}");
        assert_eq!(p.get_data_type(), Some(types[i]));
        i += 1;
    }

    assert_eq!(i, types.len() - 1);
}

#[test]
fn test_params_intoiterator() {
    let mut a = [
        utf8_record("AnArbitraryKey", "an arbitrary string", OSSL_PARAM_UTF8_STRING),
        utf8_record("B", "more data", OSSL_PARAM_UTF8_STRING),
        OSSL_PARAM_END(),
    ];
    let n = a.len();

    let first = a.first_mut().unwrap();
    assert!(OSSLParam::try_from(first).is_ok());
    // A parameter borrows a single record, so a walk starts from the list.
    let mut params = OSSLParamIterator::new(&mut a);

    let mut i = 0;
    while let Some(p) = params.next() {
        println!("{p:?}");
        i += 1;
    }

    assert_eq!(i, n - 1);
}

#[test]
fn test_utf8_ptr_data_new_null() {
    let key = "test_key";
    let utf8_data = Utf8PtrData::new_null(key);
    assert!(
        utf8_data.param.data_type == OSSL_PARAM_UTF8_PTR,
        "Failed to create new null UTF-8 parameter"
    );
    assert!(utf8_data.param.data.is_none());
    assert_eq!(utf8_data.param.data_size, 0);
}

#[test]
fn test_int_data_new_null() {
    let key = "test_key";
    let int_data = IntData::new_null(key);
    assert!(
        int_data.param.data_type == OSSL_PARAM_INTEGER,
        "Failed to create new null integer parameter"
    );
    assert!(int_data.param.data.is_none());
    assert_eq!(int_data.param.key.as_deref(), Some(key));
}

#[test]
fn test_uint_data_new_null() {
    let key = "test_key";
    let uint_data = UIntData::new_null(key);
    assert!(
        uint_data.param.data_type == OSSL_PARAM_UNSIGNED_INTEGER,
        "Failed to create new null unsigned integer parameter"
    );
}

#[test]
fn test_int_data_try_from() {
    let mut ossl_param = OSSL_PARAM {
        data: None,
        data_type: OSSL_PARAM_INTEGER,
        return_size: 0,
        data_size: 0,
        key: None,
    };

    let result = IntData::try_from(&mut ossl_param);

    // Check that the result is Ok and properly returns IntData
    assert!(result.is_ok());
}

#[test]
fn test_utf8_ptr_try_from() {
    let mut ossl_param = OSSL_PARAM {
        data: None,
        data_type: OSSL_PARAM_UTF8_PTR,
        return_size: 0,
        data_size: 0,
        key: None,
    };

    let result = Utf8PtrData::try_from(&mut ossl_param);

    // Check that the result is Ok and properly returns Utf8PtrData
    assert!(result.is_ok());
}

#[test]
fn test_uint_try_from() {
    let mut ossl_param = OSSL_PARAM {
        data: None,
        data_type: OSSL_PARAM_UNSIGNED_INTEGER,
        return_size: 0,
        data_size: 0,
        key: None,
    };

    // Attempt to convert a UIntData param to Utf8PtrData, should fail
    let result = Utf8PtrData::try_from(&mut ossl_param);

    // Check that the result is Err due to mismatched data type
    assert!(result.is_err());
}

// ---- Further behaviour of parameters ----

#[test]
fn int_param_set_then_get_roundtrip() {
    let my_data: i64 = -127;
    let mut raw_param = OSSL_PARAM {
        key: Some("arbitrary key".to_string()),
        data_type: OSSL_PARAM_INTEGER,
        data: Some(my_data.to_le_bytes().to_vec()),
        data_size: 8,
        return_size: OSSL_PARAM_UNMODIFIED,
    };
    {
        let mut param = OSSLParam::try_from(&mut raw_param).unwrap();
        assert_eq!(param.get_key(), Some("arbitrary key"));
        assert_eq!(param.get(), Some(-127i64));
        assert!(param.set(333i64).is_ok());
        assert_eq!(param.get(), Some(333i64));
    }
    // The caller's record holds the value that was set through the parameter.
    let stored = i64::from_le_bytes(raw_param.data.as_ref().unwrap()[..8].try_into().unwrap());
    assert_eq!(stored, 333);
    assert_eq!(raw_param.return_size, 8);
}

#[test]
fn get_c_struct_is_the_callers_record() {
    let mut raw = OSSLParam::new_const_int("k", Some(&9i32));
    let expected_key = raw.key.clone();
    let param = OSSLParam::try_from(&mut raw).unwrap();
    let rec = param.get_c_struct();
    assert_eq!(rec.key, expected_key);
    assert_eq!(rec.data.as_ref().unwrap(), &vec![9, 0, 0, 0]);
}

#[test]
fn modified_after_set() {
    let mut p = OSSLParam::new_const_int("arbitrary_key", Some(&42i32));
    {
        let mut my_param = OSSLParam::try_from(&mut p).unwrap();
        assert!(!my_param.modified());
        assert!(my_param.set(48i32).is_ok());
        assert!(my_param.modified());
        assert_eq!(my_param.get::<i32>(), Some(48));
    }
    assert_eq!(p.return_size, 4);
    assert_eq!(p.data.as_ref().unwrap(), &vec![48, 0, 0, 0]);
}

#[test]
fn int_value_too_large_for_its_size_is_refused() {
    let mut p = OSSLParam::new_const_int("k", Some(&7i32));
    let mut param = OSSLParam::try_from(&mut p).unwrap();
    assert!(param.set(1i64 << 40).is_err());
    assert_eq!(param.get::<i32>(), Some(7));
    assert!(!param.modified());
    // an i64 that fits in 4 bytes is taken
    assert!(param.set(-5i64).is_ok());
    assert_eq!(param.get::<i64>(), Some(-5));
    assert_eq!(param.get_c_struct().data.as_ref().unwrap(), &vec![0xfb, 0xff, 0xff, 0xff]);
}

#[test]
fn get_refuses_values_that_do_not_fit_the_type() {
    let mut p = OSSLParam::new_const_int("k", Some(&(1i64 << 40)));
    let param = OSSLParam::try_from(&mut p).unwrap();
    assert_eq!(param.get::<i64>(), Some(1i64 << 40));
    assert_eq!(param.get::<i32>(), None);
    // the wrong signedness or kind gives nothing
    assert_eq!(param.get::<u64>(), None);
    assert_eq!(param.get::<String>(), None);
    assert_eq!(param.get::<CStrBytes>(), None);
}

#[test]
fn uint_param_roundtrip_and_encoding() {
    let mut p = OSSLParam::new_const_uint("bar", Some(&42u64));
    assert_eq!(p.data_size, 8);
    assert_eq!(p.data.as_ref().unwrap(), &vec![42, 0, 0, 0, 0, 0, 0, 0]);
    let mut param = OSSLParam::try_from(&mut p).unwrap();
    assert_eq!(param.get::<u64>(), Some(42));
    assert_eq!(param.get::<u32>(), Some(42));
    assert!(param.set(u64::MAX).is_ok());
    assert_eq!(param.get::<u64>(), Some(u64::MAX));
    assert_eq!(param.get::<u32>(), None);
    assert!(param.set(-1i64).is_err());
}

#[test]
fn wrong_type_set_is_refused_and_names_the_variant() {
    let mut p = OSSLParam::new_const_utf8string("k", Some("v"));
    let mut param = OSSLParam::try_from(&mut p).unwrap();
    let err = param.set(5i32).unwrap_err();
    assert_eq!(err, "Type i32 could not be stored in OSSLParam::Utf8String");
    assert_eq!(param.get::<String>(), Some("v".to_string()));
    let err = param.set(&[1u8][..]).unwrap_err();
    assert_eq!(err, "Type &[u8] could not be stored in OSSLParam::Utf8String");
    let mut q = OSSLParam::new_const_int("k", Some(&1i64));
    let mut param = OSSLParam::try_from(&mut q).unwrap();
    assert_eq!(param.set("abc").unwrap_err(), "Type &str could not be stored in OSSLParam::Int");
    assert_eq!(param.set(1u64).unwrap_err(), "Type u64 could not be stored in OSSLParam::Int");
}

#[test]
fn set_on_null_int_data_is_refused() {
    let mut raw = OSSL_PARAM {
        key: Some("k".to_string()),
        data_type: OSSL_PARAM_INTEGER,
        data: None,
        data_size: 4,
        return_size: OSSL_PARAM_UNMODIFIED,
    };
    let mut param = OSSLParam::try_from(&mut raw).unwrap();
    assert!(param.set(1i32).is_err());
    assert_eq!(param.get::<i32>(), None);
}

#[test]
fn octet_string_set_and_get() {
    let mut raw = OSSL_PARAM {
        key: Some("blob".to_string()),
        data_type: OSSL_PARAM_OCTET_STRING,
        data: Some(vec![0u8; 16]),
        data_size: 16,
        return_size: OSSL_PARAM_UNMODIFIED,
    };
    {
        let mut param = OSSLParam::try_from(&mut raw).unwrap();
        assert!(param.set(&[1u8, 2, 3][..]).is_ok());
        let got = param.get::<Vec<u8>>().unwrap();
        assert_eq!(got.len(), 16);
        assert_eq!(&got[..4], &[1, 2, 3, 0]);
        assert_eq!(param.get_c_struct().return_size, 3);
    }
    assert_eq!(&raw.data.as_ref().unwrap()[..4], &[1, 2, 3, 0]);
    // too long for the declared size
    raw.data_size = 2;
    let mut small = OSSLParam::try_from(&mut raw).unwrap();
    assert!(small.set(&[9u8, 9, 9][..]).is_err());
    assert_eq!(small.get_c_struct().return_size, 3);
    assert_eq!(small.get::<Vec<u8>>(), Some(vec![1, 2]));
}

#[test]
fn octet_string_without_data_answers_a_size_query() {
    let mut raw = OSSL_PARAM {
        key: Some("blob".to_string()),
        data_type: OSSL_PARAM_OCTET_STRING,
        data: None,
        data_size: 0,
        return_size: OSSL_PARAM_UNMODIFIED,
    };
    {
        let mut param = OSSLParam::try_from(&mut raw).unwrap();
        assert!(param.set(&[7u8; 10][..]).is_ok());
        assert_eq!(param.get_c_struct().return_size, 10);
        assert_eq!(param.get::<Vec<u8>>(), None);
    }
    assert!(raw.data.is_none());
    assert_eq!(raw.return_size, 10);
}

#[test]
fn new_null_params_have_no_value() {
    let mut o = OctetStringData::new_null("blob");
    assert!(o.param.data.is_none());
    assert_eq!(o.param.data_size, 0);
    assert_eq!(o.param.return_size, 0);
    // without data, a set only reports the size it needs
    assert!(o.set(&[1u8][..]).is_ok());
    assert_eq!(o.param.return_size, 1);
    assert!(o.param.data.is_none());
    let s = Utf8StringData::new_null("name");
    assert!(s.param.data.is_none());
    assert_eq!(s.param.data_type, OSSL_PARAM_UTF8_STRING);
    let u = UIntData::new_null("n");
    assert!(u.param.data.is_none());
    assert_eq!(u.param.data_size, 0);
}

#[test]
fn utf8_string_set_then_get() {
    let mut raw = OSSL_PARAM {
        key: Some("name".to_string()),
        data_type: OSSL_PARAM_UTF8_STRING,
        data: Some(vec![0u8; 32]),
        data_size: 32,
        return_size: 0,
    };
    {
        let mut param = OSSLParam::try_from(&mut raw).unwrap();
        assert!(param.set("hello").is_ok());
        assert_eq!(param.get::<String>(), Some("hello".to_string()));
        assert_eq!(param.get::<CStrBytes>(), Some(CStrBytes { bytes: b"hello".to_vec() }));
        assert_eq!(param.get_c_struct().return_size, 5);
    }
    assert_eq!(&raw.data.as_ref().unwrap()[..6], b"hello\0");
    // exactly as long as the declared size: no room for the NUL
    let mut raw = OSSL_PARAM {
        key: Some("name".to_string()),
        data_type: OSSL_PARAM_UTF8_STRING,
        data: Some(vec![b'x'; 5]),
        data_size: 3,
        return_size: 0,
    };
    {
        let mut exact = OSSLParam::try_from(&mut raw).unwrap();
        assert!(exact.set("abc").is_ok());
        // no NUL was written, so a read runs on into the old bytes
        assert_eq!(exact.get::<String>(), Some("abcxx".to_string()));
    }
    assert_eq!(raw.data.as_ref().unwrap(), &b"abcxx".to_vec());
    raw.data_size = 2;
    let mut short = OSSLParam::try_from(&mut raw).unwrap();
    assert!(short.set("abc").is_err());
}

#[test]
fn utf8_string_without_data_answers_a_size_query() {
    let mut raw = OSSL_PARAM {
        key: Some("name".to_string()),
        data_type: OSSL_PARAM_UTF8_STRING,
        data: None,
        data_size: 0,
        return_size: 0,
    };
    {
        let mut param = OSSLParam::try_from(&mut raw).unwrap();
        assert!(param.set("abc").is_ok());
        assert_eq!(param.get_c_struct().return_size, 3);
    }
    assert!(raw.data.is_none());
    assert_eq!(raw.return_size, 3);
}

#[test]
fn utf8_string_read_goes_to_the_nul_not_to_data_size() {
    let mut raw = OSSL_PARAM {
        key: Some("name".to_string()),
        data_type: OSSL_PARAM_UTF8_STRING,
        data: Some(b"abcd\0".to_vec()),
        data_size: 2,
        return_size: 0,
    };
    let param = OSSLParam::try_from(&mut raw).unwrap();
    assert_eq!(param.get::<String>(), Some("abcd".to_string()));
    assert_eq!(param.get::<CStrBytes>(), Some(CStrBytes { bytes: b"abcd".to_vec() }));
}

#[test]
fn non_utf8_string_reads_as_c_string_bytes() {
    let mut raw = OSSL_PARAM {
        key: Some("name".to_string()),
        data_type: OSSL_PARAM_UTF8_STRING,
        data: Some(vec![0xff, 0x41, 0, 0x42]),
        data_size: 4,
        return_size: 0,
    };
    let param = OSSLParam::try_from(&mut raw).unwrap();
    assert_eq!(param.get::<CStrBytes>(), Some(CStrBytes { bytes: vec![0xff, 0x41] }));
    assert_eq!(param.get::<String>(), None);
}

#[test]
fn utf8_ptr_set_then_get() {
    let mut raw = utf8_record("k", "old", OSSL_PARAM_UTF8_PTR);
    {
        let mut param = OSSLParam::try_from(&mut raw).unwrap();
        assert_eq!(param.get::<String>(), Some("old".to_string()));
        assert!(param.set("newer value").is_ok());
        assert_eq!(param.get::<String>(), Some("newer value".to_string()));
        assert_eq!(param.get_c_struct().return_size, 11);
    }
    assert_eq!(raw.data.as_ref().unwrap(), &b"newer value\0".to_vec());
    let null = Utf8PtrData::new_null("k");
    let mut p2 = OSSLParam::Utf8Ptr(null);
    assert!(p2.set("x").is_err());
    assert_eq!(p2.get_c_struct().return_size, 0);
    assert_eq!(p2.get::<String>(), None);
}

#[test]
fn get_key_and_data_type_of_end_record() {
    let mut end = OSSL_PARAM::END();
    end.data_type = OSSL_PARAM_INTEGER;
    let p = OSSLParam::try_from(&mut end).unwrap();
    assert_eq!(p.get_key(), None);
    assert_eq!(p.get_data_type(), None);
}

#[test]
fn try_from_refuses_unknown_types() {
    let mut raw = OSSL_PARAM::END();
    raw.key = Some("k".to_string());
    raw.data_type = 3; // a real number: not handled
    assert!(OSSLParam::try_from(&mut raw).is_err());
    raw.data_type = 7; // an octet pointer: not handled
    assert!(OSSLParam::try_from(&mut raw).is_err());
    assert!(OSSLParam::try_from_nullable(None).is_err());
    raw.data_type = OSSL_PARAM_OCTET_STRING;
    assert_eq!(OSSLParam::try_from(&mut raw).unwrap().variant_name(), "OctetString");
}

#[test]
fn iteration_steps_over_unhandled_record() {
    let mut bad = OSSL_PARAM::END();
    bad.key = Some("real".to_string());
    bad.data_type = 3;
    let mut list = [
        OSSLParam::new_const_int("a", Some(&1i32)),
        bad,
        OSSLParam::new_const_int("c", Some(&3i32)),
        OSSL_PARAM::END(),
    ];
    let mut it = OSSLParamIterator::new(&mut list);
    assert_eq!(it.next().unwrap().get::<i32>(), Some(1));
    // the unhandled record gives None once, and the walk goes on after it
    assert!(it.next().is_none());
    assert_eq!(it.next().unwrap().get::<i32>(), Some(3));
    assert!(it.next().is_none());
    assert!(it.next().is_none());
}

#[test]
fn iteration_sums_values() {
    let mut list = [
        OSSLParam::new_const_int("foo", Some(&1i32)),
        OSSLParam::new_const_int("bar", Some(&42i32)),
        OSSLParam::new_const_int("baz", Some(&-1i32)),
        OSSL_PARAM::END(),
    ];
    let mut it = OSSLParamIterator::new(&mut list);
    let mut sum = 0;
    while let Some(p) = it.next() {
        assert!(p.get_key().is_some());
        sum += p.get::<i32>().unwrap();
    }
    assert_eq!(sum, 42);
}

#[test]
fn iteration_writes_into_the_list() {
    let mut list = [
        OSSLParam::new_const_int("foo", Some(&1i32)),
        OSSLParam::new_const_uint("bar", Some(&2u32)),
        OSSL_PARAM::END(),
    ];
    {
        let mut it = OSSLParamIterator::new(&mut list);
        let mut first = it.next().unwrap();
        assert!(first.set(-3i32).is_ok());
        let mut second = it.next().unwrap();
        assert!(second.set(7u32).is_ok());
        assert!(it.next().is_none());
    }
    assert_eq!(list[0].data.as_ref().unwrap(), &vec![0xfd, 0xff, 0xff, 0xff]);
    assert_eq!(list[1].data.as_ref().unwrap(), &vec![7, 0, 0, 0]);
    assert_eq!(list[1].return_size, 4);
}

#[test]
fn const_params_hold_their_values() {
    let mut i = OSSLParam::new_const_int("i", Some(&-2i16));
    assert_eq!(i.data_size, 2);
    assert_eq!(i.data.as_ref().unwrap(), &vec![0xfe, 0xff]);
    assert_eq!(OSSLParam::try_from(&mut i).unwrap().get::<i64>(), Some(-2));
    let mut o = OSSLParam::new_const_octetstring("o", Some(&[5u8, 6][..]));
    assert_eq!(OSSLParam::try_from(&mut o).unwrap().get::<Vec<u8>>(), Some(vec![5, 6]));
    let n = OSSLParam::new_const_int::<i32>("n", None);
    assert!(n.data.is_none());
    assert_eq!(n.data_size, 0);
    assert_eq!(n.return_size, OSSL_PARAM_UNMODIFIED);
    let p = OSSLParam::new_const_utf8ptr("p", None);
    assert_eq!(p.data_type, OSSL_PARAM_UTF8_PTR);
    assert!(p.data.is_none());
}

#[test]
fn const_utf8ptr_refers_to_its_string() {
    let mut p = OSSLParam::new_const_utf8ptr("p", Some("abc"));
    assert_eq!(p.data_type, OSSL_PARAM_UTF8_PTR);
    assert_eq!(p.data_size, 3);
    assert_eq!(p.data.as_ref().unwrap(), &b"abc\0".to_vec());
    assert_eq!(p.return_size, OSSL_PARAM_UNMODIFIED);
    let param = OSSLParam::try_from(&mut p).unwrap();
    assert_eq!(param.get::<String>(), Some("abc".to_string()));
}

#[test]
fn get_c_struct_mut_changes_the_record() {
    let mut p = OSSLParam::new_const_uint("u", Some(&1u32));
    {
        let mut param = OSSLParam::try_from(&mut p).unwrap();
        param.get_c_struct_mut().return_size = 4;
        assert!(param.modified());
        assert_eq!(param.get_c_struct().return_size, 4);
    }
    assert_eq!(p.return_size, 4);
}
