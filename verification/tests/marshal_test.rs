use onnxsim::marshal::{
    decimal_text, find_nul, marshal_names, marshal_text, to_c_string,
};
use onnxsim::{marshal_options, OnnxSimError, SimplifyOptions};

#[test]
fn the_first_zero_byte_is_found() {
    assert_eq!(find_nul(&vec![]), None);
    assert_eq!(find_nul(&vec![1, 2, 3]), None);
    assert_eq!(find_nul(&vec![0]), Some(0));
    assert_eq!(find_nul(&vec![7, 0, 9, 0]), Some(1));
    assert_eq!(find_nul(&vec![7, 8, 9, 0]), Some(3));
}

#[test]
fn numbers_are_written_in_decimal() {
    assert_eq!(decimal_text(0), "0");
    assert_eq!(decimal_text(7), "7");
    assert_eq!(decimal_text(9), "9");
    assert_eq!(decimal_text(10), "10");
    assert_eq!(decimal_text(1024), "1024");
    assert_eq!(decimal_text(1234567890), "1234567890");
    assert_eq!(decimal_text(usize::MAX), format!("{}", usize::MAX));
}

#[test]
fn a_text_gets_one_zero_byte_at_its_end() {
    assert_eq!(to_c_string(""), Ok(vec![0]));
    assert_eq!(to_c_string("abc"), Ok(vec![b'a', b'b', b'c', 0]));
    assert_eq!(to_c_string("é"), Ok(vec![0xc3, 0xa9, 0]));
    assert_eq!(marshal_text("fuse"), Ok(vec![b'f', b'u', b's', b'e', 0]));
}

#[test]
fn a_text_with_a_zero_byte_is_rejected_at_its_place() {
    assert_eq!(to_c_string("\0"), Err(0));
    assert_eq!(to_c_string("a\0b"), Err(1));
    assert_eq!(to_c_string("é\0\0"), Err(2));
    assert_eq!(
        marshal_text("ab\0"),
        Err(OnnxSimError::InvalidArgument(String::from(
            "nul byte found in provided data at position: 2"
        )))
    );
    assert_eq!(
        marshal_text("0123456789ab\0"),
        Err(OnnxSimError::InvalidArgument(String::from(
            "nul byte found in provided data at position: 12"
        )))
    );
}

#[test]
fn names_are_marshaled_in_order() {
    let names = vec![String::from("b"), String::from(""), String::from("a1")];
    assert_eq!(marshal_names(&names), Ok(vec![vec![b'b', 0], vec![0], vec![b'a', b'1', 0]]));
    assert_eq!(marshal_names(&vec![]), Ok(vec![]));
}

#[test]
fn the_first_bad_name_fails_the_list() {
    let names = vec![String::from("ok"), String::from("x\0"), String::from("\0")];
    assert_eq!(
        marshal_names(&names),
        Err(OnnxSimError::InvalidArgument(String::from(
            "nul byte found in provided data at position: 1"
        )))
    );
}

#[test]
fn options_are_marshaled_field_by_field() {
    let options = SimplifyOptions::new()
        .with_skip_optimizers(vec![String::from("fuse_bn"), String::from("nop")])
        .with_constant_folding(true)
        .with_tensor_size_threshold(1536);
    let args = marshal_options(&options).unwrap();
    assert_eq!(
        args.skip_optimizers,
        Some(vec![b"fuse_bn\0".to_vec(), b"nop\0".to_vec()])
    );
    assert_eq!(args.skip_count, 2);
    assert_eq!(args.constant_folding, 1);
    assert_eq!(args.shape_inference, 0);
    assert_eq!(args.tensor_size_threshold, 1536);

    let args = marshal_options(&SimplifyOptions::new().with_shape_inference(true)).unwrap();
    assert_eq!(args.constant_folding, 0);
    assert_eq!(args.shape_inference, 1);
    assert_eq!(args.tensor_size_threshold, 0);
}

#[test]
fn empty_and_absent_skip_lists_marshal_alike() {
    let absent = marshal_options(&SimplifyOptions::new()).unwrap();
    let empty = marshal_options(&SimplifyOptions::new().with_skip_optimizers(vec![])).unwrap();
    assert_eq!(absent, empty);
    assert_eq!(absent.skip_optimizers, None);
    assert_eq!(absent.skip_count, 0);
}

#[test]
fn options_with_a_bad_name_are_rejected() {
    let options = SimplifyOptions::new()
        .with_skip_optimizers(vec![String::from("fine"), String::from("bro\0ken")])
        .with_constant_folding(true);
    assert_eq!(
        marshal_options(&options),
        Err(OnnxSimError::InvalidArgument(String::from(
            "nul byte found in provided data at position: 3"
        )))
    );
}
