use unio_native::buffer::{ByteBuffer, CSharpString};
use unio_native::utf16::{str_to_utf16, utf16_to_string};
use unio_native::{
    package_read_outcome, path_length_to_count, read_result_from, unio_boxed_error_delete,
    unio_byte_buffer_delete, unio_read_result_delete, ReadResult,
};

#[test]
fn byte_buffer_round_trip() {
    let bytes = vec![1u8, 2, 3, 250];
    let buffer = ByteBuffer::from_vec(bytes.clone()).unwrap();
    assert_eq!(buffer.len().unwrap(), 4);
    assert_eq!(buffer.into_vec(), bytes);
}

#[test]
fn empty_byte_buffer_round_trip() {
    let buffer = ByteBuffer::from_vec(Vec::new()).unwrap();
    assert_eq!(buffer.len().unwrap(), 0);
    assert!(buffer.into_vec().is_empty());
}

#[test]
fn release_default_buffer_is_noop() {
    ByteBuffer::default().destroy();
    unio_byte_buffer_delete(ByteBuffer::default());
}

#[test]
fn release_envelope_of_both_shapes() {
    let success = package_read_outcome(Ok(vec![9u8, 8, 7]));
    assert!(success.error.is_none());
    unio_read_result_delete(success);

    let failure = package_read_outcome(Err(String::from("read interrupted")));
    assert!(failure.error.is_some());
    unio_read_result_delete(failure);
}

#[test]
fn release_absent_error_is_noop() {
    unio_boxed_error_delete(None);
}

#[test]
fn length_overflow_is_rejected() {
    let oversized = vec![0u8; (i32::MAX as usize) + 1];
    match ByteBuffer::from_vec(oversized) {
        Ok(_) => panic!("a sequence longer than the boundary field was accepted"),
        Err(e) => assert_eq!(
            e.message().to_string().unwrap(),
            "buffer length cannot fit into a i32."
        ),
    }
}

#[test]
fn capacity_overflow_is_rejected() {
    match ByteBuffer::from_vec_with_capacity(vec![1u8], usize::MAX) {
        Ok(_) => panic!("a capacity wider than the boundary field was accepted"),
        Err(e) => assert_eq!(
            e.message().to_string().unwrap(),
            "buffer capacity cannot fit into a i32."
        ),
    }
}

#[test]
fn empty_path_decodes_to_empty_string() {
    assert_eq!(utf16_to_string(&[]).unwrap(), "");
    let empty = CSharpString::from_str("");
    assert!(empty.units().is_empty());
    assert_eq!(empty.to_string().unwrap(), "");
}

#[test]
fn surrogate_pair_decodes() {
    assert_eq!(utf16_to_string(&[0xD83D, 0xDE00]).unwrap(), "\u{1F600}");
}

#[test]
fn unpaired_surrogates_are_rejected() {
    assert!(utf16_to_string(&[0x61, 0xD800]).is_none());
    assert!(utf16_to_string(&[0xDC00]).is_none());
    assert!(utf16_to_string(&[0xD800, 0xD800, 0xDC00]).is_none());
}

#[test]
fn encoding_matches_the_utf16_of_std() {
    let text = "p\u{E9}th \u{1D11E}.bin";
    let std_units: Vec<u16> = text.encode_utf16().collect();
    assert_eq!(str_to_utf16(text), std_units);
}

#[test]
fn path_string_round_trip() {
    let path = CSharpString::from_str("missing.bin");
    assert_eq!(path.to_string().unwrap(), "missing.bin");
}

#[test]
fn decode_failure_carries_the_surrogate_message() {
    let path = CSharpString::new(vec![0xD800]);
    let e = path.to_string().unwrap_err();
    assert_eq!(
        e.message().to_string().unwrap(),
        "invalid utf-16: lone surrogate found"
    );
}

#[test]
fn missing_file_scenario() {
    let path = CSharpString::new("missing.bin".encode_utf16().collect());
    assert_eq!(path.to_string().unwrap(), "missing.bin");
    let envelope = package_read_outcome(Err(String::from(
        "No such file or directory (os error 2)",
    )));
    let ReadResult { bytes, error } = envelope;
    assert!(error.is_some());
    assert_eq!(bytes.len().unwrap(), 0);
    assert!(bytes.into_vec().is_empty());
    unio_boxed_error_delete(error);
}

#[test]
fn empty_file_scenario() {
    let envelope = package_read_outcome(Ok(Vec::new()));
    assert!(envelope.error.is_none());
    assert_eq!(envelope.bytes.len().unwrap(), 0);
    unio_read_result_delete(envelope);
}

#[test]
fn successful_read_scenario() {
    let contents = b"hello, host".to_vec();
    let envelope = package_read_outcome(Ok(contents.clone()));
    assert!(envelope.error.is_none());
    let ReadResult { bytes, error: _ } = envelope;
    assert_eq!(bytes.len().unwrap(), contents.len());
    assert_eq!(bytes.into_vec(), contents);
}

#[test]
fn io_error_message_is_forwarded() {
    let envelope = package_read_outcome(Err(String::from("permission denied")));
    let error = *envelope.error.expect("a failure envelope must carry an error");
    assert_eq!(error.message().to_string().unwrap(), "permission denied");
    unio_byte_buffer_delete(envelope.bytes);
}

#[test]
fn negative_path_length_is_rejected() {
    assert!(matches!(path_length_to_count(11), Ok(11)));
    let e = path_length_to_count(-1).unwrap_err();
    assert_eq!(
        e.message().to_string().unwrap(),
        "path length negative or overflowed"
    );
}

#[test]
fn envelope_keeps_the_buffer_it_was_built_from() {
    let buffer = ByteBuffer::from_vec(vec![42u8]).unwrap();
    let envelope = read_result_from(Ok(buffer));
    assert!(envelope.error.is_none());
    assert_eq!(envelope.bytes.into_vec(), vec![42u8]);
}
