use widevine::decryption::{
    DecryptionResult, EncryptionScheme, InputBuffer, Pattern, Status, SubsampleEntry,
};
use widevine::remote_buffer::RemoteBuffer;

#[test]
fn fresh_buffer_is_empty_with_the_capacity_asked_for() {
    let buffer = RemoteBuffer::allocate(64);
    assert_eq!(buffer.size(), 0);
    assert_eq!(buffer.capacity(), 64);
    assert!(buffer.data().is_empty());
}

#[test]
fn buffer_grown_within_capacity_reports_the_size_and_is_zeroed() {
    let mut buffer = RemoteBuffer::allocate(16);
    buffer.set_size(10);
    assert_eq!(buffer.size(), 10);
    assert_eq!(buffer.capacity(), 16);
    assert_eq!(buffer.data(), &[0u8; 10][..]);

    let bytes = buffer.data_mut();
    assert_eq!(bytes.len(), 10);
    bytes[0] = 0xde;
    bytes[9] = 0xad;
    assert_eq!(buffer.size(), 10);
    assert_eq!(buffer.data(), &[0xde, 0, 0, 0, 0, 0, 0, 0, 0, 0xad][..]);
}

#[test]
fn shrinking_drops_the_tail_and_growing_again_exposes_zeros() {
    let mut buffer = RemoteBuffer::allocate(8);
    buffer.set_size(4);
    buffer.data_mut().copy_from_slice(&[1, 2, 3, 4]);
    buffer.set_size(2);
    assert_eq!(buffer.data(), &[1, 2][..]);
    buffer.set_size(5);
    assert_eq!(buffer.data(), &[1, 2, 0, 0, 0][..]);
    assert_eq!(buffer.size(), 5);
    assert_eq!(buffer.capacity(), 8);
}

#[test]
fn growing_past_the_capacity_raises_it() {
    let mut buffer = RemoteBuffer::allocate(2);
    buffer.set_size(6);
    assert_eq!(buffer.size(), 6);
    assert_eq!(buffer.capacity(), 6);
    buffer.set_size(1);
    assert_eq!(buffer.capacity(), 6);
}

#[test]
fn set_size_zero_empties_the_buffer() {
    let mut buffer = RemoteBuffer::allocate(0);
    buffer.set_size(3);
    buffer.set_size(0);
    assert_eq!(buffer.size(), 0);
    assert_eq!(buffer.capacity(), 3);
}

#[test]
fn destroy_hands_back_the_last_contents() {
    let mut buffer = RemoteBuffer::allocate(4);
    buffer.set_size(3);
    buffer.data_mut()[1] = 7;
    assert_eq!(buffer.destroy(), vec![0, 7, 0]);
}

#[test]
fn success_carries_the_bytes() {
    let result = DecryptionResult { status: Status::Success, data: vec![1, 2, 3] };
    assert_eq!(result.into_result(), Ok(vec![1, 2, 3]));
    let empty = DecryptionResult { status: Status::Success, data: Vec::new() };
    assert_eq!(empty.into_result(), Ok(Vec::new()));
}

#[test]
fn needs_more_data_carries_no_bytes() {
    let result = DecryptionResult { status: Status::NeedsMoreData, data: vec![9, 9] };
    assert_eq!(result.into_result(), Err(Status::NeedsMoreData));
}

#[test]
fn every_other_status_is_the_error() {
    let statuses = [
        Status::NeedsMoreData,
        Status::NoKey,
        Status::InitializationError,
        Status::DecryptError,
        Status::DecodeError,
        Status::DeferredInitialization,
    ];
    for status in statuses {
        let result = DecryptionResult { status, data: vec![1] };
        assert_eq!(result.into_result(), Err(status));
    }
}

#[test]
fn only_missing_data_and_missing_key_are_recoverable() {
    assert!(Status::NeedsMoreData.is_recoverable());
    assert!(Status::NoKey.is_recoverable());
    assert!(!Status::Success.is_recoverable());
    assert!(!Status::InitializationError.is_recoverable());
    assert!(!Status::DecryptError.is_recoverable());
    assert!(!Status::DecodeError.is_recoverable());
    assert!(!Status::DeferredInitialization.is_recoverable());
}

#[test]
fn numbers_of_the_module_name_the_statuses() {
    assert_eq!(Status::from_code(0), Some(Status::Success));
    assert_eq!(Status::from_code(1), Some(Status::NeedsMoreData));
    assert_eq!(Status::from_code(2), Some(Status::NoKey));
    assert_eq!(Status::from_code(3), Some(Status::InitializationError));
    assert_eq!(Status::from_code(4), Some(Status::DecryptError));
    assert_eq!(Status::from_code(5), Some(Status::DecodeError));
    assert_eq!(Status::from_code(6), Some(Status::DeferredInitialization));
    assert_eq!(Status::from_code(7), None);
    assert_eq!(EncryptionScheme::Unencrypted.code(), 0);
    assert_eq!(EncryptionScheme::Cenc.code(), 1);
    assert_eq!(EncryptionScheme::Cbcs.code(), 2);
}

#[test]
fn descriptor_counts_each_region() {
    let data = [0u8; 37];
    let key_id = [1u8; 16];
    let iv = [2u8; 8];
    let input = InputBuffer {
        data: &data,
        encryption_scheme: EncryptionScheme::Cenc,
        key_id: &key_id,
        iv: &iv,
        subsamples: vec![
            SubsampleEntry { clear_bytes: 5, cipher_bytes: 32 },
            SubsampleEntry { clear_bytes: 0, cipher_bytes: 0 },
        ],
        pattern: Pattern { crypt_byte_block: 1, skip_byte_block: 9 },
        timestamp: 123_456_789_012,
    };
    let descriptor = input.descriptor();
    assert_eq!(descriptor.data, &data[..]);
    assert_eq!(descriptor.data_size, 37);
    assert_eq!(descriptor.encryption_scheme, EncryptionScheme::Cenc);
    assert_eq!(descriptor.key_id, &key_id[..]);
    assert_eq!(descriptor.key_id_size, 16);
    assert_eq!(descriptor.iv, &iv[..]);
    assert_eq!(descriptor.iv_size, 8);
    assert_eq!(descriptor.subsamples.len(), 2);
    assert_eq!(descriptor.subsamples[0], SubsampleEntry { clear_bytes: 5, cipher_bytes: 32 });
    assert_eq!(descriptor.num_subsamples, 2);
    assert_eq!(descriptor.pattern, Pattern { crypt_byte_block: 1, skip_byte_block: 9 });
    assert_eq!(descriptor.timestamp, 123_456_789_012);
}

#[test]
fn descriptor_of_an_empty_sample_has_zero_counts() {
    let input = InputBuffer {
        data: &[],
        encryption_scheme: EncryptionScheme::Unencrypted,
        key_id: &[],
        iv: &[],
        subsamples: Vec::new(),
        pattern: Pattern { crypt_byte_block: 0, skip_byte_block: 0 },
        timestamp: 0,
    };
    let descriptor = input.descriptor();
    assert_eq!(descriptor.data_size, 0);
    assert_eq!(descriptor.key_id_size, 0);
    assert_eq!(descriptor.iv_size, 0);
    assert_eq!(descriptor.num_subsamples, 0);
}
