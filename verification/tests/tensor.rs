use ticos_gst::tensor::{
    make_tensor_meta_version, tensor_get_element_count, MediaType, TensorFormat, TensorMetaError,
    TensorMetaInfo, TensorType, TENSOR_META_MAGIC, TENSOR_META_VERSION,
};

fn bytes_of(fields: &[u32; 14]) -> Vec<u8> {
    let mut data = Vec::new();
    for field in fields {
        data.extend_from_slice(&field.to_le_bytes());
    }
    data
}

#[test]
fn element_sizes() {
    assert_eq!(TensorType::Int32.element_size(), 4);
    assert_eq!(TensorType::UInt32.element_size(), 4);
    assert_eq!(TensorType::Float32.element_size(), 4);
    assert_eq!(TensorType::Int16.element_size(), 2);
    assert_eq!(TensorType::Float16.element_size(), 2);
    assert_eq!(TensorType::UInt8.element_size(), 1);
    assert_eq!(TensorType::Float64.element_size(), 8);
    assert_eq!(TensorType::UInt64.element_size(), 8);
    assert_eq!(TensorType::End.element_size(), 0);
}

#[test]
fn type_names() {
    assert_eq!(TensorType::UInt16.typename(), Some("uint16"));
    assert_eq!(TensorType::Float64.typename(), Some("float64"));
    assert_eq!(TensorType::End.typename(), None);
}

#[test]
fn meta_versions() {
    assert_eq!(make_tensor_meta_version(1, 0), 0xde00_1000);
    assert_eq!(make_tensor_meta_version(1, 0), TENSOR_META_VERSION);
    assert_eq!(make_tensor_meta_version(2, 7), 0xde00_2007);
}

#[test]
fn element_counts() {
    assert_eq!(tensor_get_element_count(&[2, 3, 4, 0, 9, 0, 0, 0]), 24);
    assert_eq!(tensor_get_element_count(&[2, 1, 1, 1, 1, 1, 1, 5]), 10);
    assert_eq!(tensor_get_element_count(&[1, 0, 0, 0, 0, 0, 0, 0]), 0);
    assert_eq!(tensor_get_element_count(&[0, 7, 7, 7, 7, 7, 7, 7]), 0);
}

#[test]
fn default_header() {
    let meta = TensorMetaInfo::default();
    assert!(meta.is_valid());
    assert!(meta.is_version_valid());
    assert_eq!(meta.get_version(), Ok((1, 0)));
    assert_eq!(meta.get_header_size(), 128);
}

#[test]
fn header_of_another_version() {
    let meta = TensorMetaInfo {
        version: make_tensor_meta_version(1, 1),
        ..TensorMetaInfo::default()
    };
    assert_eq!(meta.get_version(), Ok((1, 1)));
    assert_eq!(meta.get_header_size(), 0);
}

#[test]
fn header_without_magic() {
    let meta = TensorMetaInfo {
        magic: 1,
        ..TensorMetaInfo::default()
    };
    assert!(!meta.is_valid());
    assert_eq!(meta.get_version(), Err(TensorMetaError::InvalidMeta));
    assert_eq!(meta.get_header_size(), 0);
}

#[test]
fn header_is_read() {
    let data = bytes_of(&[
        TENSOR_META_MAGIC,
        TENSOR_META_VERSION,
        7,
        4,
        2,
        1,
        0,
        0,
        0,
        0,
        5,
        1,
        4,
        9,
    ]);
    let meta = TensorMetaInfo::read(&data).unwrap();
    assert_eq!(meta.magic, TENSOR_META_MAGIC);
    assert_eq!(meta.tensor_type, TensorType::Float32);
    assert_eq!(meta.dimension, [4, 2, 1, 0, 0, 0, 0, 5]);
    assert_eq!(meta.format, TensorFormat::Flexible);
    assert_eq!(meta.media_type, MediaType::Tensor);
    assert_eq!(meta.nnz, 9);
}

#[test]
fn broken_headers_are_not_read() {
    let mut data = bytes_of(&[TENSOR_META_MAGIC, TENSOR_META_VERSION, 12, 0, 0, 0, 0, 0, 0, 0, 0, 0, 0, 0]);
    assert!(TensorMetaInfo::read(&data).is_none());
    data[8] = 11;
    assert!(TensorMetaInfo::read(&data).is_some());
    assert!(TensorMetaInfo::read(&data[..55]).is_none());
}
