use genrs_lib::{generate_uuid, Uuid, UuidVersion};

/// The RFC 4122 DNS namespace, 6ba7b810-9dad-11d1-80b4-00c04fd430c8.
const NAMESPACE_DNS: [u8; 16] = [
    0x6b, 0xa7, 0xb8, 0x10, 0x9d, 0xad, 0x11, 0xd1, 0x80, 0xb4, 0x00, 0xc0, 0x4f, 0xd4, 0x30,
    0xc8,
];

#[test]
fn v4_has_version_and_variant_bits() {
    let uuid = generate_uuid(UuidVersion::V4, None, None).unwrap();
    assert_eq!(uuid.version_field(), 4);
    assert_eq!(uuid.bytes[8] >> 6, 0b10);
}

#[test]
fn v4_twice_differs() {
    let a = generate_uuid(UuidVersion::V4, None, None).unwrap();
    let b = generate_uuid(UuidVersion::V4, None, None).unwrap();
    assert_ne!(a.bytes, b.bytes);
}

#[test]
fn v1_has_version_and_variant_bits() {
    let uuid = generate_uuid(UuidVersion::V1, None, None).unwrap();
    assert_eq!(uuid.version_field(), 1);
    assert_eq!(uuid.bytes[8] >> 6, 0b10);
}

#[test]
fn v3_is_deterministic() {
    let ns = Uuid::from_bytes(NAMESPACE_DNS);
    let a = generate_uuid(UuidVersion::V3, Some(ns), Some("example")).unwrap();
    let b = generate_uuid(UuidVersion::V3, Some(ns), Some("example")).unwrap();
    assert_eq!(a.bytes, b.bytes);
    assert_eq!(a.version_field(), 3);
}

#[test]
fn v5_is_deterministic() {
    let ns = Uuid::from_bytes(NAMESPACE_DNS);
    let a = generate_uuid(UuidVersion::V5, Some(ns), Some("example")).unwrap();
    let b = generate_uuid(UuidVersion::V5, Some(ns), Some("example")).unwrap();
    assert_eq!(a.bytes, b.bytes);
    assert_eq!(a.version_field(), 5);
}

#[test]
fn v3_and_v5_differ_for_same_inputs() {
    let ns = Uuid::from_bytes(NAMESPACE_DNS);
    let v3 = generate_uuid(UuidVersion::V3, Some(ns), Some("example")).unwrap();
    let v5 = generate_uuid(UuidVersion::V5, Some(ns), Some("example")).unwrap();
    assert_ne!(v3.bytes, v5.bytes);
}

#[test]
fn v3_matches_reference_implementation() {
    let ns = Uuid::from_bytes(NAMESPACE_DNS);
    let ours = generate_uuid(UuidVersion::V3, Some(ns), Some("www.example.com")).unwrap();
    let reference = uuid::Uuid::new_v3(&uuid::Uuid::NAMESPACE_DNS, b"www.example.com");
    assert_eq!(&ours.bytes, reference.as_bytes());
}

#[test]
fn v5_known_value_for_dns_example_com() {
    let ns = Uuid::from_bytes(NAMESPACE_DNS);
    let uuid = generate_uuid(UuidVersion::V5, Some(ns), Some("example.com")).unwrap();
    assert_eq!(
        uuid.to_hyphenated_string(),
        "cfbff0d1-9375-5685-968c-48ce8b15ae17"
    );
}

#[test]
fn v3_missing_namespace_fails() {
    let err = generate_uuid(UuidVersion::V3, None, Some("x")).unwrap_err();
    assert_eq!(err, "Namespace and name are required for UUID V3");
}

#[test]
fn v3_missing_name_fails() {
    let ns = Uuid::from_bytes(NAMESPACE_DNS);
    let err = generate_uuid(UuidVersion::V3, Some(ns), None).unwrap_err();
    assert_eq!(err, "Namespace and name are required for UUID V3");
}

#[test]
fn v5_missing_parameters_fail() {
    let ns = Uuid::from_bytes(NAMESPACE_DNS);
    let err = generate_uuid(UuidVersion::V5, None, Some("x")).unwrap_err();
    assert_eq!(err, "Namespace and name are required for UUID V5");
    let err = generate_uuid(UuidVersion::V5, Some(ns), None).unwrap_err();
    assert_eq!(err, "Namespace and name are required for UUID V5");
}

#[test]
fn hyphenated_form_matches_reference_implementation() {
    let ours = generate_uuid(UuidVersion::V4, None, None).unwrap();
    let reference = uuid::Uuid::from_bytes(ours.bytes);
    assert_eq!(ours.to_hyphenated_string(), reference.to_string());
}

#[test]
fn from_bytes_keeps_bytes() {
    let bytes: [u8; 16] = [0, 1, 2, 3, 4, 5, 6, 7, 8, 9, 10, 11, 12, 13, 14, 255];
    let uuid = Uuid::from_bytes(bytes);
    assert_eq!(uuid.bytes, bytes);
    assert_eq!(
        uuid.to_hyphenated_string(),
        "00010203-0405-0607-0809-0a0b0c0d0eff"
    );
}
