//! Dispatch by type identifier, unknown-kind tolerance, the directory, and
//! reference resolution.

use wld_codec::dispatcher::decode_fragment;
use wld_codec::dispatcher::Fragment;
use wld_codec::dispatcher::FragmentDirectory;
use wld_codec::error::WldError;
use wld_codec::references::FragmentRef;
use wld_codec::references::StringReference;

fn camera_payload() -> Vec<u8> {
    let mut data = Vec::new();
    data.extend_from_slice(&0i32.to_le_bytes());
    data.extend_from_slice(&1730u32.to_le_bytes());
    data.extend_from_slice(&0u32.to_le_bytes());
    data
}

#[test]
fn dispatch_selects_the_registered_kind() {
    let data = camera_payload();
    let (frag, consumed) = decode_fragment(0x09, &data).unwrap();
    assert_eq!(consumed, 12);
    assert_eq!(frag.type_id(), 0x09);
    let camera = frag.as_camera_reference().unwrap();
    assert_eq!(camera.reference, FragmentRef::new(1730));
    assert!(frag.as_zone_unknown().is_none());
    assert_eq!(frag.serialize(), data);
}

#[test]
fn dispatch_zero_field_kind_consumes_nothing() {
    let (frag, consumed) = decode_fragment(0x16, &[9, 9, 9]).unwrap();
    assert_eq!(consumed, 0);
    assert_eq!(frag.type_id(), 0x16);
    assert!(frag.as_zone_unknown().is_some());
    assert_eq!(frag.serialize(), Vec::<u8>::new());
    assert_eq!(frag.name_ref(), StringReference::new(0));
}

#[test]
fn dispatch_unregistered_kind_is_tolerated() {
    let payload = vec![0xDE, 0xAD, 0xBE, 0xEF, 0x42];
    let (frag, consumed) = decode_fragment(0x99, &payload).unwrap();
    assert_eq!(consumed, payload.len());
    assert_eq!(frag.type_id(), 0x99);
    let unknown = frag.as_unknown().unwrap();
    assert_eq!(unknown.bytes, payload);
    // The unknown record re-emits its true raw bytes.
    assert_eq!(frag.serialize(), payload);
    assert_eq!(frag.name_ref(), StringReference::new(0));
}

#[test]
fn dispatch_unregistered_kind_with_empty_payload() {
    let (frag, consumed) = decode_fragment(0x7F, &[]).unwrap();
    assert_eq!(consumed, 0);
    assert_eq!(frag.serialize(), Vec::<u8>::new());
}

#[test]
fn dispatch_short_payload_is_insufficient() {
    assert_eq!(
        decode_fragment(0x09, &[1, 2, 3]),
        Err(WldError::InsufficientBytes)
    );
}

#[test]
fn reference_serializes_its_constructed_value() {
    // The serialized bytes equal the constructed integer, resolved or not.
    let reference = FragmentRef::new(1730);
    assert_eq!(reference.serialize(), 1730i32.to_le_bytes().to_vec());

    let negative = FragmentRef::new(-2);
    assert_eq!(negative.serialize(), (-2i32).to_le_bytes().to_vec());

    let mut directory = FragmentDirectory::new();
    let (frag, _) = decode_fragment(0x09, &camera_payload()).unwrap();
    directory.push(frag);
    let resolved = FragmentRef::new(1);
    let _ = resolved.resolve(&directory, 0x09);
    assert_eq!(resolved.serialize(), 1i32.to_le_bytes().to_vec());
}

#[test]
fn resolve_checks_bounds_and_kind() {
    let mut directory = FragmentDirectory::new();
    let (camera, _) = decode_fragment(0x09, &camera_payload()).unwrap();
    directory.push(camera);
    let (zone, _) = decode_fragment(0x16, &[]).unwrap();
    directory.push(zone);
    assert_eq!(directory.len(), 2);

    // In range and of the expected kind.
    let hit = FragmentRef::new(1).resolve(&directory, 0x09).unwrap();
    assert!(hit.as_camera_reference().is_some());
    let hit = FragmentRef::new(2).resolve(&directory, 0x16).unwrap();
    assert!(hit.as_zone_unknown().is_some());

    // Kind mismatch, "no reference", out of range, negative: all empty.
    assert!(FragmentRef::new(1).resolve(&directory, 0x16).is_none());
    assert!(FragmentRef::new(0).resolve(&directory, 0x09).is_none());
    assert!(FragmentRef::new(3).resolve(&directory, 0x09).is_none());
    assert!(FragmentRef::new(-1).resolve(&directory, 0x09).is_none());
}

#[test]
fn directory_replaces_a_slot_in_place() {
    let mut directory = FragmentDirectory::new();
    let (camera, _) = decode_fragment(0x09, &camera_payload()).unwrap();
    directory.push(camera);

    let (zone, _) = decode_fragment(0x16, &[]).unwrap();
    directory.replace(1, zone);
    assert_eq!(directory.len(), 1);
    assert_eq!(directory.fragment_at(1).unwrap().type_id(), 0x16);
    assert!(directory.fragment_at(0).is_none());
    assert!(directory.fragment_at(2).is_none());
}

#[test]
fn dispatch_round_trips_every_kind() {
    let mut mesh_data = Vec::new();
    mesh_data.extend_from_slice(&(-1i32).to_le_bytes());
    mesh_data.extend_from_slice(&0u32.to_le_bytes());
    mesh_data.extend_from_slice(&2u16.to_le_bytes());
    mesh_data.extend_from_slice(&1u16.to_le_bytes());
    mesh_data.extend_from_slice(&100u16.to_le_bytes());
    mesh_data.extend_from_slice(&0u16.to_le_bytes());
    mesh_data.extend_from_slice(&3u16.to_le_bytes());
    mesh_data.extend_from_slice(&7u32.to_le_bytes());
    for v in [1i16, -2, 3, -4, 5, -6] {
        mesh_data.extend_from_slice(&v.to_le_bytes());
    }
    mesh_data.extend_from_slice(&0u16.to_le_bytes());

    let mut poly_data = Vec::new();
    poly_data.extend_from_slice(&0i32.to_le_bytes());
    poly_data.extend_from_slice(&5u32.to_le_bytes());
    poly_data.extend_from_slice(&1u32.to_le_bytes());
    poly_data.extend_from_slice(&1.5f32.to_le_bytes());

    let cases: [(u32, Vec<u8>); 5] = [
        (0x09, camera_payload()),
        (0x37, mesh_data),
        (0x2f, camera_payload()),
        (0x18, poly_data),
        (0x99, vec![1, 2, 3]),
    ];
    for (type_id, payload) in cases {
        let (frag, consumed) = decode_fragment(type_id, &payload).unwrap();
        assert_eq!(consumed, payload.len());
        assert_eq!(frag.serialize(), payload);
    }
}
