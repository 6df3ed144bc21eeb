//! The four representative record layouts, parsed from captured-shape
//! payloads and serialized back byte-exactly.

use wld_codec::error::WldError;
use wld_codec::fragments::camera_reference::CameraReferenceFragment;
use wld_codec::fragments::mesh_animated_vertices::MeshAnimatedVerticesFragment;
use wld_codec::fragments::mesh_animated_vertices_reference::MeshAnimatedVerticesReferenceFragment;
use wld_codec::fragments::polygon_animation_reference::PolygonAnimationReferenceFragment;
use wld_codec::fragments::zone_unknown::ZoneUnknownFragment;
use wld_codec::references::FragmentRef;
use wld_codec::references::StringReference;
use wld_codec::string_block::StringBlock;

fn camera_payload() -> Vec<u8> {
    let mut data = Vec::new();
    data.extend_from_slice(&0i32.to_le_bytes());
    data.extend_from_slice(&1730u32.to_le_bytes());
    data.extend_from_slice(&0u32.to_le_bytes());
    data
}

fn mesh_payload() -> Vec<u8> {
    let mut data = Vec::new();
    data.extend_from_slice(&(-5038i32).to_le_bytes());
    data.extend_from_slice(&0u32.to_le_bytes());
    data.extend_from_slice(&104u16.to_le_bytes());
    data.extend_from_slice(&15u16.to_le_bytes());
    data.extend_from_slice(&67u16.to_le_bytes());
    data.extend_from_slice(&0u16.to_le_bytes());
    data.extend_from_slice(&10u16.to_le_bytes());
    for j in 0..15u32 {
        let v = if j == 0 { 142868935 } else { 1000 + j };
        data.extend_from_slice(&v.to_le_bytes());
    }
    for k in 0..104i32 {
        let (x, y, z) = if k == 0 {
            (-556i16, -1639i16, -13535i16)
        } else {
            (k as i16, k as i16 - 100, 7i16)
        };
        data.extend_from_slice(&x.to_le_bytes());
        data.extend_from_slice(&y.to_le_bytes());
        data.extend_from_slice(&z.to_le_bytes());
    }
    data.extend_from_slice(&64980u16.to_le_bytes());
    data
}

fn mesh_reference_payload() -> Vec<u8> {
    let mut data = Vec::new();
    data.extend_from_slice(&0i32.to_le_bytes());
    data.extend_from_slice(&0x0278u32.to_le_bytes());
    data.extend_from_slice(&0u32.to_le_bytes());
    data
}

fn polygon_animation_payload() -> Vec<u8> {
    let mut data = Vec::new();
    data.extend_from_slice(&0i32.to_le_bytes());
    data.extend_from_slice(&0x058au32.to_le_bytes());
    data.extend_from_slice(&0u32.to_le_bytes());
    data.extend_from_slice(&0.0f32.to_le_bytes());
    data
}

#[test]
fn camera_reference_it_parses() {
    let data = camera_payload();
    let (frag, consumed) = CameraReferenceFragment::parse(&data).unwrap();

    assert_eq!(frag.name_reference, StringReference::new(0));
    assert_eq!(frag.reference, FragmentRef::new(1730));
    assert_eq!(frag.flags, 0);
    assert_eq!(consumed, 12);
}

#[test]
fn camera_reference_it_serializes() {
    let data = camera_payload();
    let frag = CameraReferenceFragment::parse(&data).unwrap().0;

    assert_eq!(&frag.serialize()[..], &data[..]);
}

#[test]
fn mesh_animated_vertices_it_parses() {
    let data = mesh_payload();
    let (frag, consumed) = MeshAnimatedVerticesFragment::parse(&data).unwrap();

    assert_eq!(frag.name_reference, StringReference::new(-5038));
    assert_eq!(frag.flags, 0x0);
    assert_eq!(frag.vertex_count, 104);
    assert_eq!(frag.frame_count, 15);
    assert_eq!(frag.param1, 67);
    assert_eq!(frag.param2, 0);
    assert_eq!(frag.scale, 10);
    assert_eq!(frag.frames.len(), 15);
    assert_eq!(frag.frames[0], 142868935);
    assert_eq!(frag.vertices.len(), 104);
    assert_eq!(frag.vertices[0], (-556, -1639, -13535));
    assert_eq!(frag.size6, 64980);
    assert_eq!(consumed, data.len());
}

#[test]
fn mesh_animated_vertices_it_serializes() {
    let data = mesh_payload();
    let frag = MeshAnimatedVerticesFragment::parse(&data).unwrap().0;

    assert_eq!(&frag.serialize()[..], &data[..]);
}

#[test]
fn mesh_animated_vertices_reference_it_parses() {
    let data = mesh_reference_payload();
    let (frag, consumed) = MeshAnimatedVerticesReferenceFragment::parse(&data).unwrap();

    assert_eq!(frag.name_reference, StringReference::new(0));
    assert_eq!(frag.reference, FragmentRef::new(0x0278));
    assert_eq!(frag.flags, 0x0);
    assert_eq!(consumed, 12);
}

#[test]
fn mesh_animated_vertices_reference_it_serializes() {
    let data = mesh_reference_payload();
    let frag = MeshAnimatedVerticesReferenceFragment::parse(&data).unwrap().0;

    assert_eq!(&frag.serialize()[..], &data[..]);
}

#[test]
fn polygon_animation_reference_it_parses() {
    let data = polygon_animation_payload();
    let (frag, consumed) = PolygonAnimationReferenceFragment::parse(&data).unwrap();

    assert_eq!(frag.name_reference, StringReference::new(0));
    assert_eq!(frag.reference, FragmentRef::new(0x058a));
    assert_eq!(frag.flags, 0);
    assert_eq!(f32::from_bits(frag.params1), 0.0);
    assert_eq!(consumed, 16);
}

#[test]
fn polygon_animation_reference_it_serializes() {
    let data = polygon_animation_payload();
    let frag = PolygonAnimationReferenceFragment::parse(&data).unwrap().0;

    assert_eq!(&frag.serialize()[..], &data[..]);
}

#[test]
fn truncated_camera_reference_is_insufficient() {
    let data = camera_payload();
    for short in [0usize, 1, 4, 11] {
        assert_eq!(
            CameraReferenceFragment::parse(&data[..short]),
            Err(WldError::InsufficientBytes)
        );
    }
}

#[test]
fn truncated_mesh_reference_is_insufficient() {
    let data = mesh_reference_payload();
    assert_eq!(
        MeshAnimatedVerticesReferenceFragment::parse(&data[..11]),
        Err(WldError::InsufficientBytes)
    );
}

#[test]
fn truncated_polygon_animation_is_insufficient() {
    let data = polygon_animation_payload();
    assert_eq!(
        PolygonAnimationReferenceFragment::parse(&data[..15]),
        Err(WldError::InsufficientBytes)
    );
}

#[test]
fn truncated_mesh_header_is_insufficient() {
    let data = mesh_payload();
    assert_eq!(
        MeshAnimatedVerticesFragment::parse(&data[..17]),
        Err(WldError::InsufficientBytes)
    );
}

#[test]
fn mesh_counts_exceeding_input_are_insufficient() {
    // The full header is present and declares 104 vertices and 15 frames,
    // but the repeated sections are cut off.
    let data = mesh_payload();
    assert_eq!(
        MeshAnimatedVerticesFragment::parse(&data[..40]),
        Err(WldError::InsufficientBytes)
    );
    assert_eq!(
        MeshAnimatedVerticesFragment::parse(&data[..data.len() - 1]),
        Err(WldError::InsufficientBytes)
    );
}

#[test]
fn zone_unknown_parses_any_input() {
    let (frag, consumed) = ZoneUnknownFragment::parse(&[]).unwrap();
    assert_eq!(consumed, 0);
    assert_eq!(frag.serialize().len(), 0);

    let (frag, consumed) = ZoneUnknownFragment::parse(&[1, 2, 3]).unwrap();
    assert_eq!(consumed, 0);
    assert_eq!(frag.serialize().len(), 0);

    let strings = StringBlock::decode(&[]);
    assert_eq!(frag.name(&strings), Vec::<u8>::new());
}
