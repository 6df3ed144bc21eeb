//! The animated-vertex-set fragment.

use crate::codec::i16_at;
use crate::codec::i16_le_bytes;
use crate::codec::i32_at;
use crate::codec::lemma_i16_field_round_trip;
use crate::codec::lemma_i32_field_round_trip;
use crate::codec::lemma_subrange_concat;
use crate::codec::lemma_u16_field_round_trip;
use crate::codec::lemma_u32_field_round_trip;
use crate::codec::push_i16_le;
use crate::codec::push_u16_le;
use crate::codec::push_u32_le;
use crate::codec::read_i16_at;
use crate::codec::read_u16_at;
use crate::codec::read_u32_at;
use crate::codec::u16_at;
use crate::codec::u32_at;
use crate::error::WldError;
use crate::references::StringReference;
use vstd::bytes::spec_u16_to_le_bytes;
use vstd::bytes::spec_u32_to_le_bytes;
use vstd::prelude::*;

verus! {

/// The numeric type identifier of this kind in the fragment directory.
pub const TYPE_ID: u32 = 0x37;

/// The flat little-endian bytes of the per-frame values.
pub open spec fn frames_bytes(frames: Seq<u32>) -> Seq<u8>
    decreases frames.len(),
{
    if frames.len() == 0 {
        Seq::empty()
    } else {
        frames_bytes(frames.drop_last()) + spec_u32_to_le_bytes(frames.last())
    }
}

/// The 6 little-endian bytes of one vertex triple.
pub open spec fn vertex_bytes(v: (i16, i16, i16)) -> Seq<u8> {
    i16_le_bytes(v.0) + i16_le_bytes(v.1) + i16_le_bytes(v.2)
}

/// The flat little-endian bytes of the vertex triples.
pub open spec fn vertices_bytes(vs: Seq<(i16, i16, i16)>) -> Seq<u8>
    decreases vs.len(),
{
    if vs.len() == 0 {
        Seq::empty()
    } else {
        vertices_bytes(vs.drop_last()) + vertex_bytes(vs.last())
    }
}

/// Frame values read at stride 4 from `base` re-encode to the bytes they
/// were read from.
pub proof fn lemma_frames_bytes_of_input(b: Seq<u8>, base: int, frames: Seq<u32>)
    requires
        0 <= base,
        base + 4 * frames.len() <= b.len(),
        forall|j: int| 0 <= j < frames.len() ==> frames[j] == u32_at(b, base + 4 * j),
    ensures
        frames_bytes(frames) == b.subrange(base, base + 4 * frames.len()),
    decreases frames.len(),
{
    if frames.len() == 0 {
        assert(frames_bytes(frames) =~= b.subrange(base, base));
    } else {
        let m = frames.len() - 1;
        assert(forall|j: int| 0 <= j < m ==> frames.drop_last()[j] == frames[j]);
        lemma_frames_bytes_of_input(b, base, frames.drop_last());
        assert(frames.last() == u32_at(b, base + 4 * m));
        lemma_u32_field_round_trip(b, base + 4 * m);
        lemma_subrange_concat(b, base, base + 4 * m, base + 4 * frames.len());
    }
}

/// Vertex triples read at stride 6 from `base` re-encode to the bytes they
/// were read from.
pub proof fn lemma_vertices_bytes_of_input(b: Seq<u8>, base: int, vs: Seq<(i16, i16, i16)>)
    requires
        0 <= base,
        base + 6 * vs.len() <= b.len(),
        forall|j: int| 0 <= j < vs.len() ==> vs[j] == (
            i16_at(b, base + 6 * j),
            i16_at(b, base + 6 * j + 2),
            i16_at(b, base + 6 * j + 4),
        ),
    ensures
        vertices_bytes(vs) == b.subrange(base, base + 6 * vs.len()),
    decreases vs.len(),
{
    if vs.len() == 0 {
        assert(vertices_bytes(vs) =~= b.subrange(base, base));
    } else {
        let m = vs.len() - 1;
        assert(forall|j: int| 0 <= j < m ==> vs.drop_last()[j] == vs[j]);
        lemma_vertices_bytes_of_input(b, base, vs.drop_last());
        assert(vs.last() == (
            i16_at(b, base + 6 * m),
            i16_at(b, base + 6 * m + 2),
            i16_at(b, base + 6 * m + 4),
        ));
        lemma_i16_field_round_trip(b, base + 6 * m);
        lemma_i16_field_round_trip(b, base + 6 * m + 2);
        lemma_i16_field_round_trip(b, base + 6 * m + 4);
        lemma_subrange_concat(b, base + 6 * m, base + 6 * m + 2, base + 6 * m + 4);
        lemma_subrange_concat(b, base + 6 * m, base + 6 * m + 4, base + 6 * m + 6);
        lemma_subrange_concat(b, base, base + 6 * m, base + 6 * vs.len());
    }
}

/// Sets of vertex values to be substituted for the vertex values of a mesh
/// while it is animated: one set of `vertex_count` vertices per animation
/// frame. A fixed header carries the two counts; the two repeated sections
/// that follow are sized by those counts alone, never inferred from the
/// remaining input length.
#[derive(Debug, PartialEq)]
pub struct MeshAnimatedVerticesFragment {
    pub name_reference: StringReference,
    /// _Unknown_. Usually contains 0; preserved byte-for-byte.
    pub flags: u32,
    /// Should equal the number of vertices in the mesh this set animates.
    pub vertex_count: u16,
    /// The number of animation frames.
    pub frame_count: u16,
    /// _Unknown_. Usually contains 100; preserved byte-for-byte.
    pub param1: u16,
    /// _Unknown_. Usually contains 0; preserved byte-for-byte.
    pub param2: u16,
    /// Vertex components are stored multiplied by two to this power.
    pub scale: u16,
    /// One value per animation frame; there are `frame_count` of these.
    pub frames: Vec<u32>,
    /// Scaled vertex components; there are `vertex_count` of these.
    pub vertices: Vec<(i16, i16, i16)>,
    /// _Unknown_. Usually contains 0; preserved byte-for-byte.
    pub size6: u16,
}

impl MeshAnimatedVerticesFragment {
    /// The fixed 18-byte header: name reference, flags, the two counts,
    /// two reserved values, and the scale.
    pub open spec fn header_serial(self) -> Seq<u8> {
        self.name_reference.serial() + spec_u32_to_le_bytes(self.flags) + spec_u16_to_le_bytes(
            self.vertex_count,
        ) + spec_u16_to_le_bytes(self.frame_count) + spec_u16_to_le_bytes(self.param1)
            + spec_u16_to_le_bytes(self.param2) + spec_u16_to_le_bytes(self.scale)
    }

    /// The exact byte layout: header, frame values, vertex triples, and the
    /// trailing reserved 16-bit field.
    pub open spec fn serial(self) -> Seq<u8> {
        self.header_serial() + frames_bytes(self.frames@) + vertices_bytes(self.vertices@)
            + spec_u16_to_le_bytes(self.size6)
    }

    /// The number of bytes the record declares through its two counts.
    pub open spec fn total_len(input: Seq<u8>) -> int
        recommends
            input.len() >= 18,
    {
        20 + 4 * (u16_at(input, 10) as int) + 6 * (u16_at(input, 8) as int)
    }

    /// Whether a payload holds the whole declared record: the fixed header,
    /// and as many repeated elements as the header's counts declare.
    pub open spec fn parse_ok(input: Seq<u8>) -> bool {
        input.len() >= 18 && input.len() >= Self::total_len(input)
    }

    /// The frame values a payload declares.
    pub open spec fn frames_spec(input: Seq<u8>) -> Seq<u32> {
        Seq::new(u16_at(input, 10) as nat, |j: int| u32_at(input, 18 + 4 * j))
    }

    /// The vertex triples a payload declares.
    pub open spec fn vertices_spec(input: Seq<u8>) -> Seq<(i16, i16, i16)> {
        let vb = 18 + 4 * (u16_at(input, 10) as int);
        Seq::new(
            u16_at(input, 8) as nat,
            |j: int| (i16_at(input, vb + 6 * j), i16_at(input, vb + 6 * j + 2), i16_at(input, vb + 6 * j + 4)),
        )
    }

    /// The relation between a payload and the fragment parsed from it:
    /// every field holds exactly what the payload declares for it.
    pub open spec fn parsed(input: Seq<u8>, f: MeshAnimatedVerticesFragment) -> bool {
        &&& f.name_reference.offset == i32_at(input, 0)
        &&& f.flags == u32_at(input, 4)
        &&& f.vertex_count == u16_at(input, 8)
        &&& f.frame_count == u16_at(input, 10)
        &&& f.param1 == u16_at(input, 12)
        &&& f.param2 == u16_at(input, 14)
        &&& f.scale == u16_at(input, 16)
        &&& f.frames@ == Self::frames_spec(input)
        &&& f.vertices@ == Self::vertices_spec(input)
        &&& f.size6 == u16_at(input, Self::total_len(input) - 2)
    }

    /// Round trip: a fragment whose fields are exactly what a payload
    /// declares serializes back to the bytes the parse consumed.
    pub proof fn lemma_round_trip(input: Seq<u8>, f: MeshAnimatedVerticesFragment)
        requires
            Self::parse_ok(input),
            Self::parsed(input, f),
        ensures
            f.serial() == input.subrange(0, Self::total_len(input)),
    {
        let fc = u16_at(input, 10) as int;
        let vc = u16_at(input, 8) as int;
        let vb = 18 + 4 * fc;
        let total = Self::total_len(input);
        lemma_i32_field_round_trip(input, 0);
        lemma_u32_field_round_trip(input, 4);
        lemma_u16_field_round_trip(input, 8);
        lemma_u16_field_round_trip(input, 10);
        lemma_u16_field_round_trip(input, 12);
        lemma_u16_field_round_trip(input, 14);
        lemma_u16_field_round_trip(input, 16);
        lemma_subrange_concat(input, 0, 4, 8);
        lemma_subrange_concat(input, 0, 8, 10);
        lemma_subrange_concat(input, 0, 10, 12);
        lemma_subrange_concat(input, 0, 12, 14);
        lemma_subrange_concat(input, 0, 14, 16);
        lemma_subrange_concat(input, 0, 16, 18);
        assert(f.header_serial() == input.subrange(0, 18));
        assert(forall|j: int| 0 <= j < fc ==> f.frames@[j] == u32_at(input, 18 + 4 * j));
        lemma_frames_bytes_of_input(input, 18, f.frames@);
        lemma_subrange_concat(input, 0, 18, vb);
        assert(forall|j: int| 0 <= j < vc ==> f.vertices@[j] == (
            i16_at(input, vb + 6 * j),
            i16_at(input, vb + 6 * j + 2),
            i16_at(input, vb + 6 * j + 4),
        ));
        lemma_vertices_bytes_of_input(input, vb, f.vertices@);
        lemma_subrange_concat(input, 0, vb, vb + 6 * vc);
        lemma_u16_field_round_trip(input, total - 2);
        lemma_subrange_concat(input, 0, total - 2, total);
    }

    /// Decode the header, then exactly as many frame values and vertex
    /// triples as the header's counts declare, then the trailing reserved
    /// field. Fails without consuming anything if the input is shorter than
    /// the fixed header or than the declared total.
    pub fn parse(input: &[u8]) -> (r: Result<(MeshAnimatedVerticesFragment, usize), WldError>)
        ensures
            r is Ok <==> Self::parse_ok(input@),
            r matches Ok((f, n)) ==> {
                &&& n == Self::total_len(input@)
                &&& Self::parsed(input@, f)
                &&& f.serial() == input@.subrange(0, n as int)
            },
            r is Err ==> r == Err::<(MeshAnimatedVerticesFragment, usize), WldError>(
                WldError::InsufficientBytes,
            ),
    {
        let len: usize = input.len();
        if len < 18 {
            return Err(WldError::InsufficientBytes);
        }
        let name_reference = StringReference::parse_at(input, 0);
        let flags = read_u32_at(input, 4);
        let vertex_count = read_u16_at(input, 8);
        let frame_count = read_u16_at(input, 10);
        let param1 = read_u16_at(input, 12);
        let param2 = read_u16_at(input, 14);
        let scale = read_u16_at(input, 16);
        let fc: usize = frame_count as usize;
        let vc: usize = vertex_count as usize;
        let total: usize = 20 + 4 * fc + 6 * vc;
        if len < total {
            return Err(WldError::InsufficientBytes);
        }
        let mut frames: Vec<u32> = Vec::new();
        let mut j: usize = 0;
        while j < fc
            invariant
                j <= fc,
                fc == u16_at(input@, 10) as usize,
                len == input@.len(),
                18 + 4 * fc + 2 <= len,
                frames@.len() == j,
                forall|k: int| 0 <= k < j ==> frames@[k] == u32_at(input@, 18 + 4 * k),
            decreases fc - j,
        {
            let v = read_u32_at(input, 18 + 4 * j);
            frames.push(v);
            j += 1;
        }
        proof {
            assert(frames@ =~= Self::frames_spec(input@));
        }
        let vb: usize = 18 + 4 * fc;
        let mut vertices: Vec<(i16, i16, i16)> = Vec::new();
        j = 0;
        while j < vc
            invariant
                j <= vc,
                vc == u16_at(input@, 8) as usize,
                fc == u16_at(input@, 10) as usize,
                vb == 18 + 4 * fc,
                len == input@.len(),
                vb + 6 * vc + 2 <= len,
                vertices@.len() == j,
                forall|k: int| 0 <= k < j ==> vertices@[k] == (
                    i16_at(input@, vb + 6 * k),
                    i16_at(input@, vb + 6 * k + 2),
                    i16_at(input@, vb + 6 * k + 4),
                ),
            decreases vc - j,
        {
            let x = read_i16_at(input, vb + 6 * j);
            let y = read_i16_at(input, vb + 6 * j + 2);
            let z = read_i16_at(input, vb + 6 * j + 4);
            vertices.push((x, y, z));
            j += 1;
        }
        proof {
            assert(vertices@ =~= Self::vertices_spec(input@));
        }
        let size6 = read_u16_at(input, vb + 6 * vc);
        let f = MeshAnimatedVerticesFragment {
            name_reference,
            flags,
            vertex_count,
            frame_count,
            param1,
            param2,
            scale,
            frames,
            vertices,
            size6,
        };
        proof {
            Self::lemma_round_trip(input@, f);
        }
        Ok((f, total))
    }

    /// Re-emit every field in the exact order and width the parse consumed,
    /// the unknown ones included.
    pub fn serialize(&self) -> (r: Vec<u8>)
        ensures
            r@ == self.serial(),
    {
        let mut out: Vec<u8> = Vec::new();
        self.name_reference.serialize_into(&mut out);
        push_u32_le(&mut out, self.flags);
        push_u16_le(&mut out, self.vertex_count);
        push_u16_le(&mut out, self.frame_count);
        push_u16_le(&mut out, self.param1);
        push_u16_le(&mut out, self.param2);
        push_u16_le(&mut out, self.scale);
        proof {
            assert(Seq::<u8>::empty() + self.name_reference.serial()
                =~= self.name_reference.serial());
            assert(out@ == self.header_serial());
            assert(self.frames@.subrange(0, 0) =~= Seq::<u32>::empty());
            assert(out@ + frames_bytes(self.frames@.subrange(0, 0)) =~= out@);
        }
        let fc: usize = self.frames.len();
        let mut j: usize = 0;
        while j < fc
            invariant
                j <= fc,
                fc == self.frames@.len(),
                out@ == self.header_serial() + frames_bytes(self.frames@.subrange(0, j as int)),
            decreases fc - j,
        {
            let v = self.frames[j];
            proof {
                let pre = self.frames@.subrange(0, j as int);
                let post = self.frames@.subrange(0, j as int + 1);
                assert(post.drop_last() =~= pre);
                assert(post.last() == self.frames@[j as int]);
                assert((self.header_serial() + frames_bytes(pre)) + spec_u32_to_le_bytes(v)
                    =~= self.header_serial() + (frames_bytes(pre) + spec_u32_to_le_bytes(v)));
            }
            push_u32_le(&mut out, v);
            j += 1;
        }
        proof {
            assert(self.frames@.subrange(0, self.frames@.len() as int) =~= self.frames@);
            assert(self.vertices@.subrange(0, 0) =~= Seq::<(i16, i16, i16)>::empty());
            assert(out@ + vertices_bytes(self.vertices@.subrange(0, 0)) =~= out@);
        }
        let vc: usize = self.vertices.len();
        j = 0;
        while j < vc
            invariant
                j <= vc,
                vc == self.vertices@.len(),
                out@ == (self.header_serial() + frames_bytes(self.frames@)) + vertices_bytes(
                    self.vertices@.subrange(0, j as int),
                ),
            decreases vc - j,
        {
            let v = self.vertices[j];
            proof {
                let pre = self.vertices@.subrange(0, j as int);
                let post = self.vertices@.subrange(0, j as int + 1);
                assert(post.drop_last() =~= pre);
                assert(post.last() == self.vertices@[j as int]);
                let head = (self.header_serial() + frames_bytes(self.frames@)) + vertices_bytes(
                    pre,
                );
                assert(((head + i16_le_bytes(v.0)) + i16_le_bytes(v.1)) + i16_le_bytes(v.2)
                    =~= head + vertex_bytes(v));
            }
            push_i16_le(&mut out, v.0);
            push_i16_le(&mut out, v.1);
            push_i16_le(&mut out, v.2);
            j += 1;
        }
        proof {
            assert(self.vertices@.subrange(0, self.vertices@.len() as int) =~= self.vertices@);
        }
        push_u16_le(&mut out, self.size6);
        out
    }

    /// The name this fragment declares.
    pub fn name_ref(&self) -> (r: StringReference)
        ensures
            r == self.name_reference,
    {
        self.name_reference
    }
}

} // verus!
