//! A reference to an animated-vertex-set fragment.

use crate::codec::i32_at;
use crate::codec::lemma_i32_field_round_trip;
use crate::codec::lemma_subrange_concat;
use crate::codec::lemma_u32_field_round_trip;
use crate::codec::push_u32_le;
use crate::codec::read_u32_at;
use crate::codec::u32_at;
use crate::error::WldError;
use crate::references::FragmentRef;
use crate::references::StringReference;
use vstd::bytes::spec_u32_to_le_bytes;
use vstd::prelude::*;

verus! {

/// The numeric type identifier of this kind in the fragment directory.
pub const TYPE_ID: u32 = 0x2f;

/// A reference to an animated-vertex-set fragment: name reference, one
/// fragment reference, and one reserved 32-bit field, all fixed-width.
#[derive(Clone, Copy, Debug, PartialEq, Eq, Structural)]
pub struct MeshAnimatedVerticesReferenceFragment {
    pub name_reference: StringReference,
    /// The animated-vertex-set fragment this record points at, by directory
    /// position.
    pub reference: FragmentRef,
    /// _Unknown_. Usually contains 0; preserved byte-for-byte.
    pub flags: u32,
}

impl MeshAnimatedVerticesReferenceFragment {
    /// The exact 12-byte layout: name reference, fragment reference, flags.
    pub open spec fn serial(self) -> Seq<u8> {
        self.name_reference.serial() + self.reference.serial() + spec_u32_to_le_bytes(self.flags)
    }

    /// The value parsing reads from a payload holding the fixed 12 bytes.
    pub open spec fn parsed(input: Seq<u8>) -> MeshAnimatedVerticesReferenceFragment
        recommends
            input.len() >= 12,
    {
        MeshAnimatedVerticesReferenceFragment {
            name_reference: StringReference { offset: i32_at(input, 0) },
            reference: FragmentRef { index: i32_at(input, 4) },
            flags: u32_at(input, 8),
        }
    }

    /// Round trip: serializing the parsed value reproduces the 12 bytes it
    /// was parsed from.
    pub proof fn lemma_round_trip(input: Seq<u8>)
        requires
            input.len() >= 12,
        ensures
            Self::parsed(input).serial() == input.subrange(0, 12),
    {
        lemma_i32_field_round_trip(input, 0);
        lemma_i32_field_round_trip(input, 4);
        lemma_u32_field_round_trip(input, 8);
        lemma_subrange_concat(input, 0, 4, 8);
        lemma_subrange_concat(input, 0, 8, 12);
    }

    /// Decode the fixed fields, consuming exactly 12 bytes; fails on a
    /// shorter payload without consuming anything.
    pub fn parse(input: &[u8]) -> (r: Result<
        (MeshAnimatedVerticesReferenceFragment, usize),
        WldError,
    >)
        ensures
            r is Ok <==> input@.len() >= 12,
            r matches Ok((f, n)) ==> f == Self::parsed(input@) && n == 12 && f.serial()
                == input@.subrange(0, 12),
            r is Err ==> r == Err::<(MeshAnimatedVerticesReferenceFragment, usize), WldError>(
                WldError::InsufficientBytes,
            ),
    {
        if input.len() < 12 {
            return Err(WldError::InsufficientBytes);
        }
        let name_reference = StringReference::parse_at(input, 0);
        let reference = FragmentRef::parse_at(input, 4);
        let flags = read_u32_at(input, 8);
        proof {
            Self::lemma_round_trip(input@);
        }
        Ok((MeshAnimatedVerticesReferenceFragment { name_reference, reference, flags }, 12))
    }

    /// Re-emit the fragment's exact 12-byte layout.
    pub fn serialize(&self) -> (r: Vec<u8>)
        ensures
            r@ == self.serial(),
    {
        let mut out: Vec<u8> = Vec::new();
        self.name_reference.serialize_into(&mut out);
        self.reference.serialize_into(&mut out);
        push_u32_le(&mut out, self.flags);
        proof {
            assert(((Seq::<u8>::empty() + self.name_reference.serial()) + self.reference.serial())
                + spec_u32_to_le_bytes(self.flags) =~= self.serial());
        }
        out
    }

    /// The name this fragment declares.
    pub fn name_ref(&self) -> (r: StringReference)
        ensures
            r == self.name_reference,
    {
        self.name_reference
    }
}

} // verus!
