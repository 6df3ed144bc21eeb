//! A reference to a polygon-animation fragment.

use crate::codec::i32_at;
use crate::codec::lemma_i32_field_round_trip;
use crate::codec::lemma_subrange_concat;
use crate::codec::lemma_u32_field_round_trip;
use crate::codec::push_u32_le;
use crate::codec::read_u32_at;
use crate::codec::u32_at;
use crate::error::WldError;
use crate::references::FragmentRef;
use crate::references::StringReference;
use vstd::bytes::spec_u32_to_le_bytes;
use vstd::prelude::*;

verus! {

/// The numeric type identifier of this kind in the fragment directory.
pub const TYPE_ID: u32 = 0x18;

/// A reference to a polygon-animation fragment: name reference, one
/// fragment reference, a flags field, and one trailing 32-bit value.
///
/// Bit 0 of `flags` nominally gates the presence of the trailing value, but
/// the format as observed always carries it, so this layout reads and
/// writes it unconditionally regardless of the flag bit.
#[derive(Clone, Copy, Debug, PartialEq, Eq, Structural)]
pub struct PolygonAnimationReferenceFragment {
    pub name_reference: StringReference,
    /// The polygon-animation fragment this record points at, by directory
    /// position.
    pub reference: FragmentRef,
    /// _Unknown_. Bit 0 is documented as gating `params1`; see the type's
    /// note on why the field is carried unconditionally anyway.
    pub flags: u32,
    /// _Unknown_. The raw little-endian bit pattern of the trailing 32-bit
    /// value (an IEEE-754 single in the format); kept as its bit pattern so
    /// that the record round-trips byte-exactly.
    pub params1: u32,
}

impl PolygonAnimationReferenceFragment {
    /// The exact 16-byte layout: name reference, fragment reference, flags,
    /// trailing value.
    pub open spec fn serial(self) -> Seq<u8> {
        self.name_reference.serial() + self.reference.serial() + spec_u32_to_le_bytes(self.flags)
            + spec_u32_to_le_bytes(self.params1)
    }

    /// The value parsing reads from a payload holding the fixed 16 bytes.
    pub open spec fn parsed(input: Seq<u8>) -> PolygonAnimationReferenceFragment
        recommends
            input.len() >= 16,
    {
        PolygonAnimationReferenceFragment {
            name_reference: StringReference { offset: i32_at(input, 0) },
            reference: FragmentRef { index: i32_at(input, 4) },
            flags: u32_at(input, 8),
            params1: u32_at(input, 12),
        }
    }

    /// Round trip: serializing the parsed value reproduces the 16 bytes it
    /// was parsed from.
    pub proof fn lemma_round_trip(input: Seq<u8>)
        requires
            input.len() >= 16,
        ensures
            Self::parsed(input).serial() == input.subrange(0, 16),
    {
        lemma_i32_field_round_trip(input, 0);
        lemma_i32_field_round_trip(input, 4);
        lemma_u32_field_round_trip(input, 8);
        lemma_u32_field_round_trip(input, 12);
        lemma_subrange_concat(input, 0, 4, 8);
        lemma_subrange_concat(input, 0, 8, 12);
        lemma_subrange_concat(input, 0, 12, 16);
    }

    /// Decode the fixed fields, consuming exactly 16 bytes; fails on a
    /// shorter payload without consuming anything.
    pub fn parse(input: &[u8]) -> (r: Result<
        (PolygonAnimationReferenceFragment, usize),
        WldError,
    >)
        ensures
            r is Ok <==> input@.len() >= 16,
            r matches Ok((f, n)) ==> f == Self::parsed(input@) && n == 16 && f.serial()
                == input@.subrange(0, 16),
            r is Err ==> r == Err::<(PolygonAnimationReferenceFragment, usize), WldError>(
                WldError::InsufficientBytes,
            ),
    {
        if input.len() < 16 {
            return Err(WldError::InsufficientBytes);
        }
        let name_reference = StringReference::parse_at(input, 0);
        let reference = FragmentRef::parse_at(input, 4);
        let flags = read_u32_at(input, 8);
        let params1 = read_u32_at(input, 12);
        proof {
            Self::lemma_round_trip(input@);
        }
        Ok((PolygonAnimationReferenceFragment { name_reference, reference, flags, params1 }, 16))
    }

    /// Re-emit the fragment's exact 16-byte layout.
    pub fn serialize(&self) -> (r: Vec<u8>)
        ensures
            r@ == self.serial(),
    {
        let mut out: Vec<u8> = Vec::new();
        self.name_reference.serialize_into(&mut out);
        self.reference.serialize_into(&mut out);
        push_u32_le(&mut out, self.flags);
        push_u32_le(&mut out, self.params1);
        proof {
            assert((((Seq::<u8>::empty() + self.name_reference.serial()) + self.reference.serial())
                + spec_u32_to_le_bytes(self.flags)) + spec_u32_to_le_bytes(self.params1)
                =~= self.serial());
        }
        out
    }

    /// The name this fragment declares.
    pub fn name_ref(&self) -> (r: StringReference)
        ensures
            r == self.name_reference,
    {
        self.name_reference
    }
}

} // verus!
