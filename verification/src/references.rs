//! The two typed indices that fragments carry.
//!
//! A `StringReference` is a signed offset into the decoded string block and
//! serves as a fragment's name; equality is by raw offset, never by resolved
//! text. A `FragmentRef` is a 1-based position in the fragment directory,
//! with 0 meaning "no reference"; it holds only the integer, never the
//! target, and is resolved against a directory by the caller (see
//! `FragmentRef::resolve`).

use crate::codec::i32_at;
use crate::codec::i32_le_bytes;
use crate::codec::push_i32_le;
use crate::codec::read_i32_at;
use vstd::prelude::*;

verus! {

/// A signed offset into the decoded string block, stored by almost every
/// fragment as its name.
#[derive(Clone, Copy, Debug, PartialEq, Eq, Structural)]
pub struct StringReference {
    /// The raw offset as it appears in the file; non-positive offsets are
    /// the addressable ones, and 0 names the empty string.
    pub offset: i32,
}

impl StringReference {
    /// The 4 bytes this reference occupies in a fragment.
    pub open spec fn serial(self) -> Seq<u8> {
        i32_le_bytes(self.offset)
    }

    pub fn new(offset: i32) -> (r: StringReference)
        ensures
            r.offset == offset,
    {
        StringReference { offset }
    }

    /// Decode the reference stored at byte `pos` of a fragment payload.
    pub fn parse_at(input: &[u8], pos: usize) -> (r: StringReference)
        requires
            pos + 4 <= input@.len(),
        ensures
            r.offset == i32_at(input@, pos as int),
    {
        StringReference { offset: read_i32_at(input, pos) }
    }

    /// Append the reference's 4 little-endian bytes.
    pub fn serialize_into(&self, out: &mut Vec<u8>)
        ensures
            final(out)@ == old(out)@ + self.serial(),
    {
        push_i32_le(out, self.offset);
    }
}

/// A 1-based position in the fragment directory, pointing at another
/// fragment of an expected kind. The integer is the only state: the expected
/// kind is supplied at each resolution call site and is never transmitted.
#[derive(Clone, Copy, Debug, PartialEq, Eq, Structural)]
pub struct FragmentRef {
    /// The raw index as it appears in the file; 1-based, 0 meaning "no
    /// reference".
    pub index: i32,
}

impl FragmentRef {
    /// The 4 bytes this reference occupies in a fragment.
    pub open spec fn serial(self) -> Seq<u8> {
        i32_le_bytes(self.index)
    }

    pub fn new(index: i32) -> (r: FragmentRef)
        ensures
            r.index == index,
    {
        FragmentRef { index }
    }

    /// Decode the reference stored at byte `pos` of a fragment payload.
    pub fn parse_at(input: &[u8], pos: usize) -> (r: FragmentRef)
        requires
            pos + 4 <= input@.len(),
        ensures
            r.index == i32_at(input@, pos as int),
    {
        FragmentRef { index: read_i32_at(input, pos) }
    }

    /// Append the reference's 4 little-endian bytes.
    pub fn serialize_into(&self, out: &mut Vec<u8>)
        ensures
            final(out)@ == old(out)@ + self.serial(),
    {
        push_i32_le(out, self.index);
    }

    /// Serialize the reference on its own, as the external writer sees it.
    pub fn serialize(&self) -> (r: Vec<u8>)
        ensures
            r@ == self.serial(),
            r@.len() == 4,
    {
        let mut out: Vec<u8> = Vec::new();
        self.serialize_into(&mut out);
        proof {
            vstd::bytes::lemma_auto_spec_u32_to_from_le_bytes();
            assert(Seq::<u8>::empty() + self.serial() =~= self.serial());
        }
        out
    }
}

/// Reference transparency: a fragment reference's serialized bytes are
/// exactly the little-endian encoding of the integer it was constructed
/// with. Resolution takes the reference immutably, so whether or how often
/// it was resolved cannot change them.
pub proof fn lemma_reference_transparency(r: FragmentRef)
    ensures
        r.serial() == i32_le_bytes(r.index),
        crate::codec::u32_as_i32(vstd::bytes::spec_u32_from_le_bytes(r.serial())) == r.index,
{
    vstd::bytes::lemma_auto_spec_u32_to_from_le_bytes();
    let u = crate::codec::i32_as_u32(r.index);
    assert(vstd::bytes::spec_u32_to_le_bytes(u).len() == 4);
    assert(vstd::bytes::spec_u32_from_le_bytes(vstd::bytes::spec_u32_to_le_bytes(u)) == u);
    crate::codec::lemma_i32_u32_round_trip(r.index);
}

} // verus!
