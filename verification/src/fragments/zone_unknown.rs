//! The zero-field zone record.

use crate::error::WldError;
use crate::string_block::StringBlock;
use vstd::prelude::*;

verus! {

/// The numeric type identifier of this kind in the fragment directory.
pub const TYPE_ID: u32 = 0x16;

/// _Unknown_. The format declares this record kind with no fields at all:
/// parsing consumes zero bytes and always succeeds, serializing emits zero
/// bytes, and the record carries no name reference.
#[derive(Clone, Copy, Debug, PartialEq, Eq, Structural)]
pub struct ZoneUnknownFragment {}

impl ZoneUnknownFragment {
    /// The exact byte layout: empty.
    pub open spec fn serial(self) -> Seq<u8> {
        Seq::empty()
    }

    /// Decode the record: any payload is accepted, including an empty one,
    /// and zero bytes are consumed.
    pub fn parse(input: &[u8]) -> (r: Result<(ZoneUnknownFragment, usize), WldError>)
        ensures
            r matches Ok((f, n)) && f == (ZoneUnknownFragment {  }) && n == 0 && f.serial()
                == input@.subrange(0, 0),
    {
        proof {
            assert(Seq::<u8>::empty() =~= input@.subrange(0, 0));
        }
        Ok((ZoneUnknownFragment {  }, 0))
    }

    /// Re-emit the record's exact layout: zero bytes.
    pub fn serialize(&self) -> (r: Vec<u8>)
        ensures
            r@ == self.serial(),
    {
        Vec::new()
    }

    /// This kind declares no name reference field, so its name is always
    /// empty, whatever the string block holds.
    pub fn name(&self, _strings: &StringBlock) -> (r: Vec<u8>)
        ensures
            r@ == Seq::<u8>::empty(),
    {
        Vec::new()
    }
}

} // verus!
