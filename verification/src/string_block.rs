//! The shared string block.
//!
//! A world file holds one obfuscated blob of text that every fragment's name
//! field points into. The obfuscation is a byte-wise XOR with a rolling
//! 8-byte mask, so it is its own inverse: decoding is applying the mask, and
//! re-encoding a decoded block reproduces the original raw bytes exactly.
//! Text is addressed by non-positive signed offsets: offset `o` names the
//! null-terminated run starting at position `-o` of the decoded buffer.

use crate::error::WldError;
use vstd::prelude::*;
use vstd::slice::slice_index_get;

verus! {

/// The mask byte applied at position `i` of the block.
pub open spec fn mask_byte(i: int) -> u8 {
    let k = i % 8;
    if k == 0 {
        0x95
    } else if k == 1 {
        0x3A
    } else if k == 2 {
        0xC5
    } else if k == 3 {
        0x2A
    } else if k == 4 {
        0x95
    } else if k == 5 {
        0x7A
    } else if k == 6 {
        0x95
    } else {
        0x6A
    }
}

/// A block with the rolling mask applied. Deobfuscation and re-obfuscation
/// are both this one transform, which is length-preserving.
pub open spec fn xor_masked(b: Seq<u8>) -> Seq<u8> {
    Seq::new(b.len(), |i: int| b[i] ^ mask_byte(i))
}

/// The null-terminated run starting at `pos` of a decoded block: the bytes up
/// to but not including the first null, or up to the end of the block if no
/// null follows.
pub open spec fn text_run(data: Seq<u8>, pos: int) -> Seq<u8>
    recommends
        0 <= pos <= data.len(),
    decreases data.len() - pos,
{
    if pos < 0 || pos >= data.len() {
        Seq::empty()
    } else if data[pos] == 0 {
        Seq::empty()
    } else {
        seq![data[pos]] + text_run(data, pos + 1)
    }
}

/// The mask byte at position `i`.
fn mask_byte_at(i: usize) -> (r: u8)
    ensures
        r == mask_byte(i as int),
{
    let k = i % 8;
    if k == 0 {
        0x95
    } else if k == 1 {
        0x3A
    } else if k == 2 {
        0xC5
    } else if k == 3 {
        0x2A
    } else if k == 4 {
        0x95
    } else if k == 5 {
        0x7A
    } else if k == 6 {
        0x95
    } else {
        0x6A
    }
}

/// Apply the rolling mask to a whole buffer.
fn apply_mask(b: &[u8]) -> (r: Vec<u8>)
    ensures
        r@ == xor_masked(b@),
{
    let len: usize = b.len();
    let mut out: Vec<u8> = Vec::new();
    let mut i: usize = 0;
    while i < len
        invariant
            i <= len,
            len == b@.len(),
            out@.len() == i,
            forall|k: int| 0 <= k < i ==> out@[k] == b@[k] ^ mask_byte(k),
        decreases len - i,
    {
        let m = mask_byte_at(i);
        let x = *slice_index_get(b, i) ^ m;
        out.push(x);
        i += 1;
    }
    proof {
        assert(out@ =~= xor_masked(b@));
    }
    out
}

/// The decoded string block of one world file.
///
/// Built exactly once per file from the raw obfuscated bytes; addressed by
/// the signed offsets that fragments carry as name references. In a block
/// produced by a compliant writer the first byte is null, so offset 0 always
/// resolves to the empty string.
pub struct StringBlock {
    data: Vec<u8>,
}

impl View for StringBlock {
    type V = Seq<u8>;

    closed spec fn view(&self) -> Seq<u8> {
        self.data@
    }
}

impl StringBlock {
    /// Deobfuscate a raw block. The decoded buffer has the raw block's
    /// length, each byte XOR-ed with the rolling mask.
    pub fn decode(raw: &[u8]) -> (r: StringBlock)
        ensures
            r@ == xor_masked(raw@),
            r@.len() == raw@.len(),
    {
        StringBlock { data: apply_mask(raw) }
    }

    /// Re-obfuscate the decoded buffer; for any block this reproduces the
    /// raw bytes it was decoded from (see `lemma_mask_involution`).
    pub fn encode(&self) -> (r: Vec<u8>)
        ensures
            r@ == xor_masked(self@),
    {
        apply_mask(self.data.as_slice())
    }

    /// The length of the decoded buffer.
    pub fn len(&self) -> (n: usize)
        ensures
            n == self@.len(),
    {
        self.data.len()
    }

    /// The text named by a string reference offset: the null-terminated run
    /// starting at position `-offset` of the decoded buffer. Positions from
    /// 0 through the block length are addressable (the position one past the
    /// end names the empty run); any other offset is out of range.
    pub fn text_at(&self, offset: i32) -> (r: Result<Vec<u8>, WldError>)
        ensures
            r is Ok <==> 0 <= -(offset as int) <= self@.len(),
            r matches Ok(t) ==> t@ == text_run(self@, -(offset as int)),
            r is Err ==> r == Err::<Vec<u8>, WldError>(WldError::OffsetOutOfRange),
    {
        if offset > 0 {
            return Err(WldError::OffsetOutOfRange);
        }
        let pos_wide: u64 = (-(offset as i64)) as u64;
        let len: usize = self.data.len();
        if pos_wide > (len as u64) {
            return Err(WldError::OffsetOutOfRange);
        }
        let pos: usize = pos_wide as usize;
        let mut out: Vec<u8> = Vec::new();
        let mut cur: usize = pos;
        while cur < len && self.data[cur] != 0
            invariant
                pos <= cur <= len,
                len == self@.len(),
                text_run(self@, pos as int) == out@ + text_run(self@, cur as int),
            decreases len - cur,
        {
            let x = self.data[cur];
            proof {
                assert(text_run(self@, cur as int) == seq![x] + text_run(self@, cur as int + 1));
                assert((out@ + seq![x]) + text_run(self@, cur as int + 1) =~= out@ + (seq![x]
                    + text_run(self@, cur as int + 1)));
            }
            out.push(x);
            cur += 1;
        }
        proof {
            assert(text_run(self@, cur as int) =~= Seq::<u8>::empty());
            assert(out@ + Seq::<u8>::empty() =~= out@);
        }
        Ok(out)
    }
}

/// Decoding the same raw block twice yields identical decoded buffers and
/// identical text lookups at every position.
pub proof fn lemma_string_decode_idempotent(raw: Seq<u8>, a: StringBlock, b: StringBlock)
    requires
        a@ == xor_masked(raw),
        b@ == xor_masked(raw),
    ensures
        a@ == b@,
        forall|pos: int| text_run(a@, pos) == text_run(b@, pos),
{
}

/// The rolling mask is its own inverse: re-obfuscating a decoded block
/// reproduces the original raw bytes.
pub proof fn lemma_mask_involution(raw: Seq<u8>)
    ensures
        xor_masked(xor_masked(raw)) == raw,
{
    assert forall|i: int| 0 <= i < raw.len() implies xor_masked(xor_masked(raw))[i] == raw[i] by {
        let m = mask_byte(i);
        let x = raw[i];
        assert((x ^ m) ^ m == x) by (bit_vector);
    }
    assert(xor_masked(xor_masked(raw)) =~= raw);
}

/// In a compliant block (empty, or starting with a null byte) offset 0
/// resolves to the empty string.
pub proof fn lemma_offset_zero_empty(data: Seq<u8>)
    requires
        data.len() == 0 || data[0] == 0,
    ensures
        text_run(data, 0) == Seq::<u8>::empty(),
{
}

} // verus!
