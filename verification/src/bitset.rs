//! Sets of described bits split into byte chunks.

use vstd::prelude::*;

use core::ops::Range;

verus! {

/// The maximum number of bits a set can describe.
pub const MAX_BITCOUNT: u8 = 64;

/// Byte order of a bit set.
#[derive(Debug, Clone, Copy, PartialEq, Eq, Structural)]
pub enum ByteOrder {
    LittleEndian,
    BigEndian,
}

/// How reserved bits behave.
#[derive(Debug, Clone, Copy, PartialEq, Eq, Structural)]
pub enum BitSetReserved {
    MustBeZero,
    MustBeOne,
    Undefined,
    Ignored,
}

/// Kind of a described range of bits.
pub enum BitSetKind {
    Normal,
    Rsvd(BitSetReserved),
}

/// A described range of bits.
pub struct BitSetDescription {
    spans: Range<u8>,
    kind: BitSetKind,
    name: String,
    short: String,
    long: String,
}

/// A set of described bits, with the indices of its byte chunks.
pub struct BitSet {
    name: String,
    arch: String,
    device: String,
    byte_order: ByteOrder,
    bit_count: u8,
    chunks: Vec<u8>,
    rsvd: BitSetReserved,
    show_rsvd: bool,
    desc: Vec<BitSetDescription>,
}

/// The reasons a bit set is refused.
#[derive(Debug, Clone, Copy, PartialEq, Eq, Structural)]
pub enum BitSetError {
    MissingName,
    MissingArch,
    MissingDevice,
    UnknownArch,
    InvalidBitCount,
    InvalidChunkIndex,
    InvalidChunksLength,
    DuplicateChunkIndex,
}

/// Whether no value occurs twice in `items`.
pub fn has_unique_elements(items: &[u8]) -> (r: bool)
    ensures
        r == items@.no_duplicates(),
{
    // seen[v] tells whether v occurs among the items looked at so far.
    let mut seen: Vec<bool> = Vec::new();
    let mut v: usize = 0;
    while v < 256
        invariant
            v <= 256,
            seen@.len() == v,
            forall|w: int| 0 <= w < v ==> !seen@[w],
        decreases 256 - v,
    {
        seen.push(false);
        v = v + 1;
    }
    let mut i: usize = 0;
    while i < items.len()
        invariant
            i <= items@.len(),
            seen@.len() == 256,
            items@.take(i as int).no_duplicates(),
            forall|w: int|
                0 <= w < 256 ==> (seen@[w] <==> exists|k: int|
                    0 <= k < i && #[trigger] items@[k] == w),
        decreases items@.len() - i,
    {
        let x = items[i];
        if seen[x as usize] {
            proof {
                let k = choose|k: int| 0 <= k < i && #[trigger] items@[k] == x as int;
                assert(items@[k] == items@[i as int]);
            }
            return false;
        }
        seen.set(x as usize, true);
        proof {
            assert forall|a: int, b: int|
                0 <= a < i + 1 && 0 <= b < i + 1 && a != b implies #[trigger] items@.take(i + 1)[a]
                != #[trigger] items@.take(i + 1)[b] by {
                if a < i && b < i {
                    assert(items@.take(i as int)[a] != items@.take(i as int)[b]);
                }
            }
            assert forall|w: int|
                0 <= w < 256 implies (seen@[w] <==> exists|k: int|
                    0 <= k < i + 1 && #[trigger] items@[k] == w) by {
                if w == x as int {
                    assert(items@[i as int] == w);
                }
            }
        }
        i = i + 1;
    }
    assert(items@.take(items@.len() as int) =~= items@);
    true
}

/// The error (if any) of a set of `bit_count` bits with these chunk indices.
pub open spec fn bitset_error(bit_count: u8, chunks: Seq<u8>) -> Option<BitSetError> {
    if bit_count > MAX_BITCOUNT {
        Some(BitSetError::InvalidBitCount)
    } else if chunks.len() >= MAX_BITCOUNT as int {
        Some(BitSetError::InvalidChunksLength)
    } else if !chunks.no_duplicates() {
        Some(BitSetError::DuplicateChunkIndex)
    } else {
        None
    }
}

/// A bit set passes its checks exactly when it has at most 64 bits, fewer
/// than 64 chunk indices, and no chunk index twice.
pub proof fn lemma_bitset_accepted(bit_count: u8, chunks: Seq<u8>)
    ensures
        bitset_error(bit_count, chunks) is None <==> {
            &&& bit_count <= 64
            &&& chunks.len() < 64
            &&& forall|i: int, j: int|
                0 <= i < j < chunks.len() ==> #[trigger] chunks[i] != #[trigger] chunks[j]
        },
{
}

impl BitSet {
    pub closed spec fn spec_bit_count(&self) -> u8 {
        self.bit_count
    }

    pub closed spec fn spec_chunks(&self) -> Seq<u8> {
        self.chunks@
    }
}

/// Checks the bit count and the chunk indices of a bit set.
pub fn validate_bitset(bits: &BitSet) -> (r: Result<(), BitSetError>)
    ensures
        match bitset_error(bits.spec_bit_count(), bits.spec_chunks()) {
            Some(e) => r == Err::<(), BitSetError>(e),
            None => r is Ok,
        },
{
    if bits.bit_count > MAX_BITCOUNT {
        Err(BitSetError::InvalidBitCount)
    } else if bits.chunks.len() >= MAX_BITCOUNT as usize {
        Err(BitSetError::InvalidChunksLength)
    } else if !has_unique_elements(bits.chunks.as_slice()) {
        Err(BitSetError::DuplicateChunkIndex)
    } else {
        Ok(())
    }
}

/// Validates the set; a valid set cannot be formatted yet and is reported as
/// missing its name.
pub fn format_bitset(bits: &BitSet) -> (r: Result<String, BitSetError>)
    ensures
        match bitset_error(bits.spec_bit_count(), bits.spec_chunks()) {
            Some(e) => r == Err::<String, BitSetError>(e),
            None => r == Err::<String, BitSetError>(BitSetError::MissingName),
        },
{
    validate_bitset(bits)?;
    Err(BitSetError::MissingName)
}

} // verus!
