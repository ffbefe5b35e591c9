//! Groups of described bits split into byte chunks, and the binary
//! renderings used to show them.

use vstd::prelude::*;

use core::ops::Range;

use crate::bitset::has_unique_elements;
use crate::spcregs::utils::{binary_ruler, binary_width, spaced_binary};

verus! {

/// The maximum number of bits a group can describe.
pub const MAX_BITCOUNT: u8 = 64;

/// Byte order of a bit group.
#[derive(Debug, Clone, Copy, PartialEq, Eq, Structural)]
pub enum ByteOrder {
    LittleEndian,
    BigEndian,
}

/// A described range of bits.
#[derive(Debug)]
pub struct BitGroupDescriptor {
    spans: Range<u8>,
    kind: BitGroupKind,
    name: String,
    short: String,
    long: String,
}

impl BitGroupDescriptor {
    pub fn new(spans: Range<u8>, kind: BitGroupKind, name: String, short: String, long: String) -> (r:
        Self)
        ensures
            r.spec_spans() == spans,
            r.spec_kind() == kind,
            r.spec_name() == name@,
            r.spec_short() == short@,
            r.spec_long() == long@,
    {
        BitGroupDescriptor { spans, kind, name, short, long }
    }

    pub closed spec fn spec_spans(&self) -> Range<u8> {
        self.spans
    }

    pub closed spec fn spec_kind(&self) -> BitGroupKind {
        self.kind
    }

    pub closed spec fn spec_name(&self) -> Seq<char> {
        self.name@
    }

    pub closed spec fn spec_short(&self) -> Seq<char> {
        self.short@
    }

    pub closed spec fn spec_long(&self) -> Seq<char> {
        self.long@
    }
}

/// How reserved bits behave.
#[derive(Debug, Clone, Copy, PartialEq, Eq, Structural)]
pub enum BitGroupReserved {
    MustBeZero,
    MustBeOne,
    Undefined,
    Ignored,
}

/// Kind of a described range of bits.
#[derive(Debug, Clone, Copy, PartialEq, Eq, Structural)]
pub enum BitGroupKind {
    Normal,
    Reserved(BitGroupReserved),
}

/// A group of described bits, with the indices of its byte chunks.
#[derive(Debug)]
pub struct BitGroup {
    name: String,
    arch: String,
    device: String,
    byte_order: ByteOrder,
    bit_count: u8,
    chunks: Vec<u8>,
    rsvd: BitGroupReserved,
    show_rsvd: bool,
    desc: Vec<BitGroupDescriptor>,
}

impl BitGroup {
    /// A group whose reserved bits must be zero and are not shown.
    pub fn new(
        name: String,
        arch: String,
        device: String,
        byte_order: ByteOrder,
        bit_count: u8,
        chunks: Vec<u8>,
        desc: Vec<BitGroupDescriptor>,
    ) -> (r: Self)
        ensures
            r.spec_name() == name@,
            r.spec_arch() == arch@,
            r.spec_device() == device@,
            r.spec_byte_order() == byte_order,
            r.spec_bit_count() == bit_count,
            r.spec_chunks() == chunks@,
            r.spec_rsvd() == BitGroupReserved::MustBeZero,
            !r.spec_show_rsvd(),
            r.spec_desc() == desc@,
    {
        BitGroup {
            name,
            arch,
            device,
            byte_order,
            bit_count,
            chunks,
            rsvd: BitGroupReserved::MustBeZero,
            show_rsvd: false,
            desc,
        }
    }

    pub closed spec fn spec_name(&self) -> Seq<char> {
        self.name@
    }

    pub closed spec fn spec_arch(&self) -> Seq<char> {
        self.arch@
    }

    pub closed spec fn spec_device(&self) -> Seq<char> {
        self.device@
    }

    pub closed spec fn spec_byte_order(&self) -> ByteOrder {
        self.byte_order
    }

    pub closed spec fn spec_bit_count(&self) -> u8 {
        self.bit_count
    }

    pub closed spec fn spec_chunks(&self) -> Seq<u8> {
        self.chunks@
    }

    pub closed spec fn spec_rsvd(&self) -> BitGroupReserved {
        self.rsvd
    }

    pub closed spec fn spec_show_rsvd(&self) -> bool {
        self.show_rsvd
    }

    pub closed spec fn spec_desc(&self) -> Seq<BitGroupDescriptor> {
        self.desc@
    }
}

/// The reasons a bit group is refused.
#[derive(Debug, Clone, Copy, PartialEq, Eq, Structural)]
pub enum BitGroupError {
    MissingName,
    MissingArch,
    MissingDevice,
    UnknownArch,
    InvalidBitCount,
    InvalidChunkIndex,
    InvalidChunksLength,
    DuplicateChunkIndex,
    MissingDescription,
}

impl BitGroupError {
    /// The human-readable text of the error.
    pub open spec fn spec_message(&self) -> Seq<char> {
        match self {
            BitGroupError::MissingName => "missing name"@,
            BitGroupError::MissingArch => "missing architecture"@,
            BitGroupError::MissingDevice => "missing device"@,
            BitGroupError::UnknownArch => "unknown architecture"@,
            BitGroupError::InvalidBitCount => "invalid number of bits"@,
            BitGroupError::InvalidChunkIndex => "invalid index in chunks'"@,
            BitGroupError::InvalidChunksLength => "invalid number of chunks"@,
            BitGroupError::DuplicateChunkIndex => "duplicate index in chunks"@,
            BitGroupError::MissingDescription => "missing description"@,
        }
    }

    /// The human-readable text of the error.
    pub fn message(&self) -> (r: &'static str)
        ensures
            r@ == self.spec_message(),
    {
        match self {
            BitGroupError::MissingName => "missing name",
            BitGroupError::MissingArch => "missing architecture",
            BitGroupError::MissingDevice => "missing device",
            BitGroupError::UnknownArch => "unknown architecture",
            BitGroupError::InvalidBitCount => "invalid number of bits",
            BitGroupError::InvalidChunkIndex => "invalid index in chunks'",
            BitGroupError::InvalidChunksLength => "invalid number of chunks",
            BitGroupError::DuplicateChunkIndex => "duplicate index in chunks",
            BitGroupError::MissingDescription => "missing description",
        }
    }
}

/// The error (if any) of a group: too many bits, too many chunks, a
/// repeated chunk index, or no description, checked in that order.
pub open spec fn bit_group_error(bit_count: u8, chunks: Seq<u8>, desc_len: nat) -> Option<
    BitGroupError,
> {
    if bit_count > MAX_BITCOUNT {
        Some(BitGroupError::InvalidBitCount)
    } else if chunks.len() >= MAX_BITCOUNT as int {
        Some(BitGroupError::InvalidChunksLength)
    } else if !chunks.no_duplicates() {
        Some(BitGroupError::DuplicateChunkIndex)
    } else if desc_len == 0 {
        Some(BitGroupError::MissingDescription)
    } else {
        None
    }
}

/// A group is accepted exactly when it has at most 64 bits, fewer than 64
/// chunk indices, no chunk index twice, and at least one described range.
pub proof fn lemma_bit_group_accepted(bit_count: u8, chunks: Seq<u8>, desc_len: nat)
    ensures
        bit_group_error(bit_count, chunks, desc_len) is None <==> {
            &&& bit_count <= 64
            &&& chunks.len() < 64
            &&& forall|i: int, j: int|
                0 <= i < j < chunks.len() ==> #[trigger] chunks[i] != #[trigger] chunks[j]
            &&& desc_len > 0
        },
{
}

/// Checks a bit group; see `bit_group_error`.
pub fn validate_bit_group(bits: &BitGroup) -> (r: Result<(), BitGroupError>)
    ensures
        match bit_group_error(bits.spec_bit_count(), bits.spec_chunks(), bits.spec_desc().len()) {
            Some(e) => r == Err::<(), BitGroupError>(e),
            None => r is Ok,
        },
{
    if bits.bit_count > MAX_BITCOUNT {
        Err(BitGroupError::InvalidBitCount)
    } else if bits.chunks.len() >= MAX_BITCOUNT as usize {
        Err(BitGroupError::InvalidChunksLength)
    } else if !has_unique_elements(bits.chunks.as_slice()) {
        Err(BitGroupError::DuplicateChunkIndex)
    } else if bits.desc.len() == 0 {
        Err(BitGroupError::MissingDescription)
    } else {
        Ok(())
    }
}

/// Formats the number as binary digits with a space (from the right) after
/// every four digits, writing as many digits as the value needs.
pub fn fmt_as_spaced_binary(val: u64) -> (r: String)
    ensures
        r@ == spaced_binary(val, binary_width(val, None)),
{
    crate::spcregs::utils::get_binary_string(val, None)
}

/// Makes a ruler labelling every 8 bits of a binary string of `num_bits`
/// digits; it is empty for fewer than 8 bits.
pub fn fmt_binary_ruler(num_bits: u32) -> (r: String)
    requires
        num_bits <= 64,
    ensures
        r@ == binary_ruler(num_bits as nat),
{
    let mut out = String::new();
    crate::spcregs::utils::push_binary_ruler(&mut out, num_bits as usize);
    assert(out@ =~= binary_ruler(num_bits as nat));
    out
}

/// Validates the group and, when it is valid, gives its (provisional) text.
pub fn fmt_bit_group(bits: &BitGroup) -> (r: Result<String, BitGroupError>)
    ensures
        match bit_group_error(bits.spec_bit_count(), bits.spec_chunks(), bits.spec_desc().len()) {
            Some(e) => r == Err::<String, BitGroupError>(e),
            None => r matches Ok(s) && s@ == "Testing_Impl"@,
        },
{
    validate_bit_group(bits)?;
    Ok(String::from_str("Testing_Impl"))
}

} // verus!
