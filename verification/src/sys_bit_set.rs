//! System bit sets: described bits split into byte chunks, and the binary
//! renderings used to show them.

use vstd::prelude::*;

use core::ops::Range;

use crate::bitset::has_unique_elements;
use crate::spcregs::utils::{binary_ruler, binary_width, spaced_binary};

verus! {

/// The maximum number of bits a set can describe.
pub const MAX_BITCOUNT: u8 = 64;

/// Byte order of a system bit set.
#[derive(Debug, Clone, Copy, PartialEq, Eq, Structural)]
pub enum ByteOrder {
    LittleEndian,
    BigEndian,
}

/// A described range of bits.
#[derive(Debug)]
pub struct SysBitSetDescription {
    spans: Range<u8>,
    kind: SysBitSetKind,
    name: String,
    short: String,
    long: String,
}

impl SysBitSetDescription {
    pub fn new(spans: Range<u8>, kind: SysBitSetKind, name: String, short: String, long: String) -> (r:
        Self)
        ensures
            r.spec_spans() == spans,
            r.spec_kind() == kind,
            r.spec_name() == name@,
            r.spec_short() == short@,
            r.spec_long() == long@,
    {
        SysBitSetDescription { spans, kind, name, short, long }
    }

    pub closed spec fn spec_spans(&self) -> Range<u8> {
        self.spans
    }

    pub closed spec fn spec_kind(&self) -> SysBitSetKind {
        self.kind
    }

    pub closed spec fn spec_name(&self) -> Seq<char> {
        self.name@
    }

    pub closed spec fn spec_short(&self) -> Seq<char> {
        self.short@
    }

    pub closed spec fn spec_long(&self) -> Seq<char> {
        self.long@
    }
}

/// How reserved bits behave.
#[derive(Debug, Clone, Copy, PartialEq, Eq, Structural)]
pub enum SysBitSetReserved {
    MustBeZero,
    MustBeOne,
    Undefined,
    Ignored,
}

/// Kind of a described range of bits.
#[derive(Debug, Clone, Copy, PartialEq, Eq, Structural)]
pub enum SysBitSetKind {
    Normal,
    Rsvd(SysBitSetReserved),
}

/// A set of described bits, with the indices of its byte chunks.
#[derive(Debug)]
pub struct SysBitSet {
    name: String,
    arch: String,
    device: String,
    byte_order: ByteOrder,
    bit_count: u8,
    chunks: Vec<u8>,
    rsvd: SysBitSetReserved,
    show_rsvd: bool,
    desc: Vec<SysBitSetDescription>,
}

impl SysBitSet {
    /// A set whose reserved bits must be zero and are not shown.
    pub fn new(
        name: String,
        arch: String,
        device: String,
        byte_order: ByteOrder,
        bit_count: u8,
        chunks: Vec<u8>,
        desc: Vec<SysBitSetDescription>,
    ) -> (r: Self)
        ensures
            r.spec_name() == name@,
            r.spec_arch() == arch@,
            r.spec_device() == device@,
            r.spec_byte_order() == byte_order,
            r.spec_bit_count() == bit_count,
            r.spec_chunks() == chunks@,
            r.spec_rsvd() == SysBitSetReserved::MustBeZero,
            !r.spec_show_rsvd(),
            r.spec_desc() == desc@,
    {
        SysBitSet {
            name,
            arch,
            device,
            byte_order,
            bit_count,
            chunks,
            rsvd: SysBitSetReserved::MustBeZero,
            show_rsvd: false,
            desc,
        }
    }

    pub closed spec fn spec_name(&self) -> Seq<char> {
        self.name@
    }

    pub closed spec fn spec_arch(&self) -> Seq<char> {
        self.arch@
    }

    pub closed spec fn spec_device(&self) -> Seq<char> {
        self.device@
    }

    pub closed spec fn spec_byte_order(&self) -> ByteOrder {
        self.byte_order
    }

    pub closed spec fn spec_bit_count(&self) -> u8 {
        self.bit_count
    }

    pub closed spec fn spec_chunks(&self) -> Seq<u8> {
        self.chunks@
    }

    pub closed spec fn spec_rsvd(&self) -> SysBitSetReserved {
        self.rsvd
    }

    pub closed spec fn spec_show_rsvd(&self) -> bool {
        self.show_rsvd
    }

    pub closed spec fn spec_desc(&self) -> Seq<SysBitSetDescription> {
        self.desc@
    }
}

/// The reasons a system bit set is refused.
#[derive(Debug, Clone, Copy, PartialEq, Eq, Structural)]
pub enum SysBitSetError {
    MissingName,
    MissingArch,
    MissingDevice,
    UnknownArch,
    InvalidBitCount,
    InvalidChunkIndex,
    InvalidChunksLength,
    DuplicateChunkIndex,
    MissingDescription,
}

impl SysBitSetError {
    /// The human-readable text of the error.
    pub open spec fn spec_message(&self) -> Seq<char> {
        match self {
            SysBitSetError::MissingName => "missing name"@,
            SysBitSetError::MissingArch => "missing architecture"@,
            SysBitSetError::MissingDevice => "missing device"@,
            SysBitSetError::UnknownArch => "unknown architecture"@,
            SysBitSetError::InvalidBitCount => "invalid number of bits"@,
            SysBitSetError::InvalidChunkIndex => "invalid index in chunks'"@,
            SysBitSetError::InvalidChunksLength => "invalid number of chunks"@,
            SysBitSetError::DuplicateChunkIndex => "duplicate index in chunks"@,
            SysBitSetError::MissingDescription => "missing description"@,
        }
    }

    /// The human-readable text of the error.
    pub fn message(&self) -> (r: &'static str)
        ensures
            r@ == self.spec_message(),
    {
        match self {
            SysBitSetError::MissingName => "missing name",
            SysBitSetError::MissingArch => "missing architecture",
            SysBitSetError::MissingDevice => "missing device",
            SysBitSetError::UnknownArch => "unknown architecture",
            SysBitSetError::InvalidBitCount => "invalid number of bits",
            SysBitSetError::InvalidChunkIndex => "invalid index in chunks'",
            SysBitSetError::InvalidChunksLength => "invalid number of chunks",
            SysBitSetError::DuplicateChunkIndex => "duplicate index in chunks",
            SysBitSetError::MissingDescription => "missing description",
        }
    }
}

/// The error (if any) of a set: too many bits, too many chunks, a
/// repeated chunk index, or no description, checked in that order.
pub open spec fn sys_bit_set_error(bit_count: u8, chunks: Seq<u8>, desc_len: nat) -> Option<
    SysBitSetError,
> {
    if bit_count > MAX_BITCOUNT {
        Some(SysBitSetError::InvalidBitCount)
    } else if chunks.len() >= MAX_BITCOUNT as int {
        Some(SysBitSetError::InvalidChunksLength)
    } else if !chunks.no_duplicates() {
        Some(SysBitSetError::DuplicateChunkIndex)
    } else if desc_len == 0 {
        Some(SysBitSetError::MissingDescription)
    } else {
        None
    }
}

/// A set is accepted exactly when it has at most 64 bits, fewer than 64
/// chunk indices, no chunk index twice, and at least one described range.
pub proof fn lemma_sys_bit_set_accepted(bit_count: u8, chunks: Seq<u8>, desc_len: nat)
    ensures
        sys_bit_set_error(bit_count, chunks, desc_len) is None <==> {
            &&& bit_count <= 64
            &&& chunks.len() < 64
            &&& forall|i: int, j: int|
                0 <= i < j < chunks.len() ==> #[trigger] chunks[i] != #[trigger] chunks[j]
            &&& desc_len > 0
        },
{
}

/// Checks a system bit set; see `sys_bit_set_error`.
pub fn validate_sys_bit_set(bits: &SysBitSet) -> (r: Result<(), SysBitSetError>)
    ensures
        match sys_bit_set_error(bits.spec_bit_count(), bits.spec_chunks(), bits.spec_desc().len()) {
            Some(e) => r == Err::<(), SysBitSetError>(e),
            None => r is Ok,
        },
{
    if bits.bit_count > MAX_BITCOUNT {
        Err(SysBitSetError::InvalidBitCount)
    } else if bits.chunks.len() >= MAX_BITCOUNT as usize {
        Err(SysBitSetError::InvalidChunksLength)
    } else if !has_unique_elements(bits.chunks.as_slice()) {
        Err(SysBitSetError::DuplicateChunkIndex)
    } else if bits.desc.len() == 0 {
        Err(SysBitSetError::MissingDescription)
    } else {
        Ok(())
    }
}

/// Formats the number as binary digits with a space (from the right) after
/// every four digits, writing as many digits as the value needs.
pub fn fmt_as_spaced_binary(val: u64) -> (r: String)
    ensures
        r@ == spaced_binary(val, binary_width(val, None)),
{
    crate::spcregs::utils::get_binary_string(val, None)
}

/// Makes a ruler labelling every 8 bits of a binary string of `num_bits`
/// digits; it is empty for fewer than 8 bits.
pub fn fmt_binary_ruler(num_bits: u32) -> (r: String)
    requires
        num_bits <= 64,
    ensures
        r@ == binary_ruler(num_bits as nat),
{
    let mut out = String::new();
    crate::spcregs::utils::push_binary_ruler(&mut out, num_bits as usize);
    assert(out@ =~= binary_ruler(num_bits as nat));
    out
}

/// Validates the set and, when it is valid, gives its (provisional) text.
pub fn fmt_sys_bit_set(bits: &SysBitSet) -> (r: Result<String, SysBitSetError>)
    ensures
        match sys_bit_set_error(bits.spec_bit_count(), bits.spec_chunks(), bits.spec_desc().len()) {
            Some(e) => r == Err::<String, SysBitSetError>(e),
            None => r matches Ok(s) && s@ == "Testing_Impl"@,
        },
{
    validate_sys_bit_set(bits)?;
    Ok(String::from_str("Testing_Impl"))
}

} // verus!
