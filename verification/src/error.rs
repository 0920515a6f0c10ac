use vstd::prelude::*;

verus! {

/// Why a class file could not be decoded.
#[derive(Debug, PartialEq, Eq)]
pub enum DecompileError {
    /// The first four bytes are not `0xCAFEBABE`; carries the value found.
    InvalidMagicNumber(u32),
    /// The input could not be read; carries the reader's message.
    IOError(String),
    /// No file exists at the path given.
    NoSuchFile(String),
    /// A constant pool entry starts with an unknown tag; carries the tag and
    /// the offset of the tag byte.
    InvalidConstantPoolTag(u8, u64),
    /// A pool index is zero, past the end of the pool, or the unusable slot
    /// after a `Long` or `Double`; carries the index and the cursor offset.
    /// Also a `Long` or `Double` at the last index of the pool, which leaves
    /// no index for its second slot; carries that index and the offset of
    /// the entry's tag.
    NoSuchConstantPoolEntry(u16, u64),
    /// The entry at the index is not a `Utf8` entry, or the bytes of the
    /// `Utf8` entry at that index are not valid UTF-8.
    InvalidUtf8ConstantPoolEntry(u16),
    /// The body of a known attribute does not fill its declared length
    /// exactly; carries the name index, the declared length, and the offset
    /// at which the body ran out of bytes or stopped short of its end.
    AttributeLengthMismatch(u16, u32, u64),
    /// A `ConstantValue` attribute names an entry that is not an `Integer`,
    /// `Float`, `Long`, `Double` or `String`, or a field has a second such
    /// attribute; carries the constant's pool index.
    InvalidConstantValue(u16),
    /// A tag byte inside a known attribute (a frame type, a verification
    /// type, an element value tag, a target type) names no known shape;
    /// carries the byte and its offset.
    InvalidAttributeTag(u8, u64),
    /// Fewer bytes remain than a read asked for; carries the offset at
    /// which the read began.
    UnexpectedEof(u64),
}

} // verus!
