//! Usage flags of a buffer, as a checked set of bits.

use vstd::prelude::*;

verus! {

/// Bit of [`BufferObjectFlags::scanout`].
pub const SCANOUT: u32 = 0x01;

/// Bit of [`BufferObjectFlags::cursor`].
pub const CURSOR: u32 = 0x02;

/// Bit of [`BufferObjectFlags::cursor_64x64`]; the same as [`CURSOR`].
pub const CURSOR_64X64: u32 = 0x02;

/// Bit of [`BufferObjectFlags::rendering`].
pub const RENDERING: u32 = 0x04;

/// Bit of [`BufferObjectFlags::write`].
pub const WRITE: u32 = 0x08;

/// Bit of [`BufferObjectFlags::linear`].
pub const LINEAR: u32 = 0x10;

/// Bit of [`BufferObjectFlags::protected`].
pub const PROTECTED: u32 = 0x20;

/// Every bit that names a usage.
pub const ALL_BITS: u32 = 0x3f;

/// Flags to indicate the intended use for the buffer - these are passed into
/// the allocation calls of a device.
///
/// A value never holds a bit outside [`ALL_BITS`].
#[derive(Hash, PartialEq, Eq, PartialOrd, Ord, Clone, Copy, Debug)]
pub struct BufferObjectFlags {
    bits: u32,
}

impl BufferObjectFlags {
    /// Buffer is going to be presented to the screen using an API such as KMS
    pub fn scanout() -> (r: BufferObjectFlags)
        ensures
            r@ == SCANOUT,
    {
        assert(SCANOUT & !ALL_BITS == 0) by (bit_vector);
        BufferObjectFlags { bits: SCANOUT }
    }

    /// Buffer is going to be used as cursor
    pub fn cursor() -> (r: BufferObjectFlags)
        ensures
            r@ == CURSOR,
    {
        assert(CURSOR & !ALL_BITS == 0) by (bit_vector);
        BufferObjectFlags { bits: CURSOR }
    }

    /// Buffer is going to be used as cursor; an older name of [`Self::cursor`].
    pub fn cursor_64x64() -> (r: BufferObjectFlags)
        ensures
            r@ == CURSOR_64X64,
    {
        assert(CURSOR_64X64 & !ALL_BITS == 0) by (bit_vector);
        BufferObjectFlags { bits: CURSOR_64X64 }
    }

    /// Buffer is to be used for rendering - for example it is going to be used
    /// as the storage for a color buffer
    pub fn rendering() -> (r: BufferObjectFlags)
        ensures
            r@ == RENDERING,
    {
        assert(RENDERING & !ALL_BITS == 0) by (bit_vector);
        BufferObjectFlags { bits: RENDERING }
    }

    /// Buffer can be written to directly. This is guaranteed to work
    /// with [`Self::cursor`], but may not work for other combinations.
    pub fn write() -> (r: BufferObjectFlags)
        ensures
            r@ == WRITE,
    {
        assert(WRITE & !ALL_BITS == 0) by (bit_vector);
        BufferObjectFlags { bits: WRITE }
    }

    /// Buffer is linear, i.e. not tiled.
    pub fn linear() -> (r: BufferObjectFlags)
        ensures
            r@ == LINEAR,
    {
        assert(LINEAR & !ALL_BITS == 0) by (bit_vector);
        BufferObjectFlags { bits: LINEAR }
    }

    /// Buffer is protected
    pub fn protected() -> (r: BufferObjectFlags)
        ensures
            r@ == PROTECTED,
    {
        assert(PROTECTED & !ALL_BITS == 0) by (bit_vector);
        BufferObjectFlags { bits: PROTECTED }
    }

    #[verifier::type_invariant]
    spec fn known_bits_only(self) -> bool {
        self.bits & !ALL_BITS == 0
    }

    /// The bits of the set: the model of a value.
    pub closed spec fn view(self) -> u32 {
        self.bits
    }

    /// The set without any flag.
    pub fn empty() -> (r: BufferObjectFlags)
        ensures
            r@ == 0,
    {
        assert(0u32 & !ALL_BITS == 0) by (bit_vector);
        BufferObjectFlags { bits: 0 }
    }

    /// The set of every flag.
    pub fn all() -> (r: BufferObjectFlags)
        ensures
            r@ == ALL_BITS,
    {
        assert(ALL_BITS & !ALL_BITS == 0) by (bit_vector);
        BufferObjectFlags { bits: ALL_BITS }
    }

    /// The bits, as the native library takes them.
    pub fn bits(&self) -> (r: u32)
        ensures
            r == self@,
            r & !ALL_BITS == 0,
    {
        proof {
            use_type_invariant(self);
        }
        self.bits
    }

    /// The set with exactly these bits, if each of them names a usage.
    pub fn from_bits(bits: u32) -> (r: Option<BufferObjectFlags>)
        ensures
            bits & !ALL_BITS == 0 ==> r is Some && r.unwrap()@ == bits,
            bits & !ALL_BITS != 0 ==> r is None,
    {
        if bits & !ALL_BITS == 0 {
            Some(BufferObjectFlags { bits })
        } else {
            None
        }
    }

    /// The set of those of these bits that name a usage.
    pub fn from_bits_truncate(bits: u32) -> (r: BufferObjectFlags)
        ensures
            r@ == bits & ALL_BITS,
    {
        assert((bits & ALL_BITS) & !ALL_BITS == 0) by (bit_vector);
        BufferObjectFlags { bits: bits & ALL_BITS }
    }

    /// Whether no flag is set.
    pub fn is_empty(&self) -> (r: bool)
        ensures
            r == (self@ == 0),
    {
        self.bits == 0
    }

    /// Whether every flag of `other` is set in `self`.
    pub fn contains(&self, other: BufferObjectFlags) -> (r: bool)
        ensures
            r == (self@ & other@ == other@),
    {
        self.bits & other.bits == other.bits
    }

    /// Whether some flag is set in both.
    pub fn intersects(&self, other: BufferObjectFlags) -> (r: bool)
        ensures
            r == (self@ & other@ != 0),
    {
        self.bits & other.bits != 0
    }

    /// The flags set in either.
    pub fn union(self, other: BufferObjectFlags) -> (r: BufferObjectFlags)
        ensures
            r@ == self@ | other@,
    {
        proof {
            use_type_invariant(self);
            use_type_invariant(other);
        }
        let a: u32 = self.bits;
        let b: u32 = other.bits;
        assert((a | b) & !ALL_BITS == 0) by (bit_vector)
            requires
                a & !ALL_BITS == 0,
                b & !ALL_BITS == 0,
        ;
        BufferObjectFlags { bits: a | b }
    }

    /// The flags set in both.
    pub fn intersection(self, other: BufferObjectFlags) -> (r: BufferObjectFlags)
        ensures
            r@ == self@ & other@,
    {
        proof {
            use_type_invariant(self);
        }
        let a: u32 = self.bits;
        let b: u32 = other.bits;
        assert((a & b) & !ALL_BITS == 0) by (bit_vector)
            requires
                a & !ALL_BITS == 0,
        ;
        BufferObjectFlags { bits: a & b }
    }

    /// The flags set in `self` and not in `other`.
    pub fn difference(self, other: BufferObjectFlags) -> (r: BufferObjectFlags)
        ensures
            r@ == self@ & !other@,
    {
        proof {
            use_type_invariant(self);
        }
        let a: u32 = self.bits;
        let b: u32 = other.bits;
        assert((a & !b) & !ALL_BITS == 0) by (bit_vector)
            requires
                a & !ALL_BITS == 0,
        ;
        BufferObjectFlags { bits: a & !b }
    }

    /// Sets every flag of `other`.
    pub fn insert(&mut self, other: BufferObjectFlags)
        ensures
            final(self)@ == old(self)@ | other@,
    {
        *self = self.union(other);
    }

    /// Clears every flag of `other`.
    pub fn remove(&mut self, other: BufferObjectFlags)
        ensures
            final(self)@ == old(self)@ & !other@,
    {
        *self = self.difference(other);
    }
}

impl core::ops::BitOr for BufferObjectFlags {
    type Output = BufferObjectFlags;

    fn bitor(self, rhs: BufferObjectFlags) -> (r: BufferObjectFlags)
        ensures
            r@ == self@ | rhs@,
    {
        self.union(rhs)
    }
}

impl vstd::std_specs::ops::BitOrSpecImpl for BufferObjectFlags {
    open spec fn obeys_bitor_spec() -> bool {
        true
    }

    open spec fn bitor_req(self, rhs: BufferObjectFlags) -> bool {
        true
    }

    open spec fn bitor_spec(self, rhs: BufferObjectFlags) -> BufferObjectFlags {
        flags_of((self@ | rhs@))
    }
}

/// The set that holds exactly the bits `bits`.
pub closed spec fn flags_of(bits: u32) -> BufferObjectFlags {
    BufferObjectFlags { bits }
}

/// A set is known by its bits.
pub proof fn lemma_flags_of_view(flags: BufferObjectFlags, bits: u32)
    ensures
        flags_of(flags@) == flags,
        flags_of(bits)@ == bits,
{
}

} // verus!
