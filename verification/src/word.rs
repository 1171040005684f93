use vstd::prelude::*;

verus! {

/// A tagged machine word.
pub type Word = u64;

pub const WORD_BITS: u8 = 64;
pub const TAG_BITS: u8 = 3;
pub const TAG_MASK: Word = 0b111;
pub const PAYLOAD_BITS: u8 = 61;

/// The immediate `nil` word: tag `Nil`, payload zero. It is the only false value.
pub const NIL: Word = 1;
/// The immediate `true` word: tag `True`, payload zero.
pub const TRUE: Word = 2;

/// The tag carried by the low `TAG_BITS` bits of a word.
///
/// The ratified tag numbers are what [`Tag::value`] returns; they equal the
/// declaration order, so `tag as u8` gives the same numbers.
#[derive(Debug, Clone, Copy, PartialEq, Eq, Structural)]
pub enum Tag {
    Cons,
    Nil,
    True,
    Fixnum,
    Symbol,
    Closure,
    Capability,
    /// Opaque handle into a runtime-owned, session-local boxed-value table.
    /// The tagged word carries only a non-zero handle id; the concrete kind
    /// (String; an opaque game-engine object reference; an exact Rational
    /// value) is a discriminant stored *inside* the boxed object the handle
    /// refers to, not in these bits.
    ///
    /// A game-engine handle is deliberately NOT `Tag::Capability`: that tag's
    /// `CapabilityDescriptor.instance` field is a hard `u8` (max 255), and its
    /// nonce carries an unforgeability guarantee the host engine does not
    /// provide for a value obtained via a plain host function call.
    ///
    /// This is the last tag value the 3-bit tag space has free.
    Boxed,
}

impl Tag {
    pub open spec fn spec_value(self) -> u8 {
        match self {
            Tag::Cons => 0,
            Tag::Nil => 1,
            Tag::True => 2,
            Tag::Fixnum => 3,
            Tag::Symbol => 4,
            Tag::Closure => 5,
            Tag::Capability => 6,
            Tag::Boxed => 7,
        }
    }

    /// The numeric tag value of this tag.
    #[verifier::when_used_as_spec(spec_value)]
    pub fn value(self) -> (r: u8)
        ensures
            r == self.spec_value(),
    {
        match self {
            Tag::Cons => 0,
            Tag::Nil => 1,
            Tag::True => 2,
            Tag::Fixnum => 3,
            Tag::Symbol => 4,
            Tag::Closure => 5,
            Tag::Capability => 6,
            Tag::Boxed => 7,
        }
    }
}

/// The tag bits of a word, as a number below `2^TAG_BITS`.
pub open spec fn tag_of(word: Word) -> int {
    (word as int) % 8
}

/// The payload of a word: the bits above the tag.
pub open spec fn payload_of(word: Word) -> int {
    (word as int) / 8
}

/// Extract the tag bits of a word.
pub fn tag(word: Word) -> (r: Word)
    ensures
        r == tag_of(word),
{
    assert(word & 7 == word % 8) by (bit_vector);
    word & TAG_MASK
}

/// Whether a word is the false value. Only `NIL` is false; every other word,
/// fixnum zero included, is true.
pub fn is_false(word: Word) -> (r: bool)
    ensures
        r == (word == NIL),
{
    word == NIL
}

} // verus!
