use vstd::prelude::*;

use crate::capability::{
    descriptor_of_id, descriptor_word, word_descriptor, CapabilityDescriptor,
    CAPABILITY_INSTANCE_BITS, CAPABILITY_KIND_BITS, CAPABILITY_KIND_MASK, CAPABILITY_NONCE_BITS,
    CAPABILITY_NONCE_MAX, CAPABILITY_INSTANCE_MASK,
};
use crate::contract::ErrorCode;
use crate::immediates::{
    fixnum_value, fixnum_word, handle_id, handle_word, payload_max, tagged, BOXED_HANDLE_MAX,
    CANONICAL_T, CAPABILITY_ID_MAX, FIXNUM_MAX, FIXNUM_MIN, SYMBOL_ID_MAX,
};
use crate::pointers::{closure_address, closure_address_of, closure_word, cons_pointer_shape};
use crate::word::{tag_of, Tag, Word, NIL, PAYLOAD_BITS, TAG_BITS, TAG_MASK, TRUE, WORD_BITS};
use vstd::arithmetic::power2::{lemma2_to64, lemma2_to64_rest, pow2};

verus! {

/// Every fixnum in `FIXNUM_MIN..=FIXNUM_MAX` encodes to a word tagged `Fixnum`
/// that decodes back to the same fixnum.
pub proof fn fixnum_round_trip(value: i64)
    requires
        FIXNUM_MIN <= value <= FIXNUM_MAX,
    ensures
        fixnum_word(value) matches Some(word) && tag_of(word) == Tag::Fixnum.spec_value()
            && fixnum_value(word) == Some(value),
{
}

/// Every word tagged `Fixnum` decodes to a fixnum in `FIXNUM_MIN..=FIXNUM_MAX`
/// whose encoding is that same word: fixnum words have no second spelling.
pub proof fn fixnum_words_are_canonical(word: Word)
    requires
        tag_of(word) == Tag::Fixnum.spec_value(),
    ensures
        fixnum_value(word) matches Some(value) && FIXNUM_MIN <= value <= FIXNUM_MAX
            && fixnum_word(value) == Some(word),
{
}

/// A non-zero handle that fits in the payload bits encodes, under any tag, to
/// a word with that tag that decodes back to the same handle. This holds of
/// symbols, capability handles and boxed handles alike.
pub proof fn handle_round_trip(t: Tag, id: Word)
    requires
        1 <= id <= payload_max(),
    ensures
        handle_word(t, id) matches Some(word) && tag_of(word) == t.spec_value()
            && handle_id(t, word) == Some(id),
{
}

/// A word that decodes to a handle under tag `t` is the encoding of that handle.
pub proof fn handle_words_are_canonical(t: Tag, word: Word)
    requires
        handle_id(t, word) is Some,
    ensures
        handle_word(t, handle_id(t, word).unwrap()) == Some(word),
{
}

/// A non-zero, `CLOSURE_ALIGNMENT`-aligned address tags to a closure word that
/// untags to the same address.
pub proof fn closure_pointer_round_trip(pointer: Word)
    requires
        closure_address(pointer),
    ensures
        closure_word(pointer) matches Some(word) && tag_of(word) == Tag::Closure.spec_value()
            && closure_address_of(word) == Some(pointer),
{
}

/// A closure word whose untagged address is non-zero and aligned is the
/// tagging of that address.
pub proof fn closure_words_are_canonical(word: Word)
    requires
        closure_address_of(word) matches Some(pointer) && closure_address(pointer),
    ensures
        closure_word(closure_address_of(word).unwrap()) == Some(word),
{
}

/// A descriptor with a valid nonce survives `to_id` then `from_id` unchanged.
pub proof fn descriptor_round_trip(descriptor: CapabilityDescriptor)
    requires
        descriptor.wf(),
    ensures
        descriptor_of_id(descriptor.spec_to_id()) == Some(descriptor),
{
    let id = descriptor.spec_to_id() as int;
    let n = descriptor.nonce as int;
    let i = descriptor.instance as int;
    let k = descriptor.kind.spec_value() as int;
    assert(id == n * 0x1_0000 + i * 0x100 + k);
    assert(id % 0x100 == k);
    assert(id / 0x100 == n * 0x100 + i);
    assert((id / 0x100) % 0x100 == i);
    assert(id / 0x1_0000 == n);
}

/// An id that names a descriptor is that descriptor's `to_id`, and the
/// descriptor has a valid nonce: ids have no second spelling.
pub proof fn descriptor_ids_are_canonical(id: Word)
    requires
        descriptor_of_id(id) is Some,
    ensures
        descriptor_of_id(id).unwrap().wf(),
        descriptor_of_id(id).unwrap().spec_to_id() == id,
{
    let n = id as int / 0x1_0000;
    let i = (id as int / 0x100) % 0x100;
    let k = id as int % 0x100;
    assert(id as int == n * 0x1_0000 + i * 0x100 + k);
}

/// A descriptor with a valid nonce always has a capability word, and that word
/// decodes back to the same descriptor.
pub proof fn descriptor_word_round_trip(descriptor: CapabilityDescriptor)
    requires
        descriptor.wf(),
    ensures
        descriptor_word(descriptor) matches Some(word) && tag_of(word)
            == Tag::Capability.spec_value() && word_descriptor(word) == Some(descriptor),
{
    descriptor_round_trip(descriptor);
    handle_round_trip(Tag::Capability, descriptor.spec_to_id());
}

/// Distinct valid descriptors encode to distinct capability words, so a
/// descriptor cannot be passed off as another.
pub proof fn descriptor_words_are_distinct(a: CapabilityDescriptor, b: CapabilityDescriptor)
    requires
        a.wf(),
        b.wf(),
        a != b,
    ensures
        descriptor_word(a) != descriptor_word(b),
{
    descriptor_word_round_trip(a);
    descriptor_word_round_trip(b);
}

/// How many of the value shapes of the ABI a word has: a fixnum, a symbol, a
/// capability handle, a boxed handle, a closure pointer, a cons pointer, `nil`
/// or `true`.
pub open spec fn shape_count(word: Word) -> int {
    (if fixnum_value(word) is Some { 1int } else { 0 }) + (if handle_id(Tag::Symbol, word) is Some {
        1int
    } else {
        0
    }) + (if handle_id(Tag::Capability, word) is Some {
        1int
    } else {
        0
    }) + (if handle_id(Tag::Boxed, word) is Some {
        1int
    } else {
        0
    }) + (if closure_address_of(word) is Some {
        1int
    } else {
        0
    }) + (if cons_pointer_shape(word) {
        1int
    } else {
        0
    }) + (if word == NIL {
        1int
    } else {
        0
    }) + (if word == TRUE {
        1int
    } else {
        0
    })
}

/// The tag tells the value shapes apart: no word decodes as two of them.
pub proof fn shapes_are_exclusive(word: Word)
    ensures
        shape_count(word) <= 1,
{
}

/// `nil` is the only false word: the encoding of every fixnum (zero
/// included), symbol, capability handle, boxed handle and closure pointer is
/// true, and so is `TRUE`.
pub proof fn encoded_words_are_true(value: i64, t: Tag, id: Word, pointer: Word)
    ensures
        fixnum_word(value) matches Some(word) ==> word != NIL,
        handle_word(t, id) matches Some(word) ==> word != NIL,
        closure_word(pointer) matches Some(word) ==> word != NIL,
        TRUE != NIL,
{
}

/// Tag values are distinct and fit in `TAG_MASK`.
pub proof fn tag_values_are_distinct(a: Tag, b: Tag)
    ensures
        a.spec_value() <= TAG_MASK,
        a.spec_value() == b.spec_value() ==> a == b,
{
}

/// The tag space is full: every value that fits in the tag bits is a tag.
pub proof fn tag_space_is_full(value: int)
    requires
        0 <= value <= TAG_MASK,
    ensures
        exists|t: Tag| t.spec_value() == value,
{
    if value == 0 {
        assert(Tag::Cons.spec_value() == value);
    } else if value == 1 {
        assert(Tag::Nil.spec_value() == value);
    } else if value == 2 {
        assert(Tag::True.spec_value() == value);
    } else if value == 3 {
        assert(Tag::Fixnum.spec_value() == value);
    } else if value == 4 {
        assert(Tag::Symbol.spec_value() == value);
    } else if value == 5 {
        assert(Tag::Closure.spec_value() == value);
    } else if value == 6 {
        assert(Tag::Capability.spec_value() == value);
    } else {
        assert(Tag::Boxed.spec_value() == value);
    }
}

/// Error codes are non-zero and distinct.
pub proof fn error_codes_are_distinct(a: ErrorCode, b: ErrorCode)
    ensures
        a.spec_code() != 0,
        a.spec_code() == b.spec_code() ==> a == b,
{
}

/// The numeric constants of the ABI agree with each other: the tag and
/// payload bits fill the word, the masks and bounds are the powers of two the
/// bit widths give, `NIL` and `TRUE` are their tags with payload zero, and
/// `CANONICAL_T` is the symbol with the largest id.
pub proof fn layout_constants_are_consistent()
    ensures
        WORD_BITS == TAG_BITS + PAYLOAD_BITS,
        TAG_MASK + 1 == pow2(TAG_BITS as nat),
        FIXNUM_MIN == -pow2((PAYLOAD_BITS - 1) as nat),
        FIXNUM_MAX == pow2((PAYLOAD_BITS - 1) as nat) - 1,
        payload_max() == pow2(PAYLOAD_BITS as nat) - 1,
        SYMBOL_ID_MAX == payload_max(),
        CAPABILITY_ID_MAX == payload_max(),
        BOXED_HANDLE_MAX == payload_max(),
        CAPABILITY_NONCE_BITS == PAYLOAD_BITS - CAPABILITY_KIND_BITS - CAPABILITY_INSTANCE_BITS,
        CAPABILITY_KIND_MASK + 1 == pow2(CAPABILITY_KIND_BITS as nat),
        CAPABILITY_INSTANCE_MASK + 1 == pow2(CAPABILITY_INSTANCE_BITS as nat),
        CAPABILITY_NONCE_MAX + 1 == pow2(CAPABILITY_NONCE_BITS as nat),
        NIL == tagged(0, Tag::Nil),
        TRUE == tagged(0, Tag::True),
        CANONICAL_T == tagged(SYMBOL_ID_MAX as int, Tag::Symbol),
        handle_word(Tag::Symbol, SYMBOL_ID_MAX) == Some(CANONICAL_T),
{
    lemma2_to64();
    lemma2_to64_rest();
}

} // verus!
