//! The wire layout of every encoding, stated bit by bit: which inputs each
//! encoder accepts, and where each field lands in the word.

use vstd::prelude::*;

use crate::capability::{
    descriptor_of_id, kind_of_raw, valid_nonce, CapabilityDescriptor, CapabilityKind,
};
use crate::contract::ErrorCode;
use crate::immediates::{fixnum_value, fixnum_word, handle_id, handle_word};
use crate::pointers::{closure_address, closure_address_of, closure_word, cons_pointer_shape};
use crate::word::{tag_of, Tag, Word};

verus! {

/// The tag numbers: `Cons` 0, `Nil` 1, `True` 2, `Fixnum` 3, `Symbol` 4,
/// `Closure` 5, `Capability` 6, `Boxed` 7.
pub proof fn tag_numbers(t: Tag)
    ensures
        Tag::Cons.spec_value() == 0,
        Tag::Nil.spec_value() == 1,
        Tag::True.spec_value() == 2,
        Tag::Fixnum.spec_value() == 3,
        Tag::Symbol.spec_value() == 4,
        Tag::Closure.spec_value() == 5,
        Tag::Capability.spec_value() == 6,
        Tag::Boxed.spec_value() == 7,
        t.spec_value() < 8,
{
}

/// The tag of a word is its low three bits.
pub proof fn tag_is_low_three_bits(word: Word)
    ensures
        tag_of(word) == (word & 7u64) as int,
{
    assert(word & 7u64 == word % 8) by (bit_vector);
}

/// A fixnum is accepted exactly when it fits in 61-bit two's complement
/// (`-2^60 <= value < 2^60`), and its word is the value shifted left by three
/// with the `Fixnum` tag 3 in the freed low bits.
pub proof fn fixnum_word_is_value_shifted_over_tag(value: i64)
    ensures
        fixnum_word(value) == (if -0x1000_0000_0000_0000 <= value < 0x1000_0000_0000_0000 {
            Some(((value as u64) << 3u64) | 3u64)
        } else {
            None
        }),
{
    if 0 <= value < 0x1000_0000_0000_0000 {
        assert((((value as u64) << 3u64) | 3u64) as int == value as int * 8 + 3) by (bit_vector)
            requires
                0i64 <= value < 0x1000_0000_0000_0000i64,
        ;
    } else if -0x1000_0000_0000_0000 <= value < 0 {
        assert((((value as u64) << 3u64) | 3u64) as int == (value as int + 0x2000_0000_0000_0000)
            * 8 + 3) by (bit_vector)
            requires
                -0x1000_0000_0000_0000i64 <= value < 0i64,
        ;
    }
}

/// A word whose low three bits are the `Fixnum` tag 3 decodes to the word read
/// as a signed 64-bit integer and shifted right arithmetically by three, so
/// the top payload bit is the sign; no other word decodes.
pub proof fn fixnum_value_is_arithmetic_shift(word: Word)
    ensures
        fixnum_value(word) == (if word & 7u64 == 3u64 {
            Some((word as i64) >> 3u64)
        } else {
            None
        }),
{
    assert(word & 7u64 == word % 8) by (bit_vector);
    assert(word >> 3u64 == word / 8) by (bit_vector);
    assert(((word as i64) >> 3u64) as int == if (word >> 3u64) < 0x1000_0000_0000_0000u64 {
        (word >> 3u64) as int
    } else {
        (word >> 3u64) as int - 0x2000_0000_0000_0000
    }) by (bit_vector);
}

/// A handle (symbol id, capability handle, boxed handle) is accepted exactly
/// when it is non-zero and fits in 61 bits, and its word is the handle itself
/// shifted left by three with the tag number in the freed low bits.
pub proof fn handle_word_is_id_shifted_over_tag(t: Tag, id: Word)
    ensures
        handle_word(t, id) == (if id != 0 && id <= 0x1fff_ffff_ffff_ffff {
            Some((id << 3u64) | (t.spec_value() as u64))
        } else {
            None
        }),
{
    let tv = t.spec_value() as u64;
    if id <= 0x1fff_ffff_ffff_ffff {
        assert((id << 3u64) | tv == id * 8 + tv) by (bit_vector)
            requires
                id <= 0x1fff_ffff_ffff_ffffu64,
                tv < 8u64,
        ;
    }
}

/// A word decodes to a handle under tag `t` exactly when its low three bits
/// are `t`'s number and the rest is non-zero, and the handle is the word
/// shifted right by three.
pub proof fn handle_id_is_word_shifted(t: Tag, word: Word)
    ensures
        handle_id(t, word) == (if word & 7u64 == t.spec_value() as u64 && word >> 3u64 != 0 {
            Some(word >> 3u64)
        } else {
            None
        }),
{
    assert(word & 7u64 == word % 8) by (bit_vector);
    assert(word >> 3u64 == word / 8) by (bit_vector);
}

/// The capability kind numbers: `PciConfig` 1, `Mmio` 2, `Dma` 3, `Interrupt`
/// 4; these four and no other byte name a kind, each its own.
pub proof fn capability_kind_numbers(kind: CapabilityKind, raw: int)
    ensures
        CapabilityKind::PciConfig.spec_value() == 1,
        CapabilityKind::Mmio.spec_value() == 2,
        CapabilityKind::Dma.spec_value() == 3,
        CapabilityKind::Interrupt.spec_value() == 4,
        kind_of_raw(kind.spec_value() as int) == Some(kind),
        kind_of_raw(raw) is Some <==> 1 <= raw <= 4,
{
}

/// The error code numbers: `OutOfMemory` 1, `Type` 2, `InvalidSymbol` 3,
/// `AbiViolation` 4, `NumericOverflow` 5.
pub proof fn error_code_numbers()
    ensures
        ErrorCode::OutOfMemory.spec_code() == 1,
        ErrorCode::Type.spec_code() == 2,
        ErrorCode::InvalidSymbol.spec_code() == 3,
        ErrorCode::AbiViolation.spec_code() == 4,
        ErrorCode::NumericOverflow.spec_code() == 5,
{
}

/// A nonce is valid exactly when it is non-zero and fits in the 45 nonce bits:
/// every nonce from 1 to `2^45 - 1` is accepted by `CapabilityDescriptor::new`.
pub proof fn valid_nonces_are_the_non_zero_45_bit_values(nonce: Word)
    ensures
        valid_nonce(nonce as int) <==> (nonce != 0 && nonce >> 45u64 == 0),
{
    assert(nonce >> 45u64 == 0 <==> nonce <= 0x1fff_ffff_ffffu64) by (bit_vector);
}

/// The id of a descriptor packs the nonce above bit 16, the instance in bits
/// 8 to 15 and the kind number in bits 0 to 7.
pub proof fn descriptor_id_packs_fields(descriptor: CapabilityDescriptor)
    ensures
        descriptor.spec_to_id() == (descriptor.nonce << 16u64) | ((descriptor.instance as u64)
            << 8u64) | (descriptor.kind.spec_value() as u64),
{
    let n = descriptor.nonce;
    let i = descriptor.instance as u64;
    let k = descriptor.kind.spec_value() as u64;
    assert(((n << 16u64) | (i << 8u64) | k) as int == (n as int % 0x1_0000_0000_0000) * 0x1_0000
        + i as int * 0x100 + k as int) by (bit_vector)
        requires
            k < 0x100u64,
            i < 0x100u64,
    ;
}

/// An id names a descriptor exactly when its low byte is a kind number and
/// the bits above bit 16 are a valid nonce; the descriptor then has that kind,
/// bits 8 to 15 as its instance, and the bits above 16 as its nonce.
pub proof fn descriptor_of_id_unpacks_fields(id: Word)
    ensures
        descriptor_of_id(id) == (if 1 <= (id & 0xffu64) <= 4 && id >> 16u64 != 0 && id >> 16u64
            <= 0x1fff_ffff_ffffu64 {
            Some(
                CapabilityDescriptor {
                    kind: kind_of_raw((id & 0xffu64) as int).unwrap(),
                    instance: ((id >> 8u64) & 0xffu64) as u8,
                    nonce: id >> 16u64,
                },
            )
        } else {
            None
        }),
{
    assert(id & 0xffu64 == id % 0x100) by (bit_vector);
    assert((id >> 8u64) & 0xffu64 == (id / 0x100) % 0x100) by (bit_vector);
    assert(id >> 16u64 == id / 0x1_0000) by (bit_vector);
}

/// Every non-zero multiple of 16 is a closure address and tags to itself with
/// the `Closure` tag 5 in its low bits; no other address tags.
pub proof fn closure_word_is_pointer_or_tag(pointer: Word)
    ensures
        closure_address(pointer) <==> (pointer != 0 && pointer & 15u64 == 0),
        closure_word(pointer) == (if pointer != 0 && pointer & 15u64 == 0 {
            Some(pointer | 5u64)
        } else {
            None
        }),
{
    assert(pointer & 15u64 == pointer % 16) by (bit_vector);
    assert(pointer % 16 == 0 ==> pointer | 5u64 == pointer + 5) by (bit_vector);
}

/// A word whose low three bits are the `Closure` tag 5 untags to the word with
/// its low three bits cleared; no other word untags.
pub proof fn closure_address_clears_tag(word: Word)
    ensures
        closure_address_of(word) == (if word & 7u64 == 5u64 {
            Some(word & !7u64)
        } else {
            None
        }),
{
    assert(word & 7u64 == word % 8) by (bit_vector);
    assert(word % 8 == 5 ==> word & !7u64 == word - 5) by (bit_vector);
}

/// Every non-zero multiple of 16, and no other word, has the shape of a cons
/// pointer.
pub proof fn cons_pointer_shape_is_aligned_non_zero(word: Word)
    ensures
        cons_pointer_shape(word) <==> (word != 0 && word & 15u64 == 0),
{
    assert(word & 15u64 == word % 16) by (bit_vector);
}

} // verus!
