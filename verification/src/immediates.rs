use vstd::prelude::*;

use crate::word::{payload_of, tag, tag_of, Tag, Word, TAG_BITS};

verus! {

pub const FIXNUM_MIN: i64 = -0x1000_0000_0000_0000;
pub const FIXNUM_MAX: i64 = 0x0fff_ffff_ffff_ffff;
pub const SYMBOL_ID_MAX: Word = 0x1fff_ffff_ffff_ffff;
pub const CAPABILITY_ID_MAX: Word = 0x1fff_ffff_ffff_ffff;
pub const BOXED_HANDLE_MAX: Word = 0x1fff_ffff_ffff_ffff;

/// Canonical `t` represented as Symbol(SYMBOL_ID_MAX) sentinel.
pub const CANONICAL_T: Word = 0xffff_ffff_ffff_fffc;

/// The largest value that fits in the payload bits of a word.
pub open spec fn payload_max() -> int {
    0x1fff_ffff_ffff_ffff
}

/// The word with the given payload and tag: `payload * 2^TAG_BITS + tag`.
pub open spec fn tagged(payload: int, t: Tag) -> int {
    payload * 8 + t.spec_value()
}

/// The payload that stores a fixnum: its 61-bit two's complement.
pub open spec fn fixnum_payload(value: int) -> int {
    if value >= 0 {
        value
    } else {
        value + 0x2000_0000_0000_0000
    }
}

/// The fixnum that a payload stores, read as 61-bit two's complement.
pub open spec fn fixnum_of_payload(payload: int) -> int {
    if payload < 0x1000_0000_0000_0000 {
        payload
    } else {
        payload - 0x2000_0000_0000_0000
    }
}

/// What `encode_fixnum` gives back: the tagged word for values in
/// `FIXNUM_MIN..=FIXNUM_MAX`, nothing for the others.
pub open spec fn fixnum_word(value: i64) -> Option<Word> {
    if FIXNUM_MIN <= value <= FIXNUM_MAX {
        Some(tagged(fixnum_payload(value as int), Tag::Fixnum) as Word)
    } else {
        None
    }
}

/// What `decode_fixnum` gives back: the fixnum stored in a word tagged
/// `Fixnum`, nothing for a word with another tag.
pub open spec fn fixnum_value(word: Word) -> Option<i64> {
    if tag_of(word) == Tag::Fixnum.spec_value() {
        Some(fixnum_of_payload(payload_of(word)) as i64)
    } else {
        None
    }
}

/// What the handle encoders give back for tag `t`: the tagged word for a
/// non-zero id that fits in the payload bits, nothing otherwise.
pub open spec fn handle_word(t: Tag, id: Word) -> Option<Word> {
    if 1 <= id <= payload_max() {
        Some(tagged(id as int, t) as Word)
    } else {
        None
    }
}

/// What the handle decoders give back for tag `t`: the non-zero payload of a
/// word tagged `t`, nothing otherwise.
pub open spec fn handle_id(t: Tag, word: Word) -> Option<Word> {
    if tag_of(word) == t.spec_value() && payload_of(word) != 0 {
        Some(payload_of(word) as Word)
    } else {
        None
    }
}

proof fn lemma_shift_tag(id: Word, t: u64)
    requires
        id <= 0x1fff_ffff_ffff_ffff,
        t < 8,
    ensures
        (id << 3u8) | t == id * 8 + t,
{
    assert((id << 3u8) | t == id * 8 + t) by (bit_vector)
        requires
            id <= 0x1fff_ffff_ffff_ffffu64,
            t < 8u64,
    ;
}

proof fn lemma_payload_of_shift(word: Word)
    ensures
        word >> 3u8 == word / 8,
{
    assert(word >> 3u8 == word / 8) by (bit_vector);
}

/// Encode a signed 61-bit fixnum. Values outside the target ABI fail closed.
pub fn encode_fixnum(value: i64) -> (r: Option<Word>)
    ensures
        r == fixnum_word(value),
{
    if value < FIXNUM_MIN || value > FIXNUM_MAX {
        None
    } else {
        let t: Word = Tag::Fixnum.value() as Word;
        proof {
            if value >= 0 {
                assert(((value as u64) << 3u8) | 3u64 == (value as u64) * 8 + 3) by (bit_vector)
                    requires
                        0 <= value <= 0x0fff_ffff_ffff_ffffi64,
                ;
            } else {
                assert((((value as u64) << 3u8) | 3u64) as int == (value as int
                    + 0x2000_0000_0000_0000) * 8 + 3) by (bit_vector)
                    requires
                        -0x1000_0000_0000_0000i64 <= value < 0i64,
                ;
            }
        }
        Some(((value as Word) << TAG_BITS) | t)
    }
}

/// Decode a word tagged `Fixnum` back into its signed value.
pub fn decode_fixnum(word: Word) -> (r: Option<i64>)
    ensures
        r == fixnum_value(word),
{
    if tag(word) == Tag::Fixnum.value() as Word {
        proof {
            lemma_payload_of_shift(word);
            assert(((word as i64) >> 3u8) as int == if (word >> 3u8) < 0x1000_0000_0000_0000u64 {
                (word >> 3u8) as int
            } else {
                (word >> 3u8) as int - 0x2000_0000_0000_0000
            }) by (bit_vector);
        }
        Some((word as i64) >> TAG_BITS)
    } else {
        None
    }
}

/// Encode a non-zero image-local interned symbol id.
pub fn encode_symbol(id: Word) -> (r: Option<Word>)
    ensures
        r == handle_word(Tag::Symbol, id),
{
    if id == 0 || id > SYMBOL_ID_MAX {
        None
    } else {
        let t: Word = Tag::Symbol.value() as Word;
        proof {
            lemma_shift_tag(id, t);
        }
        Some((id << TAG_BITS) | t)
    }
}

/// Decode the non-zero symbol id carried by a word tagged `Symbol`.
pub fn decode_symbol(word: Word) -> (r: Option<Word>)
    ensures
        r == handle_id(Tag::Symbol, word),
{
    if tag(word) == Tag::Symbol.value() as Word {
        proof {
            lemma_payload_of_shift(word);
        }
        let id = word >> TAG_BITS;
        if id != 0 {
            return Some(id);
        }
    }
    None
}

/// Encode a non-zero image-local capability handle. The numeric handle is not
/// authority by itself: every privileged ABI import must validate it against
/// the capabilities provisioned by the machine substrate.
pub fn encode_capability(id: Word) -> (r: Option<Word>)
    ensures
        r == handle_word(Tag::Capability, id),
{
    if id == 0 || id > CAPABILITY_ID_MAX {
        None
    } else {
        let t: Word = Tag::Capability.value() as Word;
        proof {
            lemma_shift_tag(id, t);
        }
        Some((id << TAG_BITS) | t)
    }
}

/// Decode the non-zero capability handle carried by a word tagged `Capability`.
pub fn decode_capability(word: Word) -> (r: Option<Word>)
    ensures
        r == handle_id(Tag::Capability, word),
{
    if tag(word) == Tag::Capability.value() as Word {
        proof {
            lemma_payload_of_shift(word);
        }
        let id = word >> TAG_BITS;
        if id != 0 {
            return Some(id);
        }
    }
    None
}

/// Encode a non-zero, runtime-owned boxed-value handle. The handle is
/// **session-local**, not image-local like `Symbol`/`Closure`: it indexes a
/// runtime table (e.g. an append-only, non-interning string/vector arena)
/// that is created fresh per host session and does not survive across
/// sessions or processes. The concrete boxed kind (String, game-engine
/// handle, Rational) is a discriminant carried by the table entry itself,
/// not by this word.
pub fn encode_boxed(handle: Word) -> (r: Option<Word>)
    ensures
        r == handle_word(Tag::Boxed, handle),
{
    if handle == 0 || handle > BOXED_HANDLE_MAX {
        None
    } else {
        let t: Word = Tag::Boxed.value() as Word;
        proof {
            lemma_shift_tag(handle, t);
        }
        Some((handle << TAG_BITS) | t)
    }
}

/// Decode the non-zero boxed-value handle carried by a word tagged `Boxed`.
pub fn decode_boxed(word: Word) -> (r: Option<Word>)
    ensures
        r == handle_id(Tag::Boxed, word),
{
    if tag(word) == Tag::Boxed.value() as Word {
        proof {
            lemma_payload_of_shift(word);
        }
        let handle = word >> TAG_BITS;
        if handle != 0 {
            return Some(handle);
        }
    }
    None
}

} // verus!
