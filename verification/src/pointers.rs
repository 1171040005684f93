use vstd::prelude::*;

use crate::contract::{CLOSURE_ALIGNMENT, CONS_ALIGNMENT};
use crate::word::{tag, tag_of, Tag, Word, TAG_MASK};

verus! {

/// Bounded closure descriptor owned by the active runtime closure arena.
/// `definition_id` is image-local; `environment_ref` is an owned WSM value.
///
/// The Rust layout of this type is not pinned to the ABI: it carries no
/// `repr` attribute, so its size is 16 bytes but its alignment is that of
/// `Word` (8, not `CLOSURE_ALIGNMENT`), and the compiler may order the fields
/// otherwise than `CLOSURE_DEFINITION_ID_OFFSET` and
/// `CLOSURE_ENVIRONMENT_REF_OFFSET` say. Code that writes a descriptor into the
/// runtime closure arena must place the fields at those offsets itself.
#[derive(Debug, Clone, Copy, PartialEq, Eq, Structural)]
pub struct ClosureDescriptor {
    pub definition_id: u32,
    pub environment_ref: Word,
}

impl ClosureDescriptor {
    #[inline(always)]
    pub fn new(definition_id: u32, environment_ref: Word) -> (r: Self)
        ensures
            r == (ClosureDescriptor { definition_id, environment_ref }),
    {
        Self { definition_id, environment_ref }
    }
}

/// A word that has the shape of a cons pointer: non-zero, tag `Cons`, and a
/// multiple of `CONS_ALIGNMENT`.
pub open spec fn cons_pointer_shape(word: Word) -> bool {
    word != 0 && tag_of(word) == Tag::Cons.spec_value() && word as int % 16 == 0
}

/// A descriptor address that can be tagged as a closure: non-zero and a
/// multiple of `CLOSURE_ALIGNMENT`.
pub open spec fn closure_address(pointer: Word) -> bool {
    pointer != 0 && pointer as int % 16 == 0
}

/// What `encode_closure_pointer` gives back: the address with tag `Closure`
/// in its low bits, for an address that can be tagged.
pub open spec fn closure_word(pointer: Word) -> Option<Word> {
    if closure_address(pointer) {
        Some((pointer + Tag::Closure.spec_value()) as Word)
    } else {
        None
    }
}

/// What `decode_closure_pointer` gives back: the word with its tag bits
/// cleared, for a word tagged `Closure`.
pub open spec fn closure_address_of(word: Word) -> Option<Word> {
    if tag_of(word) == Tag::Closure.spec_value() {
        Some((word - Tag::Closure.spec_value()) as Word)
    } else {
        None
    }
}

/// Structural cons-pointer check. Heap ownership/range is a runtime check.
pub fn is_aligned_cons_pointer(word: Word) -> (r: bool)
    ensures
        r == cons_pointer_shape(word),
{
    word != 0 && tag(word) == Tag::Cons.value() as Word && word % (CONS_ALIGNMENT as Word) == 0
}

/// Tag an aligned runtime-owned descriptor pointer as a closure value.
#[inline(always)]
pub fn encode_closure_pointer(pointer: Word) -> (r: Option<Word>)
    ensures
        r == closure_word(pointer),
{
    if pointer != 0 && pointer % (CLOSURE_ALIGNMENT as Word) == 0 {
        let t: Word = Tag::Closure.value() as Word;
        proof {
            assert(pointer | 5 == pointer + 5) by (bit_vector)
                requires
                    pointer % 16 == 0,
            ;
        }
        Some(pointer | t)
    } else {
        None
    }
}

/// Recover the untagged descriptor address. Arena ownership remains a runtime check.
#[inline(always)]
pub fn decode_closure_pointer(word: Word) -> (r: Option<Word>)
    ensures
        r == closure_address_of(word),
{
    if tag(word) == Tag::Closure.value() as Word {
        proof {
            assert(word & !7u64 == word - 5) by (bit_vector)
                requires
                    word % 8 == 5,
            ;
        }
        Some(word & !TAG_MASK)
    } else {
        None
    }
}

} // verus!
