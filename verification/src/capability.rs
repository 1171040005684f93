use vstd::prelude::*;

use crate::immediates::{decode_capability, encode_capability, handle_id, handle_word};
use crate::word::{Tag, Word};

verus! {

/// The kind of hardware resource a capability grants access to.
///
/// The ratified numbers of the kinds (PciConfig 1, Mmio 2, Dma 3, Interrupt 4)
/// are what [`CapabilityKind::value`] returns. The enum carries no explicit
/// discriminants, so `kind as u8` gives the declaration index (0 to 3), not the
/// ratified number: use `value()`.
#[derive(Debug, Clone, Copy, PartialEq, Eq, Structural)]
pub enum CapabilityKind {
    PciConfig,
    Mmio,
    Dma,
    Interrupt,
}

pub const CAPABILITY_KIND_BITS: u8 = 8;
pub const CAPABILITY_INSTANCE_BITS: u8 = 8;
/// 61 payload bits less the kind and instance bits.
pub const CAPABILITY_NONCE_BITS: u8 = 45;

pub const CAPABILITY_KIND_MASK: Word = 0xff;
pub const CAPABILITY_INSTANCE_MASK: Word = 0xff;
pub const CAPABILITY_NONCE_MAX: Word = 0x1fff_ffff_ffff;

impl CapabilityKind {
    pub open spec fn spec_value(self) -> u8 {
        match self {
            CapabilityKind::PciConfig => 1,
            CapabilityKind::Mmio => 2,
            CapabilityKind::Dma => 3,
            CapabilityKind::Interrupt => 4,
        }
    }

    /// The numeric discriminant of this kind, as stored in the low bits of a
    /// capability id.
    #[verifier::when_used_as_spec(spec_value)]
    pub fn value(self) -> (r: u8)
        ensures
            r == self.spec_value(),
    {
        match self {
            CapabilityKind::PciConfig => 1,
            CapabilityKind::Mmio => 2,
            CapabilityKind::Dma => 3,
            CapabilityKind::Interrupt => 4,
        }
    }
}

/// The kind whose discriminant is `raw`, if any.
pub open spec fn kind_of_raw(raw: int) -> Option<CapabilityKind> {
    if raw == 1 {
        Some(CapabilityKind::PciConfig)
    } else if raw == 2 {
        Some(CapabilityKind::Mmio)
    } else if raw == 3 {
        Some(CapabilityKind::Dma)
    } else if raw == 4 {
        Some(CapabilityKind::Interrupt)
    } else {
        None
    }
}

/// Bounded, unforgeable capability descriptor carrying kind, instance, and provenance nonce.
#[derive(Debug, Clone, Copy, PartialEq, Eq, Structural)]
pub struct CapabilityDescriptor {
    pub kind: CapabilityKind,
    pub instance: u8,
    pub nonce: Word,
}

/// A nonce that a descriptor may carry: non-zero and within `CAPABILITY_NONCE_BITS` bits.
pub open spec fn valid_nonce(nonce: int) -> bool {
    1 <= nonce <= CAPABILITY_NONCE_MAX
}

/// The descriptor that a capability id stands for: kind in the low 8 bits,
/// instance in the next 8, nonce above them; nothing where the kind is unknown
/// or the nonce is not valid.
pub open spec fn descriptor_of_id(id: Word) -> Option<CapabilityDescriptor> {
    match kind_of_raw(id as int % 0x100) {
        Some(kind) => if valid_nonce(id as int / 0x1_0000) {
            Some(
                CapabilityDescriptor {
                    kind,
                    instance: ((id as int / 0x100) % 0x100) as u8,
                    nonce: (id as int / 0x1_0000) as Word,
                },
            )
        } else {
            None
        },
        None => None,
    }
}

impl CapabilityDescriptor {
    /// Descriptors built by `new` or `from_id` carry a valid nonce.
    pub open spec fn wf(self) -> bool {
        valid_nonce(self.nonce as int)
    }

    /// The id of a descriptor: `nonce * 2^16 + instance * 2^8 + kind`, where
    /// only the low 48 bits of the nonce fit in the word.
    pub open spec fn spec_to_id(self) -> Word {
        ((self.nonce as int % 0x1_0000_0000_0000) * 0x1_0000 + self.instance as int * 0x100
            + self.kind.spec_value() as int) as Word
    }

    pub fn new(kind: CapabilityKind, instance: u8, nonce: Word) -> (r: Option<Self>)
        ensures
            r == (if valid_nonce(nonce as int) {
                Some(CapabilityDescriptor { kind, instance, nonce })
            } else {
                None
            }),
    {
        if nonce == 0 || nonce > CAPABILITY_NONCE_MAX {
            None
        } else {
            Some(Self { kind, instance, nonce })
        }
    }

    #[verifier::when_used_as_spec(spec_to_id)]
    pub fn to_id(self) -> (r: Word)
        ensures
            r == self.spec_to_id(),
    {
        let kind_bits = (self.kind.value() as Word) & CAPABILITY_KIND_MASK;
        let instance_bits = (self.instance as Word) & CAPABILITY_INSTANCE_MASK;
        proof {
            let k = self.kind.spec_value() as Word;
            let i = self.instance as Word;
            let nonce = self.nonce;
            assert(k & 0xff == k) by (bit_vector)
                requires
                    k < 0x100u64,
            ;
            assert(i & 0xff == i) by (bit_vector)
                requires
                    i < 0x100u64,
            ;
            assert(((nonce << 16u8) | (i << 8u8) | k) as int == (nonce as int
                % 0x1_0000_0000_0000) * 0x1_0000 + i as int * 0x100 + k as int) by (bit_vector)
                requires
                    k < 0x100u64,
                    i < 0x100u64,
            ;
        }
        (self.nonce << (CAPABILITY_KIND_BITS + CAPABILITY_INSTANCE_BITS)) | (instance_bits
            << CAPABILITY_KIND_BITS) | kind_bits
    }

    pub fn from_id(id: Word) -> (r: Option<Self>)
        ensures
            r == descriptor_of_id(id),
    {
        proof {
            assert(id & 0xff == id % 0x100) by (bit_vector);
            assert((id >> 8u8) & 0xff == (id / 0x100) % 0x100) by (bit_vector);
            assert(id >> 16u8 == id / 0x1_0000) by (bit_vector);
        }
        let kind_raw = (id & CAPABILITY_KIND_MASK) as u8;
        let instance = ((id >> CAPABILITY_KIND_BITS) & CAPABILITY_INSTANCE_MASK) as u8;
        let nonce = id >> (CAPABILITY_KIND_BITS + CAPABILITY_INSTANCE_BITS);
        let kind = match kind_raw {
            1 => CapabilityKind::PciConfig,
            2 => CapabilityKind::Mmio,
            3 => CapabilityKind::Dma,
            4 => CapabilityKind::Interrupt,
            _ => return None,
        };
        if nonce == 0 || nonce > CAPABILITY_NONCE_MAX {
            None
        } else {
            Some(Self { kind, instance, nonce })
        }
    }
}

/// What `encode_capability_descriptor` gives back: the capability word of the
/// descriptor's id.
pub open spec fn descriptor_word(descriptor: CapabilityDescriptor) -> Option<Word> {
    handle_word(Tag::Capability, descriptor.spec_to_id())
}

/// What `decode_capability_descriptor` gives back: the descriptor of the
/// capability id carried by the word, if the word is a capability word and the
/// id names a descriptor.
pub open spec fn word_descriptor(word: Word) -> Option<CapabilityDescriptor> {
    match handle_id(Tag::Capability, word) {
        Some(id) => descriptor_of_id(id),
        None => None,
    }
}

/// Encode a verified capability descriptor into an opaque capability Word.
pub fn encode_capability_descriptor(descriptor: CapabilityDescriptor) -> (r: Option<Word>)
    ensures
        r == descriptor_word(descriptor),
        descriptor.wf() ==> r is Some,
{
    proof {
        let id = descriptor.spec_to_id();
        if descriptor.wf() {
            assert(1 <= id <= 0x1fff_ffff_ffff_ffff);
        }
    }
    encode_capability(descriptor.to_id())
}

/// Decode and validate the internal capability descriptor from a capability Word.
pub fn decode_capability_descriptor(word: Word) -> (r: Option<CapabilityDescriptor>)
    ensures
        r == word_descriptor(word),
{
    if let Some(id) = decode_capability(word) {
        CapabilityDescriptor::from_id(id)
    } else {
        None
    }
}

} // verus!
