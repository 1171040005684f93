//! Machine-readable target ABI shared by CML emission and the wsm-os runtime.
//!
//! This crate defines an independent freestanding representation of tagged
//! 64-bit value words: the low `TAG_BITS` bits of a word carry its [`Tag`],
//! the remaining `PAYLOAD_BITS` bits carry the payload.
//!
//! The encoders, decoders and descriptor constructors are ordinary functions,
//! not `const fn`s: they cannot be called to initialise a constant. Use the
//! numeric constants of this crate where a constant is needed.

pub mod capability;
pub mod contract;
pub mod immediates;
pub mod laws;
pub mod pointers;
pub mod wire;
pub mod word;

pub use capability::{
    decode_capability_descriptor, encode_capability_descriptor, CapabilityDescriptor,
    CapabilityKind, CAPABILITY_INSTANCE_BITS, CAPABILITY_INSTANCE_MASK, CAPABILITY_KIND_BITS,
    CAPABILITY_KIND_MASK, CAPABILITY_NONCE_BITS, CAPABILITY_NONCE_MAX,
};
pub use contract::{
    ARCHITECTURE, CALLING_CONVENTION, CLOSURE_ALIGNMENT, CLOSURE_BYTES,
    CLOSURE_DEFINITION_ID_OFFSET, CLOSURE_ENVIRONMENT_REF_OFFSET, CONS_ALIGNMENT, CONS_BYTES,
    CONS_CAR_OFFSET, CONS_CDR_OFFSET, CONTRACT_PROJECTION, CONTRACT_SCHEMA, CONTRACT_VERSION,
    ENDIANNESS, ENTRY_CONTEXT_REGISTER, ErrorCode, ENTRY_SYMBOL, POINTER_BITS, RED_ZONE_ALLOWED,
    RESULT_REGISTER, RUNTIME_IMPORTS, STACK_ALIGNMENT_BEFORE_CALL,
};
pub use immediates::{
    decode_boxed, decode_capability, decode_fixnum, decode_symbol, encode_boxed,
    encode_capability, encode_fixnum, encode_symbol, BOXED_HANDLE_MAX, CANONICAL_T,
    CAPABILITY_ID_MAX, FIXNUM_MAX, FIXNUM_MIN, SYMBOL_ID_MAX,
};
pub use pointers::{
    decode_closure_pointer, encode_closure_pointer, is_aligned_cons_pointer, ClosureDescriptor,
};
pub use word::{is_false, tag, Tag, Word, NIL, PAYLOAD_BITS, TAG_BITS, TAG_MASK, TRUE, WORD_BITS};
