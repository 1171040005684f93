use vstd::prelude::*;

use crate::word::Word;

verus! {

pub const CONTRACT_SCHEMA: &'static str = "wsm-os-target-v1";
pub const CONTRACT_VERSION: u16 = 6;
pub const ARCHITECTURE: &'static str = "x86_64";
pub const ENDIANNESS: &'static str = "little";
pub const POINTER_BITS: u8 = 64;

/// Byte-exact WSM projection of this crate's ABI constants.
///
/// Consumers that need to record the contract in evidence should use this
/// value rather than carrying a second editable `target-contract.wsm` copy.
pub const CONTRACT_PROJECTION: &'static str = "; generated projection of crates/wsm-os-target; do not edit numeric values by hand\n\
((kind . wsm-os-target-contract)\n\
 (schema . \"wsm-os-target-v1\")\n\
 (version . 6)\n\
 (architecture . x86_64)\n\
 (endianness . little)\n\
 (word . ((bits . 64) (pointer-bits . 64) (tag-bits . 3) (tag-mask . 7) (payload-bits . 61)))\n\
 (tags . ((cons . 0) (nil . 1) (true . 2) (fixnum . 3) (symbol . 4) (closure . 5) (capability . 6) (boxed . 7)))\n\
 (immediates . ((nil . 1) (true . 2)))\n\
 (fixnum . ((minimum . -1152921504606846976) (maximum . 1152921504606846975) (encoding . signed-shift-left-3-or-tag)))\n\
 (symbol . ((minimum-id . 1) (maximum-id . 2305843009213693951) (scope . image-local-interned)))\n\
 (boxed . ((minimum-handle . 1) (maximum-handle . 2305843009213693951) (scope . session-local-runtime-table) (discriminant-location . inside-boxed-object) (kinds-defined-so-far . (string game-handle rational)) (forgeable-by-wsm . false) (ownership . runtime-owned-table) (tag-space-remaining . 0)))\n\
 (cons . ((bytes . 16) (alignment . 16) (car-offset . 0) (cdr-offset . 8) (zero-pointer . invalid) (ownership . bounded-runtime-heap)))\n\
 (closure . ((bytes . 16) (alignment . 16) (definition-id-offset . 0) (environment-ref-offset . 8) (definition-scope . image-local) (ownership . bounded-runtime-closure-arena)))\n\
 (capability . ((minimum-id . 1) (maximum-id . 2305843009213693951) (scope . boot-provisioned) (forgeable-by-wsm . false) (privileged-use . runtime-validated)))\n\
 (calling-convention . ((name . sysv-amd64-integer) (entry . wsm_entry) (context-register . rdi) (result-register . rax) (stack-alignment-before-call . 16) (red-zone . forbidden)))\n\
 (runtime-imports . (wsm_cons wsm_car wsm_cdr wsm_eq wsm_atom wsm_closure_new wsm_closure_definition wsm_closure_environment wsm_pci_config_capability wsm_pci_config_read16 wsm_mmio_capability wsm_mmio_read32 wsm_mmio_write32 wsm_rational_new wsm_rational_numerator wsm_rational_denominator wsm_fail))\n\
 (errors . ((out-of-memory . 1) (type . 2) (invalid-symbol . 3) (abi-violation . 4) (numeric-overflow . 5)))\n\
 (truth . ((false-value . nil) (fixnum-zero . true)))\n\
 (target-scope . ((semantics . external-my-lisp-contract) (compiler-provenance . consumer-evidence) (runtime-provenance . consumer-evidence)))\n\
)\n";

pub const CONS_ALIGNMENT: usize = 16;
pub const CONS_BYTES: usize = 16;
pub const CONS_CAR_OFFSET: usize = 0;
pub const CONS_CDR_OFFSET: usize = 8;
pub const CLOSURE_ALIGNMENT: usize = 16;
pub const CLOSURE_BYTES: usize = 16;
pub const CLOSURE_DEFINITION_ID_OFFSET: usize = 0;
pub const CLOSURE_ENVIRONMENT_REF_OFFSET: usize = 8;

pub const CALLING_CONVENTION: &'static str = "sysv-amd64-integer";
pub const ENTRY_SYMBOL: &'static str = "wsm_entry";
pub const ENTRY_CONTEXT_REGISTER: &'static str = "rdi";
pub const RESULT_REGISTER: &'static str = "rax";
pub const STACK_ALIGNMENT_BEFORE_CALL: usize = 16;
pub const RED_ZONE_ALLOWED: bool = false;

/// The runtime imports generated code may call, in ratified order.
///
/// This is a fixed-size array rather than a slice: slice methods such as
/// `contains` and `join` apply to it directly, and `&RUNTIME_IMPORTS[..]`
/// gives a `&[&str]` where one is needed.
pub const RUNTIME_IMPORTS: [&'static str; 17] = [
    "wsm_cons",
    "wsm_car",
    "wsm_cdr",
    "wsm_eq",
    "wsm_atom",
    "wsm_closure_new",
    "wsm_closure_definition",
    "wsm_closure_environment",
    "wsm_pci_config_capability",
    "wsm_pci_config_read16",
    "wsm_mmio_capability",
    "wsm_mmio_read32",
    "wsm_mmio_write32",
    "wsm_rational_new",
    "wsm_rational_numerator",
    "wsm_rational_denominator",
    "wsm_fail",
];

/// Error codes ratified by the target contract.
///
/// The ratified numbers (OutOfMemory 1, Type 2, InvalidSymbol 3, AbiViolation 4,
/// NumericOverflow 5) are what [`ErrorCode::code`] returns. The enum carries no
/// explicit discriminants, so `code as u32` gives the declaration index (0 to
/// 4), not the ratified number: use `code()`.
#[derive(Debug, Clone, Copy, PartialEq, Eq, Structural)]
pub enum ErrorCode {
    OutOfMemory,
    Type,
    InvalidSymbol,
    AbiViolation,
    NumericOverflow,
}

impl ErrorCode {
    pub open spec fn spec_code(self) -> u32 {
        match self {
            ErrorCode::OutOfMemory => 1,
            ErrorCode::Type => 2,
            ErrorCode::InvalidSymbol => 3,
            ErrorCode::AbiViolation => 4,
            ErrorCode::NumericOverflow => 5,
        }
    }

    /// The ratified numeric code of this error.
    #[verifier::when_used_as_spec(spec_code)]
    pub fn code(self) -> (r: u32)
        ensures
            r == self.spec_code(),
    {
        match self {
            ErrorCode::OutOfMemory => 1,
            ErrorCode::Type => 2,
            ErrorCode::InvalidSymbol => 3,
            ErrorCode::AbiViolation => 4,
            ErrorCode::NumericOverflow => 5,
        }
    }
}

} // verus!
