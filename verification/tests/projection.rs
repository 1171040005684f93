use wsm_os_target::{
    ErrorCode, Tag, ARCHITECTURE, BOXED_HANDLE_MAX, CALLING_CONVENTION, CAPABILITY_ID_MAX,
    CLOSURE_ALIGNMENT, CLOSURE_BYTES, CLOSURE_DEFINITION_ID_OFFSET,
    CLOSURE_ENVIRONMENT_REF_OFFSET, CONS_ALIGNMENT, CONS_BYTES, CONS_CAR_OFFSET, CONS_CDR_OFFSET,
    CONTRACT_PROJECTION, CONTRACT_SCHEMA, CONTRACT_VERSION, ENDIANNESS, ENTRY_CONTEXT_REGISTER,
    ENTRY_SYMBOL, FIXNUM_MAX, FIXNUM_MIN, NIL, PAYLOAD_BITS, POINTER_BITS, RESULT_REGISTER,
    RUNTIME_IMPORTS, STACK_ALIGNMENT_BEFORE_CALL, SYMBOL_ID_MAX, TAG_BITS, TAG_MASK, TRUE,
    WORD_BITS,
};

#[test]
fn committed_wsm_projection_is_current() {
    assert_eq!(CONTRACT_PROJECTION, render_contract());
}

#[test]
fn error_projection_covers_every_ratified_error_code() {
    let projection = render_contract();
    for (name, code) in [
        ("out-of-memory", ErrorCode::OutOfMemory),
        ("type", ErrorCode::Type),
        ("invalid-symbol", ErrorCode::InvalidSymbol),
        ("abi-violation", ErrorCode::AbiViolation),
        ("numeric-overflow", ErrorCode::NumericOverflow),
    ] {
        let expected = format!("({name} . {})", code.code());
        assert!(
            projection.contains(&expected),
            "target projection omitted ratified error code: {expected}"
        );
    }
}

fn render_contract() -> String {
    let runtime_imports = RUNTIME_IMPORTS.join(" ");
    format!(
        "; generated projection of crates/wsm-os-target; do not edit numeric values by hand\n\
((kind . wsm-os-target-contract)\n\
 (schema . \"{CONTRACT_SCHEMA}\")\n\
 (version . {CONTRACT_VERSION})\n\
 (architecture . {ARCHITECTURE})\n\
 (endianness . {ENDIANNESS})\n\
 (word . ((bits . {WORD_BITS}) (pointer-bits . {POINTER_BITS}) (tag-bits . {TAG_BITS}) (tag-mask . {TAG_MASK}) (payload-bits . {PAYLOAD_BITS})))\n\
 (tags . ((cons . {}) (nil . {}) (true . {}) (fixnum . {}) (symbol . {}) (closure . {}) (capability . {}) (boxed . {})))\n\
 (immediates . ((nil . {NIL}) (true . {TRUE})))\n\
 (fixnum . ((minimum . {FIXNUM_MIN}) (maximum . {FIXNUM_MAX}) (encoding . signed-shift-left-3-or-tag)))\n\
 (symbol . ((minimum-id . 1) (maximum-id . {SYMBOL_ID_MAX}) (scope . image-local-interned)))\n\
 (boxed . ((minimum-handle . 1) (maximum-handle . {BOXED_HANDLE_MAX}) (scope . session-local-runtime-table) (discriminant-location . inside-boxed-object) (kinds-defined-so-far . (string game-handle rational)) (forgeable-by-wsm . false) (ownership . runtime-owned-table) (tag-space-remaining . 0)))\n\
 (cons . ((bytes . {CONS_BYTES}) (alignment . {CONS_ALIGNMENT}) (car-offset . {CONS_CAR_OFFSET}) (cdr-offset . {CONS_CDR_OFFSET}) (zero-pointer . invalid) (ownership . bounded-runtime-heap)))\n\
 (closure . ((bytes . {CLOSURE_BYTES}) (alignment . {CLOSURE_ALIGNMENT}) (definition-id-offset . {CLOSURE_DEFINITION_ID_OFFSET}) (environment-ref-offset . {CLOSURE_ENVIRONMENT_REF_OFFSET}) (definition-scope . image-local) (ownership . bounded-runtime-closure-arena)))\n\
 (capability . ((minimum-id . 1) (maximum-id . {CAPABILITY_ID_MAX}) (scope . boot-provisioned) (forgeable-by-wsm . false) (privileged-use . runtime-validated)))\n\
 (calling-convention . ((name . {CALLING_CONVENTION}) (entry . {ENTRY_SYMBOL}) (context-register . {ENTRY_CONTEXT_REGISTER}) (result-register . {RESULT_REGISTER}) (stack-alignment-before-call . {STACK_ALIGNMENT_BEFORE_CALL}) (red-zone . forbidden)))\n\
 (runtime-imports . ({runtime_imports}))\n\
 (errors . ((out-of-memory . {}) (type . {}) (invalid-symbol . {}) (abi-violation . {}) (numeric-overflow . {})))\n\
 (truth . ((false-value . nil) (fixnum-zero . true)))\n\
 (target-scope . ((semantics . external-my-lisp-contract) (compiler-provenance . consumer-evidence) (runtime-provenance . consumer-evidence)))\n\
)\n",
        Tag::Cons as u8,
        Tag::Nil as u8,
        Tag::True as u8,
        Tag::Fixnum as u8,
        Tag::Symbol as u8,
        Tag::Closure as u8,
        Tag::Capability as u8,
        Tag::Boxed as u8,
        ErrorCode::OutOfMemory.code(),
        ErrorCode::Type.code(),
        ErrorCode::InvalidSymbol.code(),
        ErrorCode::AbiViolation.code(),
        ErrorCode::NumericOverflow.code(),
    )
}
