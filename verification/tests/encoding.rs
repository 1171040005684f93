use wsm_os_target::{
    decode_boxed, decode_capability, decode_capability_descriptor, decode_closure_pointer,
    decode_fixnum, decode_symbol, encode_boxed, encode_capability, encode_capability_descriptor,
    encode_closure_pointer, encode_fixnum, encode_symbol, is_aligned_cons_pointer, is_false, tag,
    CapabilityDescriptor, CapabilityKind, ClosureDescriptor, Tag, Word, BOXED_HANDLE_MAX,
    CAPABILITY_NONCE_MAX, FIXNUM_MAX, FIXNUM_MIN, NIL, SYMBOL_ID_MAX, TAG_MASK, TRUE,
};

#[test]
fn fixnum_boundaries_round_trip() {
    for value in [FIXNUM_MIN, -1, 0, 1, FIXNUM_MAX] {
        let encoded = encode_fixnum(value).expect("boundary must encode");
        assert_eq!(decode_fixnum(encoded), Some(value));
    }
    assert_eq!(encode_fixnum(FIXNUM_MIN - 1), None);
    assert_eq!(encode_fixnum(FIXNUM_MAX + 1), None);
}

#[test]
fn symbols_are_non_zero_image_local_ids() {
    assert_eq!(encode_symbol(0), None);
    assert_eq!(decode_symbol(encode_symbol(1).unwrap()), Some(1));
    assert_eq!(
        decode_symbol(encode_symbol(SYMBOL_ID_MAX).unwrap()),
        Some(SYMBOL_ID_MAX)
    );
}

#[test]
fn capabilities_are_distinct_non_zero_handles() {
    assert_eq!(encode_capability(0), None);
    let capability = encode_capability(1).unwrap();
    assert_eq!(decode_capability(capability), Some(1));
    assert_eq!(decode_fixnum(capability), None);
    assert_eq!(decode_symbol(capability), None);
    assert_eq!(decode_capability(TRUE), None);
}

#[test]
fn capability_descriptors_round_trip_and_reject_forgery() {
    let desc = CapabilityDescriptor::new(CapabilityKind::PciConfig, 0, 0x1234_5678).unwrap();
    let word = encode_capability_descriptor(desc).unwrap();
    assert_eq!(decode_capability_descriptor(word), Some(desc));

    // Different kind
    let mmio_desc = CapabilityDescriptor::new(CapabilityKind::Mmio, 1, 0x1234_5678).unwrap();
    let mmio_word = encode_capability_descriptor(mmio_desc).unwrap();
    assert_ne!(word, mmio_word);
    let decoded_mmio = decode_capability_descriptor(mmio_word).unwrap();
    assert_eq!(decoded_mmio.kind, CapabilityKind::Mmio);
    assert_eq!(decoded_mmio.instance, 1);

    // Zero or overflowing nonce fails
    assert_eq!(
        CapabilityDescriptor::new(CapabilityKind::PciConfig, 0, 0),
        None
    );
    assert_eq!(
        CapabilityDescriptor::new(CapabilityKind::PciConfig, 0, CAPABILITY_NONCE_MAX + 1),
        None
    );

    // Invalid kind rejected in from_id
    assert_eq!(CapabilityDescriptor::from_id(0), None);
    // Nonce is 0 in from_id
    assert_eq!(CapabilityDescriptor::from_id(1), None);
}

#[test]
fn truth_and_pointer_shapes_are_distinct() {
    assert!(is_false(NIL));
    assert!(!is_false(TRUE));
    assert!(!is_false(encode_fixnum(0).unwrap()));
    assert!(!is_aligned_cons_pointer(0));
    assert!(is_aligned_cons_pointer(0x1000));
    assert!(!is_aligned_cons_pointer(0x1008));
}

#[test]
fn closure_descriptor_is_metadata_not_a_runtime_value() {
    let descriptor = ClosureDescriptor::new(7, NIL);
    assert_eq!(descriptor.definition_id, 7);
    assert_eq!(descriptor.environment_ref, NIL);
    assert_eq!(core::mem::size_of::<ClosureDescriptor>(), 16);
}

#[test]
fn closure_pointer_tag_round_trips_without_claiming_ownership() {
    let encoded = encode_closure_pointer(0x1000).unwrap();
    assert_eq!(tag(encoded), Tag::Closure as Word);
    assert_eq!(decode_closure_pointer(encoded), Some(0x1000));
    assert_eq!(encode_closure_pointer(0), None);
    assert_eq!(encode_closure_pointer(0x1008), None);
    assert_eq!(decode_closure_pointer(TRUE), None);
}

#[test]
fn boxed_handles_are_distinct_non_zero_session_local_ids() {
    assert_eq!(encode_boxed(0), None);
    let boxed = encode_boxed(1).unwrap();
    assert_eq!(decode_boxed(boxed), Some(1));
    assert_eq!(decode_fixnum(boxed), None);
    assert_eq!(decode_symbol(boxed), None);
    assert_eq!(decode_capability(boxed), None);
    assert_eq!(decode_boxed(TRUE), None);
    assert_eq!(
        decode_boxed(encode_boxed(BOXED_HANDLE_MAX).unwrap()),
        Some(BOXED_HANDLE_MAX)
    );
}

#[test]
fn tag_values_are_unique_and_fit_mask() {
    let tags = [
        Tag::Cons,
        Tag::Nil,
        Tag::True,
        Tag::Fixnum,
        Tag::Symbol,
        Tag::Closure,
        Tag::Capability,
        Tag::Boxed,
    ];
    for (index, left) in tags.iter().enumerate() {
        assert!((*left as Word) <= TAG_MASK);
        for right in &tags[index + 1..] {
            assert_ne!(*left as u8, *right as u8);
        }
    }
}
