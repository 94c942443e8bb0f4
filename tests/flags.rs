use cubism_core::{ConstantFlags, DynamicFlags};

#[test]
fn constant_flag_validity() {
    for bits in 0u8..=0x0F {
        assert!(ConstantFlags::from_bits_retain(bits).is_valid());
        assert!(ConstantFlags::from_bits(bits).is_some());
    }
    assert!(!ConstantFlags::from_bits_retain(0x10).is_valid());
    assert!(ConstantFlags::from_bits(0x80).is_none());
    assert_eq!(ConstantFlags::all().bits(), 0x0F);
    assert_eq!(ConstantFlags::empty().bits(), 0);
    let f = ConstantFlags::from_bits_retain(ConstantFlags::BLEND_ADDITIVE | ConstantFlags::IS_INVERTED_MASK);
    assert!(f.contains(ConstantFlags::BLEND_ADDITIVE));
    assert!(!f.contains(ConstantFlags::IS_DOUBLE_SIDED));
}

#[test]
fn dynamic_flag_validity() {
    for bits in 0u8..=0x3F {
        assert!(DynamicFlags::from_bits_retain(bits).is_valid());
    }
    assert!(!DynamicFlags::from_bits_retain(0x40).is_valid());
    assert!(DynamicFlags::from_bits(0xC1).is_none());
    assert_eq!(DynamicFlags::all().bits(), 0x3F);
    let f = DynamicFlags::from_bits(DynamicFlags::IS_VISIBLE | DynamicFlags::VERTEX_POSITIONS_DID_CHANGE).unwrap();
    assert!(f.contains(DynamicFlags::IS_VISIBLE));
    assert!(!f.contains(DynamicFlags::OPACITY_DID_CHANGE));
}
