use cubism_core::{csmModel, csmMoc, ALIGN_OF_MOC, ALIGN_OF_MODEL};

#[test]
fn test_alignment() {
    assert_eq!(std::mem::align_of::<csmMoc>(), ALIGN_OF_MOC);
    assert_eq!(std::mem::align_of::<csmModel>(), ALIGN_OF_MODEL);
}
