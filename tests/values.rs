use cubism_core::ieee::{check_opacity, eq, is_nan, le};
use cubism_core::{Canvas, PartParent, Vector2};

#[test]
fn opacity_boundaries() {
    assert!(check_opacity((0.0f32 - 1e-4f32).to_bits()));
    assert!(check_opacity((1.0f32 + 1e-4f32).to_bits()));
    assert!(!check_opacity((0.0f32 - 2e-4f32).to_bits()));
    assert!(!check_opacity((1.0f32 + 2e-4f32).to_bits()));
    assert!(check_opacity(0.5f32.to_bits()));
    assert!(check_opacity((-0.0f32).to_bits()));
    assert!(!check_opacity(f32::NAN.to_bits()));
    assert!(!check_opacity(f32::INFINITY.to_bits()));
}

#[test]
fn single_precision_order() {
    let cases: [f32; 9] = [f32::NEG_INFINITY, -3.5, -1.0, -0.0, 0.0, 1e-30, 1.0, 2.5, f32::INFINITY];
    for a in cases {
        for b in cases {
            assert_eq!(le(a.to_bits(), b.to_bits()), a <= b, "{} <= {}", a, b);
            assert_eq!(eq(a.to_bits(), b.to_bits()), a == b, "{} == {}", a, b);
        }
    }
    assert!(is_nan(f32::NAN.to_bits()));
    assert!(!le(f32::NAN.to_bits(), 1.0f32.to_bits()));
    assert!(!eq(f32::NAN.to_bits(), f32::NAN.to_bits()));
}

#[test]
fn part_parent_encoding() {
    assert!(PartParent::new(None).is_root());
    assert_eq!(PartParent::new(None).parent(), None);
    assert_eq!(PartParent::new(Some(4)).parent(), Some(4));
    assert!(!PartParent::new(Some(0)).is_root());
    assert_eq!(PartParent::default(), PartParent(PartParent::ROOT));
    assert!(PartParent(-1).is_valid());
    assert!(!PartParent(-2).is_valid());
    assert_eq!(PartParent(-2).parent(), None);
}

#[test]
fn vector_equality_follows_numbers() {
    let a = Vector2::new(0.0f32.to_bits(), 1.5f32.to_bits());
    let b = Vector2::new((-0.0f32).to_bits(), 1.5f32.to_bits());
    assert!(a == b);
    assert_eq!(a.x_y(), (0.0f32.to_bits(), 1.5f32.to_bits()));
    assert_eq!(b.x(), (-0.0f32).to_bits());
    assert_eq!(b.y(), 1.5f32.to_bits());
    let n = Vector2::new(f32::NAN.to_bits(), 0);
    assert!(n != n);
    assert!(Vector2::default() == Vector2::new(0, 0));
    let c = Canvas { size_in_pixels: a, origin_in_pixels: b, pixels_per_unit: 2.0f32.to_bits() };
    assert!(c == c.clone());
}
