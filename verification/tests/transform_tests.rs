use skelanim::fixed::FX_ONE;
use skelanim::math::{Mat4, Quat, Vec3};
use skelanim::transform::Transform;

fn fxt(v: f64) -> i64 {
    (v * FX_ONE as f64).round() as i64
}

fn tft(x: i64) -> f64 {
    x as f64 / FX_ONE as f64
}

#[test]
fn identity_transform_converts_to_identity_matrix() {
    let t = Transform::identity();
    assert_eq!(t.to_matrix(), Mat4::identity());
}

#[test]
fn compose_equals_matrix_product_exactly() {
    let a = Transform {
        translation: Vec3::new(fxt(1.0), fxt(2.0), fxt(3.0)),
        rotation: Quat::new(0, 0, fxt(0.5), fxt(0.8660254)),
        scale: Vec3::new(fxt(2.0), fxt(2.0), fxt(2.0)),
    };
    let b = Transform {
        translation: Vec3::new(fxt(-1.0), fxt(0.5), 0),
        rotation: Quat::identity(),
        scale: Vec3::new(fxt(1.0), fxt(1.0), fxt(1.0)),
    };
    let composed = a.compose(&b);
    let product = a.to_matrix().mul(&b.to_matrix());
    assert_eq!(composed, product);

    let composed_ba = b.compose(&a);
    let product_ba = b.to_matrix().mul(&a.to_matrix());
    assert_eq!(composed_ba, product_ba);
}

#[test]
fn compose_two_translations_adds_offsets() {
    let a = Transform {
        translation: Vec3::new(fxt(1.0), 0, 0),
        rotation: Quat::identity(),
        scale: Vec3::new(FX_ONE, FX_ONE, FX_ONE),
    };
    let b = Transform {
        translation: Vec3::new(0, fxt(1.0), 0),
        rotation: Quat::identity(),
        scale: Vec3::new(FX_ONE, FX_ONE, FX_ONE),
    };
    let m = a.compose(&b);
    assert_eq!(m.m03, fxt(1.0));
    assert_eq!(m.m13, fxt(1.0));
    assert_eq!(m.m23, 0);
    assert_eq!(m.m00, FX_ONE);
    assert_eq!(m.m11, FX_ONE);
    assert_eq!(m.m22, FX_ONE);
    assert_eq!(m.m33, FX_ONE);
}

#[test]
fn rotation_matrix_of_quarter_turn_about_y() {
    let half = 0.70710678118;
    let t = Transform {
        translation: Vec3::new(0, 0, 0),
        rotation: Quat::new(0, fxt(half), 0, fxt(half)),
        scale: Vec3::new(FX_ONE, FX_ONE, FX_ONE),
    };
    let m = t.to_matrix();
    let tol = 1e-3;
    assert!((tft(m.m00) - 0.0).abs() < tol);
    assert!((tft(m.m02) - 1.0).abs() < tol);
    assert!((tft(m.m20) + 1.0).abs() < tol);
    assert!((tft(m.m22) - 0.0).abs() < tol);
    assert!((tft(m.m11) - 1.0).abs() < tol);
}

#[test]
fn degenerate_rotation_behaves_as_identity() {
    let t = Transform {
        translation: Vec3::new(0, 0, 0),
        rotation: Quat::new(0, 0, 0, 0),
        scale: Vec3::new(FX_ONE, FX_ONE, FX_ONE),
    };
    assert_eq!(t.to_matrix(), Mat4::identity());
}

#[test]
fn nonuniform_scale_lands_on_diagonal() {
    let t = Transform {
        translation: Vec3::new(0, 0, 0),
        rotation: Quat::identity(),
        scale: Vec3::new(fxt(2.0), fxt(3.0), fxt(4.0)),
    };
    let m = t.to_matrix();
    assert_eq!(m.m00, fxt(2.0));
    assert_eq!(m.m11, fxt(3.0));
    assert_eq!(m.m22, fxt(4.0));
    assert_eq!(m.m33, FX_ONE);
}
