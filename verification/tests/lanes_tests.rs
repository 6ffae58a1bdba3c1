use physics_core::lanes::lanes_add;
use physics_core::lanes::lanes_div;
use physics_core::lanes::lanes_mul;
use physics_core::lanes::lanes_neg;
use physics_core::lanes::lanes_splat;
use physics_core::lanes::lanes_sub;
use physics_core::lanes::ONE;
use physics_core::lanes::SIMD_WIDTH;
use physics_core::math::gcross_angular;
use physics_core::math::WIsometry2;
use physics_core::math::WSdpMatrix2;
use physics_core::math::WVector2;

#[test]
fn splat_fills_every_lane() {
    assert_eq!(SIMD_WIDTH, 4);
    assert_eq!(lanes_splat(7), [7, 7, 7, 7]);
    assert_eq!(lanes_splat(-ONE), [-65536, -65536, -65536, -65536]);
}

#[test]
fn add_and_sub_work_lane_by_lane() {
    let a = [1, -2, 300, i64::MAX - 1];
    let b = [10, 20, -30, 1];
    assert_eq!(lanes_add(&a, &b), Some([11, 18, 270, i64::MAX]));
    assert_eq!(lanes_sub(&a, &b), Some([-9, -22, 330, i64::MAX - 2]));
}

#[test]
fn add_has_no_result_where_one_lane_overflows() {
    assert_eq!(lanes_add(&[0, 0, 0, i64::MAX], &[0, 0, 0, 1]), None);
    assert_eq!(lanes_add(&[i64::MIN, 0, 0, 0], &[-1, 0, 0, 0]), None);
    assert_eq!(lanes_sub(&[0, i64::MIN, 0, 0], &[0, 1, 0, 0]), None);
    assert_eq!(lanes_sub(&[0, 0, 0, 0], &[0, 0, i64::MIN, 0]), None);
}

#[test]
fn neg_has_no_result_for_the_least_value() {
    assert_eq!(lanes_neg(&[1, -1, 0, i64::MAX]), Some([-1, 1, 0, -i64::MAX]));
    assert_eq!(lanes_neg(&[1, i64::MIN, 0, 0]), None);
}

#[test]
fn mul_rescales_and_rounds_toward_zero() {
    let a = [98304, -98304, 65537, -1];
    let b = [98304, 98304, 65537, 1];
    assert_eq!(lanes_mul(&a, &b), Some([147456, -147456, 65538, 0]));
    assert_eq!(lanes_mul(&[3, -3, 65535, -65535], &[ONE, ONE, 1, 1]), Some([3, -3, 0, 0]));
}

#[test]
fn mul_has_no_result_where_the_exact_product_overflows() {
    assert_eq!(lanes_mul(&[i64::MAX, 0, 0, 0], &[2, 0, 0, 0]), None);
    assert_eq!(lanes_mul(&[0, 0, 1 << 32, 0], &[0, 0, 1 << 31, 0]), None);
    assert_eq!(
        lanes_mul(&[0, 0, 1 << 31, 0], &[0, 0, 1 << 31, 0]),
        Some([0, 0, 1 << 46, 0])
    );
}

#[test]
fn div_scales_the_dividend_and_rounds_toward_zero() {
    let a = [ONE, -ONE, 3 * ONE, 5];
    let b = [3, 3, 2 * ONE, -ONE];
    assert_eq!(lanes_div(&a, &b), Some([1431655765, -1431655765, 98304, -5]));
}

#[test]
fn div_has_no_result_for_a_zero_divisor_or_an_overflow() {
    assert_eq!(lanes_div(&[1, 1, 1, 1], &[1, 0, 1, 1]), None);
    assert_eq!(lanes_div(&[1 << 47, 1, 1, 1], &[1, 1, 1, 1]), None);
    assert_eq!(lanes_div(&[-(1 << 47), 1, 1, 1], &[-1, 1, 1, 1]), None);
    assert_eq!(
        lanes_div(&[-(1 << 47), 1, 1, 1], &[1, 1, 1, 1]),
        Some([i64::MIN, 65536, 65536, 65536])
    );
}

#[test]
fn vector_operations_work_componentwise() {
    let a = WVector2 { x: [ONE, 2 * ONE, 0, -ONE], y: [0, ONE, 3 * ONE, ONE] };
    let b = WVector2 { x: [ONE, ONE, ONE, ONE], y: [2 * ONE, 0, -ONE, ONE / 2] };
    let s = a.plus(&b).unwrap();
    assert_eq!(s.x, [2 * ONE, 3 * ONE, ONE, 0]);
    assert_eq!(s.y, [2 * ONE, ONE, 2 * ONE, 3 * ONE / 2]);
    let d = a.less(&b).unwrap();
    assert_eq!(d.x, [0, ONE, -ONE, -2 * ONE]);
    assert_eq!(d.y, [-2 * ONE, ONE, 4 * ONE, ONE / 2]);
    let n = a.negated().unwrap();
    assert_eq!(n.x, [-ONE, -2 * ONE, 0, ONE]);
    let k = a.scaled(&[2 * ONE, ONE / 2, ONE, -ONE]).unwrap();
    assert_eq!(k.x, [2 * ONE, ONE, 0, ONE]);
    assert_eq!(k.y, [0, ONE / 2, 3 * ONE, -ONE]);
}

#[test]
fn cross_products_follow_the_planar_formulas() {
    let a = WVector2 { x: [ONE, 2 * ONE, 0, 3 * ONE], y: [0, ONE, ONE, 4 * ONE] };
    let b = WVector2 { x: [0, ONE, ONE, ONE], y: [ONE, 3 * ONE, 0, 2 * ONE] };
    // x1 * y2 - y1 * x2
    assert_eq!(a.gcross(&b), Some([ONE, 5 * ONE, -ONE, 2 * ONE]));
    let m = a.gcross_matrix().unwrap();
    assert_eq!(m.x, [0, -ONE, -ONE, -4 * ONE]);
    assert_eq!(m.y, [ONE, 2 * ONE, 0, 3 * ONE]);
    // (-w * y, w * x)
    let w = [ONE, 2 * ONE, -ONE, ONE / 2];
    let c = gcross_angular(&w, &a).unwrap();
    assert_eq!(c.x, [0, -2 * ONE, ONE, -2 * ONE]);
    assert_eq!(c.y, [ONE, 4 * ONE, 0, 3 * ONE / 2]);
}

#[test]
fn an_isometry_rotates_then_translates() {
    // Lane 0: identity. Lane 1: quarter turn. Lane 2: half turn and a shift.
    // Lane 3: a shift alone.
    let iso = WIsometry2 {
        cos: [ONE, 0, -ONE, ONE],
        sin: [0, ONE, 0, 0],
        translation: WVector2 { x: [0, 0, 10 * ONE, -ONE], y: [0, 0, ONE, 2 * ONE] },
    };
    let p = WVector2 { x: [3 * ONE, 3 * ONE, 3 * ONE, 3 * ONE], y: [ONE, ONE, ONE, ONE] };
    let q = iso.transform_point(&p).unwrap();
    assert_eq!(q.x, [3 * ONE, -ONE, 7 * ONE, 2 * ONE]);
    assert_eq!(q.y, [ONE, 3 * ONE, 0, 3 * ONE]);
}

#[test]
fn a_matrix_is_inverted_by_its_determinant() {
    let m = WSdpMatrix2 {
        m11: [2 * ONE, ONE, 4 * ONE, 2 * ONE],
        m12: [0, 0, 2 * ONE, ONE],
        m22: [4 * ONE, ONE, 2 * ONE, ONE],
    };
    let inv = m.inverse().unwrap();
    // determinants: 8, 1, 4, 1
    assert_eq!(inv.m11, [ONE / 2, ONE, ONE / 2, ONE]);
    assert_eq!(inv.m12, [0, 0, -ONE / 2, -ONE]);
    assert_eq!(inv.m22, [ONE / 4, ONE, ONE, 2 * ONE]);
    let v = WVector2 { x: [ONE, ONE, ONE, ONE], y: [ONE, 2 * ONE, 0, -ONE] };
    let r = m.times(&v).unwrap();
    assert_eq!(r.x, [2 * ONE, ONE, 4 * ONE, ONE]);
    assert_eq!(r.y, [4 * ONE, 2 * ONE, 2 * ONE, 0]);
}

#[test]
fn a_matrix_without_determinant_has_no_inverse() {
    let singular = WSdpMatrix2 {
        m11: [ONE, ONE, ONE, ONE],
        m12: [0, 0, ONE, 0],
        m22: [ONE, ONE, ONE, ONE],
    };
    assert!(singular.inverse().is_none());
    let zero = WSdpMatrix2 { m11: [0, ONE, ONE, ONE], m12: [0, 0, 0, 0], m22: [0, ONE, ONE, ONE] };
    assert!(zero.inverse().is_none());
}
